//! The reminder schedule: one recurring job that is due every twenty
//! minutes of wall-clock time. `run_pending` fires the job when its time has
//! come and reschedules it twenty minutes from now, so a long gap between
//! calls yields at most one firing, never a burst.

use vstd::prelude::*;

verus! {

/// The reminder interval, twenty minutes in milliseconds.
pub const REMINDER_INTERVAL_MS: u64 = 1_200_000;

/// Title of the reminder notification.
pub fn reminder_title() -> (title: &'static str)
    ensures
        title@ == "Look away and blink for 30 seconds!"@,
{
    "Look away and blink for 30 seconds!"
}

/// Body of the reminder notification.
pub fn reminder_body() -> (body: &'static str)
    ensures
        body@ == "Take care of cho eyes!!"@,
{
    "Take care of cho eyes!!"
}

/// The schedule of the one recurring reminder job. Times are milliseconds
/// of wall-clock time since an arbitrary fixed origin, such as process
/// start.
#[derive(Clone, Copy, Debug, PartialEq, Eq, Structural)]
pub struct ReminderScheduler {
    pub next_due_ms: u64,
}

impl ReminderScheduler {
    /// The instant, in milliseconds, at which the job next falls due.
    pub open spec fn next_due(self) -> u64 {
        self.next_due_ms
    }

    /// Whether a `run_pending` call at instant `now_ms` fires the job.
    pub open spec fn is_due(self, now_ms: u64) -> bool {
        now_ms >= self.next_due()
    }

    /// The schedule after a `run_pending` call at instant `now_ms`.
    pub open spec fn after_run(self, now_ms: u64) -> ReminderScheduler {
        if self.is_due(now_ms) {
            (ReminderScheduler { next_due_ms: (now_ms + REMINDER_INTERVAL_MS) as u64 })
        } else {
            self
        }
    }

    /// Creates the schedule at instant `now_ms`: the job first falls due a
    /// full interval later.
    pub fn new(now_ms: u64) -> (s: ReminderScheduler)
        requires
            now_ms + REMINDER_INTERVAL_MS <= u64::MAX,
        ensures
            s.next_due() == now_ms + REMINDER_INTERVAL_MS,
    {
        ReminderScheduler { next_due_ms: now_ms + REMINDER_INTERVAL_MS }
    }

    /// Checks the clock and fires the job if its interval has elapsed,
    /// rescheduling it a full interval after `now_ms`. Returns whether the
    /// job fired; the caller performs the notification.
    pub fn run_pending(&mut self, now_ms: u64) -> (fired: bool)
        requires
            now_ms + REMINDER_INTERVAL_MS <= u64::MAX,
        ensures
            fired == old(self).is_due(now_ms),
            *final(self) == old(self).after_run(now_ms),
            fired ==> final(self).next_due() == now_ms + REMINDER_INTERVAL_MS,
            !fired ==> *final(self) == *old(self),
    {
        if now_ms >= self.next_due_ms {
            self.next_due_ms = now_ms + REMINDER_INTERVAL_MS;
            true
        } else {
            false
        }
    }
}

/// Once the job has fired, it cannot fire again until a full interval of
/// wall-clock time has passed: a call before then finds nothing due.
pub proof fn lemma_no_second_fire_within_window(
    s: ReminderScheduler,
    fire_ms: u64,
    later_ms: u64,
)
    requires
        s.is_due(fire_ms),
        fire_ms + REMINDER_INTERVAL_MS <= u64::MAX,
        later_ms < fire_ms + REMINDER_INTERVAL_MS,
    ensures
        !s.after_run(fire_ms).is_due(later_ms),
{
}

} // verus!
