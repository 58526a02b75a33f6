//! The control loop's state machine. Once a second the loop applies the
//! latest pause signal, asks whether the user is busy in a fullscreen
//! application, and only when neither paused nor busy lets the reminder
//! schedule run. The loop itself — the thread, the sleep, the channel, the
//! notification — lives outside; this module holds and verifies every
//! decision one iteration makes.

use vstd::prelude::*;
use crate::mailbox::PauseMailbox;
use crate::mailbox::after_sends;
use crate::mailbox::lemma_latest_send_wins;
use crate::scheduler::REMINDER_INTERVAL_MS;
use crate::scheduler::ReminderScheduler;

verus! {

/// The state the control loop carries from one iteration to the next: the
/// pause flag last received and the reminder schedule it alone drives.
#[derive(Clone, Copy, Debug, PartialEq, Eq, Structural)]
pub struct ControlLoop {
    pub paused: bool,
    pub scheduler: ReminderScheduler,
}

/// Everything one iteration observes: the pause signal taken from the
/// mailbox (`None` when nothing was pending), whether a fullscreen
/// application has the foreground, and the wall clock in milliseconds.
#[derive(Clone, Copy, Debug)]
pub struct TickInput {
    pub signal: Option<bool>,
    pub user_busy: bool,
    pub now_ms: u64,
}

/// The pause state an iteration acts under: the signalled value if one was
/// pending, otherwise the value retained from before.
pub open spec fn effective_paused(paused: bool, signal: Option<bool>) -> bool {
    match signal {
        Some(p) => p,
        None => paused,
    }
}

/// Whether the iteration fed `inp` from state `c` fires the reminder:
/// neither paused nor busy, and the job's interval has elapsed.
pub open spec fn tick_fires(c: ControlLoop, inp: TickInput) -> bool {
    &&& !effective_paused(c.paused, inp.signal)
    &&& !inp.user_busy
    &&& c.scheduler.is_due(inp.now_ms)
}

/// The state one iteration leaves behind: the pause signal is applied
/// first, and the schedule advances only when neither paused nor busy.
pub open spec fn tick_step(c: ControlLoop, inp: TickInput) -> ControlLoop {
    let p = effective_paused(c.paused, inp.signal);
    if !p && !inp.user_busy {
        (ControlLoop { paused: p, scheduler: c.scheduler.after_run(inp.now_ms) })
    } else {
        (ControlLoop { paused: p, scheduler: c.scheduler })
    }
}

/// The state a whole run of iterations leaves behind, applying each input
/// in order.
pub open spec fn after_ticks(c: ControlLoop, inputs: Seq<TickInput>) -> ControlLoop
    decreases inputs.len(),
{
    if inputs.len() == 0 {
        c
    } else {
        tick_step(after_ticks(c, inputs.drop_last()), inputs.last())
    }
}

impl ControlLoop {
    /// The control loop's state at startup: not paused, with the reminder
    /// first due a full interval from now.
    pub fn new(now_ms: u64) -> (c: ControlLoop)
        requires
            now_ms + REMINDER_INTERVAL_MS <= u64::MAX,
        ensures
            c.paused == false,
            c.scheduler.next_due() == now_ms + REMINDER_INTERVAL_MS,
    {
        ControlLoop { paused: false, scheduler: ReminderScheduler::new(now_ms) }
    }

    /// One iteration: applies a pending pause signal, gates on the pause
    /// flag and on the busy flag, and only then lets the schedule run.
    /// Returns whether the reminder fired; the caller shows the
    /// notification.
    pub fn tick(&mut self, signal: Option<bool>, user_busy: bool, now_ms: u64) -> (fired:
        bool)
        requires
            now_ms + REMINDER_INTERVAL_MS <= u64::MAX,
        ensures
            fired == tick_fires(*old(self), (TickInput { signal, user_busy, now_ms })),
            *final(self) == tick_step(*old(self), (TickInput { signal, user_busy, now_ms })),
    {
        if let Some(p) = signal {
            self.paused = p;
        }
        if !self.paused && !user_busy {
            self.scheduler.run_pending(now_ms)
        } else {
            false
        }
    }
}

/// One iteration as the loop performs it: drain the mailbox, then tick on
/// whatever was pending. The mailbox is left empty either way.
pub fn drain_and_tick(
    c: &mut ControlLoop,
    inbox: &mut PauseMailbox,
    user_busy: bool,
    now_ms: u64,
) -> (fired: bool)
    requires
        now_ms + REMINDER_INTERVAL_MS <= u64::MAX,
    ensures
        final(inbox).slot is None,
        fired == tick_fires(
            *old(c),
            (TickInput { signal: old(inbox).slot, user_busy, now_ms }),
        ),
        *final(c) == tick_step(
            *old(c),
            (TickInput { signal: old(inbox).slot, user_busy, now_ms }),
        ),
{
    let signal: Option<bool> = inbox.take();
    c.tick(signal, user_busy, now_ms)
}

/// A run's state after one more iteration is the step applied to the run's
/// state so far.
pub proof fn lemma_step_unfold(c: ControlLoop, inputs: Seq<TickInput>, k: int)
    requires
        0 <= k < inputs.len(),
    ensures
        after_ticks(c, inputs.take(k + 1)) == tick_step(
            after_ticks(c, inputs.take(k)),
            inputs[k],
        ),
{
    assert(inputs.take(k + 1).drop_last() =~= inputs.take(k));
    assert(inputs.take(k + 1).last() == inputs[k]);
}

/// Eventual consistency of the pause signal: however many toggles were
/// sent while the control loop slept between iterations, one drained tick
/// later its paused state equals the value sent last.
pub proof fn lemma_pause_eventually_consistent(
    c: ControlLoop,
    inbox: PauseMailbox,
    sent: Seq<bool>,
    user_busy: bool,
    now_ms: u64,
)
    requires
        sent.len() > 0,
    ensures
        tick_step(
            c,
            (TickInput { signal: after_sends(inbox, sent).slot, user_busy, now_ms }),
        ).paused == sent.last(),
{
    lemma_latest_send_wins(inbox, sent);
}

/// With nothing pending in the mailbox, an iteration retains the pause
/// state it already had.
pub proof fn lemma_no_signal_retains_pause(c: ControlLoop, user_busy: bool, now_ms: u64)
    ensures
        tick_step(c, (TickInput { signal: None, user_busy, now_ms })).paused == c.paused,
{
}

/// After the reminder fires at iteration `i`, the job stays due no earlier
/// than a full interval past that firing, through every later point of the
/// run.
pub proof fn lemma_due_floor(c: ControlLoop, inputs: Seq<TickInput>, i: int, m: int)
    requires
        0 <= i < m <= inputs.len(),
        forall|k: int|
            0 <= k < inputs.len() ==> inputs[k].now_ms + REMINDER_INTERVAL_MS <= u64::MAX,
        tick_fires(after_ticks(c, inputs.take(i)), inputs[i]),
    ensures
        after_ticks(c, inputs.take(m)).scheduler.next_due() >= inputs[i].now_ms
            + REMINDER_INTERVAL_MS,
    decreases m - i,
{
    lemma_step_unfold(c, inputs, m - 1);
    if m > i + 1 {
        lemma_due_floor(c, inputs, i, m - 1);
    }
}

/// At most one firing per wall-clock window: if the reminder fires at
/// iterations `i` and later `j` of one run, the second firing's clock reads
/// at least a full interval after the first's.
pub proof fn lemma_at_most_one_fire_per_window(
    c: ControlLoop,
    inputs: Seq<TickInput>,
    i: int,
    j: int,
)
    requires
        0 <= i < j < inputs.len(),
        forall|k: int|
            0 <= k < inputs.len() ==> inputs[k].now_ms + REMINDER_INTERVAL_MS <= u64::MAX,
        tick_fires(after_ticks(c, inputs.take(i)), inputs[i]),
        tick_fires(after_ticks(c, inputs.take(j)), inputs[j]),
    ensures
        inputs[j].now_ms >= inputs[i].now_ms + REMINDER_INTERVAL_MS,
{
    lemma_due_floor(c, inputs, i, j);
}

/// Until the clock first reaches the due instant, the schedule does not
/// move.
pub proof fn lemma_schedule_constant_before_due(
    c: ControlLoop,
    inputs: Seq<TickInput>,
    k: int,
)
    requires
        0 <= k <= inputs.len(),
        forall|m: int| 0 <= m < k ==> inputs[m].now_ms < c.scheduler.next_due(),
    ensures
        after_ticks(c, inputs.take(k)).scheduler == c.scheduler,
    decreases k,
{
    if k > 0 {
        lemma_schedule_constant_before_due(c, inputs, k - 1);
        lemma_step_unfold(c, inputs, k - 1);
    }
}

/// While no signal ever pauses, a loop started unpaused stays unpaused.
pub proof fn lemma_stays_unpaused(c: ControlLoop, inputs: Seq<TickInput>, k: int)
    requires
        0 <= k <= inputs.len(),
        !c.paused,
        forall|m: int| 0 <= m < inputs.len() ==> inputs[m].signal != Some(true),
    ensures
        !after_ticks(c, inputs.take(k)).paused,
    decreases k,
{
    if k > 0 {
        lemma_stays_unpaused(c, inputs, k - 1);
        lemma_step_unfold(c, inputs, k - 1);
    }
}

/// At least one firing per window under continuous ticking: in a run that
/// is never paused, the first iteration whose clock reaches the due instant
/// fires the reminder, provided the user is not busy then.
pub proof fn lemma_first_due_tick_fires(c: ControlLoop, inputs: Seq<TickInput>, k: int)
    requires
        0 <= k < inputs.len(),
        !c.paused,
        forall|m: int| 0 <= m < inputs.len() ==> inputs[m].signal != Some(true),
        !inputs[k].user_busy,
        inputs[k].now_ms >= c.scheduler.next_due(),
        forall|m: int| 0 <= m < k ==> inputs[m].now_ms < c.scheduler.next_due(),
    ensures
        tick_fires(after_ticks(c, inputs.take(k)), inputs[k]),
{
    lemma_schedule_constant_before_due(c, inputs, k);
    lemma_stays_unpaused(c, inputs, k);
}

/// A busy iteration never fires, whatever state the run has reached.
pub proof fn lemma_busy_tick_never_fires(c: ControlLoop, inputs: Seq<TickInput>, k: int)
    requires
        0 <= k < inputs.len(),
        inputs[k].user_busy,
    ensures
        !tick_fires(after_ticks(c, inputs.take(k)), inputs[k]),
{
}

/// A run in which the user is busy throughout fires nothing and leaves the
/// schedule exactly as it was.
pub proof fn lemma_busy_run_leaves_schedule(c: ControlLoop, inputs: Seq<TickInput>)
    requires
        forall|m: int| 0 <= m < inputs.len() ==> inputs[m].user_busy,
    ensures
        after_ticks(c, inputs).scheduler == c.scheduler,
    decreases inputs.len(),
{
    if inputs.len() > 0 {
        lemma_busy_run_leaves_schedule(c, inputs.drop_last());
    }
}

/// A run paused at the start and never resumed stays paused, fires
/// nothing, and leaves the schedule exactly as it was.
pub proof fn lemma_paused_run_fires_nothing(c: ControlLoop, inputs: Seq<TickInput>, k: int)
    requires
        0 <= k <= inputs.len(),
        c.paused,
        forall|m: int| 0 <= m < inputs.len() ==> inputs[m].signal != Some(false),
    ensures
        after_ticks(c, inputs.take(k)).paused,
        after_ticks(c, inputs.take(k)).scheduler == c.scheduler,
        k < inputs.len() ==> !tick_fires(after_ticks(c, inputs.take(k)), inputs[k]),
    decreases k,
{
    if k > 0 {
        lemma_paused_run_fires_nothing(c, inputs, k - 1);
        lemma_step_unfold(c, inputs, k - 1);
    }
}

} // verus!
