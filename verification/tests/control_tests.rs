use health_notifications::control::drain_and_tick;
use health_notifications::control::ControlLoop;
use health_notifications::mailbox::PauseMailbox;
use health_notifications::scheduler::REMINDER_INTERVAL_MS;

#[test]
fn pause_signal_is_applied_and_retained() {
    let mut c = ControlLoop::new(0);
    assert!(!c.paused);
    c.tick(Some(true), false, 1_000);
    assert!(c.paused);
    c.tick(None, false, 2_000);
    assert!(c.paused);
    c.tick(Some(false), false, 3_000);
    assert!(!c.paused);
}

#[test]
fn mailbox_keeps_the_latest_value_only() {
    let mut m = PauseMailbox::empty();
    assert_eq!(m.take(), None);
    m.send(true);
    m.send(false);
    m.send(true);
    assert_eq!(m.take(), Some(true));
    assert_eq!(m.take(), None);
}

#[test]
fn drained_tick_adopts_the_latest_sent_value() {
    let mut c = ControlLoop::new(0);
    let mut m = PauseMailbox::empty();
    m.send(false);
    m.send(true);
    drain_and_tick(&mut c, &mut m, false, 1_000);
    assert!(c.paused);
    // Nothing pending: the value is retained.
    drain_and_tick(&mut c, &mut m, false, 2_000);
    assert!(c.paused);
}

#[test]
fn paused_loop_never_fires() {
    let mut c = ControlLoop::new(0);
    c.tick(Some(true), false, 0);
    let mut now: u64 = 0;
    while now <= 3 * REMINDER_INTERVAL_MS {
        assert!(!c.tick(None, false, now));
        now += 1_000;
    }
}

#[test]
fn busy_loop_never_fires() {
    let mut c = ControlLoop::new(0);
    let mut now: u64 = 0;
    while now <= 3 * REMINDER_INTERVAL_MS {
        assert!(!c.tick(None, true, now));
        now += 1_000;
    }
}

#[test]
fn end_to_end_pause_and_resume_scenario() {
    // Start unpaused; tick once a second for twenty simulated minutes:
    // exactly one reminder, with the fixed 20-20-20 text.
    let mut c = ControlLoop::new(0);
    let mut m = PauseMailbox::empty();
    let mut now: u64 = 0;
    let mut fires: u32 = 0;
    // Tick once a second from the start through the twenty-minute mark.
    for _ in 0..=(REMINDER_INTERVAL_MS / 1_000) {
        if drain_and_tick(&mut c, &mut m, false, now) {
            fires += 1;
            assert_eq!(
                health_notifications::scheduler::reminder_title(),
                "Look away and blink for 30 seconds!"
            );
        }
        now += 1_000;
    }
    assert_eq!(fires, 1);

    // Toggle pause, advance twenty minutes: zero reminders.
    m.send(true);
    fires = 0;
    for _ in 0..(REMINDER_INTERVAL_MS / 1_000) {
        if drain_and_tick(&mut c, &mut m, false, now) {
            fires += 1;
        }
        now += 1_000;
    }
    assert_eq!(fires, 0);

    // Toggle resume, advance twenty more minutes: the reminder withheld
    // while paused fires once, and once only — no catch-up burst.
    m.send(false);
    fires = 0;
    for _ in 0..(REMINDER_INTERVAL_MS / 1_000) {
        if drain_and_tick(&mut c, &mut m, false, now) {
            fires += 1;
        }
        now += 1_000;
    }
    assert_eq!(fires, 1);
}

#[test]
fn fullscreen_busy_suppresses_a_due_reminder_until_free() {
    let mut c = ControlLoop::new(0);
    // The job is due, but the user is in a fullscreen application.
    assert!(!c.tick(None, true, REMINDER_INTERVAL_MS));
    // The moment the user is free, the due job fires.
    assert!(c.tick(None, false, REMINDER_INTERVAL_MS + 1_000));
}
