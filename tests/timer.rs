use pygbase_particles::{TimeAction, Timer};

#[test]
fn repeating_timer_started_done_pulses_once() {
    let mut t = Timer::new(true, true);
    assert!(t.done());
    assert!(t.just_done());
    assert_eq!(t.initial_action(), TimeAction::Clear);
    // a tick by zero from a remaining time of zero does not expire
    assert_eq!(t.tick(false), TimeAction::Keep);
    assert!(!t.just_done());
    assert!(!t.done());
}

#[test]
fn repeating_timer_fires_on_each_expiry() {
    let mut t = Timer::new(false, true);
    assert_eq!(t.initial_action(), TimeAction::Restart);
    assert!(!t.done());
    assert_eq!(t.tick(true), TimeAction::AddCooldown);
    assert!(t.done() && t.just_done());
    assert_eq!(t.tick(true), TimeAction::AddCooldown);
    assert!(t.done() && t.just_done());
    assert_eq!(t.tick(false), TimeAction::Keep);
    assert!(!t.done() && !t.just_done());
}

#[test]
fn one_shot_timer_just_done_exactly_once() {
    let mut t = Timer::new(false, false);
    let events = [false, false, true, true, true, true];
    let mut pulses = 0;
    for &e in events.iter() {
        let action = t.tick(e);
        if e {
            assert_eq!(action, TimeAction::Clear);
        } else {
            assert_eq!(action, TimeAction::Keep);
        }
        if t.just_done() {
            pulses += 1;
        }
    }
    assert_eq!(pulses, 1);
    assert!(t.done());
    assert!(!t.just_done());
}

#[test]
fn one_shot_timer_without_expiry_never_fires() {
    let mut t = Timer::new(false, false);
    for _ in 0..10 {
        assert_eq!(t.tick(false), TimeAction::Keep);
        assert!(!t.done());
        assert!(!t.just_done());
    }
}

#[test]
fn start_and_finish() {
    let mut t = Timer::new(false, false);
    assert_eq!(t.finish(), TimeAction::Clear);
    assert!(t.done() && t.just_done());
    assert_eq!(t.start(), TimeAction::Restart);
    assert!(!t.done() && !t.just_done());
    assert!(!t.repeating());
}

#[test]
fn one_shot_just_done_cleared_by_tick_without_expiry() {
    let mut t = Timer::new(false, false);
    assert_eq!(t.tick(true), TimeAction::Clear);
    assert!(t.done() && t.just_done());
    // a tick by zero from the cleared remaining time does not expire
    assert_eq!(t.tick(false), TimeAction::Keep);
    assert!(t.done());
    assert!(!t.just_done());
}

#[test]
fn one_shot_fires_once_over_mixed_ticks() {
    let mut t = Timer::new(false, false);
    let events = [false, true, false, true, false, false, true];
    let mut pulses = 0;
    for &e in events.iter() {
        t.tick(e);
        if t.just_done() {
            pulses += 1;
        }
    }
    assert_eq!(pulses, 1);
    assert!(t.done());
}

#[test]
fn finished_one_shot_pulse_lasts_one_tick() {
    let mut t = Timer::new(false, false);
    t.finish();
    assert!(t.just_done());
    t.tick(false);
    assert!(t.done() && !t.just_done());
}
