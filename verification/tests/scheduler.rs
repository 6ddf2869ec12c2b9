use sysdash::scheduler::{
    is_exit_key, should_refresh, KeyPress, Phase, Scheduler, POLL_MILLIS, REFRESH_INTERVAL_TICKS,
    TICK_MILLIS,
};

#[test]
fn refresh_cadence() {
    assert!(should_refresh(0));
    assert!(!should_refresh(1));
    assert!(!should_refresh(9));
    assert!(should_refresh(10));
    assert!(should_refresh(20));
    assert!(!should_refresh(15));
}

#[test]
fn exit_keys() {
    assert!(is_exit_key(&KeyPress::Character('q')));
    assert!(is_exit_key(&KeyPress::Escape));
    assert!(!is_exit_key(&KeyPress::Character('x')));
    assert!(!is_exit_key(&KeyPress::Other));
}

#[test]
fn timing_constants() {
    assert_eq!(TICK_MILLIS, 10);
    assert_eq!(POLL_MILLIS, 100);
    assert_eq!(REFRESH_INTERVAL_TICKS, 10);
}

#[test]
fn tick_loop_state_machine() {
    let mut s = Scheduler::new();
    assert!(s.running());
    // Tick 0 renders.
    assert!(s.start_tick());
    assert_eq!(s.phase, Phase::Rendering);
    s.absorb_event(None);
    assert!(s.running());
    s.next_tick();
    // Ticks 1 through 9 only poll.
    for _ in 1..10 {
        assert!(!s.start_tick());
        assert_eq!(s.phase, Phase::Idle);
        s.absorb_event(Some(KeyPress::Other));
        assert!(s.running());
        s.next_tick();
    }
    // Tick 10 renders again.
    assert!(s.start_tick());
    // An exit key shuts the loop down.
    s.absorb_event(Some(KeyPress::Character('q')));
    assert_eq!(s.phase, Phase::Shutdown);
    assert!(!s.running());
}

#[test]
fn escape_also_exits() {
    let mut s = Scheduler::new();
    s.start_tick();
    s.absorb_event(Some(KeyPress::Escape));
    assert!(!s.running());
}
