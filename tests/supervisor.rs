use sidecar_supervisor::supervisor::{Supervisor, Trigger, EXIT_GRACE_MS};

#[test]
fn window_close_terminates_running_worker_once() {
    let mut sup = Supervisor::started(41u32);
    assert!(sup.is_running());
    let first = sup.on_trigger(Trigger::WindowClose).expect("handle taken");
    assert_eq!(first.handle, 41);
    assert_eq!(first.grace_ms, 0);
    assert!(!sup.is_running());
    assert!(sup.on_trigger(Trigger::WindowClose).is_none());
}

#[test]
fn exit_after_window_close_finds_empty_slot() {
    let mut sup = Supervisor::started(5u32);
    assert!(sup.on_trigger(Trigger::WindowClose).is_some());
    assert!(sup.on_trigger(Trigger::AppExit).is_none());
    assert!(!sup.is_running());
}

#[test]
fn app_exit_terminates_with_grace_period() {
    let mut sup = Supervisor::started(9u32);
    let t = sup.on_trigger(Trigger::AppExit).expect("handle taken");
    assert_eq!(t.handle, 9);
    assert_eq!(t.grace_ms, 500);
    assert_eq!(EXIT_GRACE_MS, 500);
    assert!(sup.on_trigger(Trigger::WindowClose).is_none());
}

#[test]
fn never_started_triggers_are_no_ops() {
    let mut sup: Supervisor<u32> = Supervisor::empty();
    assert!(!sup.is_running());
    assert!(sup.on_trigger(Trigger::WindowClose).is_none());
    assert!(sup.on_trigger(Trigger::AppExit).is_none());
    assert!(!sup.is_running());
}

#[test]
fn any_trigger_sequence_terminates_at_most_once() {
    let sequences = vec![
        vec![Trigger::WindowClose],
        vec![Trigger::AppExit],
        vec![Trigger::WindowClose, Trigger::AppExit],
        vec![Trigger::AppExit, Trigger::WindowClose],
        vec![Trigger::AppExit, Trigger::AppExit, Trigger::WindowClose, Trigger::WindowClose],
    ];
    for ts in sequences {
        let mut sup = Supervisor::started(1u32);
        let mut taken = 0;
        for t in ts {
            if sup.on_trigger(t).is_some() {
                taken += 1;
            }
        }
        assert_eq!(taken, 1);
    }
}

#[test]
fn trigger_after_worker_exited_on_its_own() {
    // The worker crashed: its handle is still in the slot, so the first trigger
    // hands it out once (the signal then fails and is ignored), the next does nothing.
    let mut sup = Supervisor::started(3u32);
    assert!(sup.on_trigger(Trigger::AppExit).is_some());
    assert!(sup.on_trigger(Trigger::WindowClose).is_none());
    assert!(sup.on_trigger(Trigger::AppExit).is_none());
}
