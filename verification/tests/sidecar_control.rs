use onyx_core::sidecar::{OpenCodeServerState, StartPlan};

#[test]
fn start_on_empty_slot_spawns_fresh() {
    let mut s = OpenCodeServerState::default();
    assert!(s.process.is_none() && s.port.is_none());
    let plan = s.plan_start(4096, false);
    assert!(matches!(plan, StartPlan::Spawn { kill_first: None }));
    s.record_started(101, 4096);
    assert_eq!(s.process, Some(101));
    assert_eq!(s.port, Some(4096));
}

#[test]
fn start_same_port_is_idempotent() {
    let mut s = OpenCodeServerState::default();
    let plan = s.plan_start(4096, false);
    assert!(matches!(plan, StartPlan::Spawn { kill_first: None }));
    s.record_started(101, 4096);
    // The second start on the same port replaces nothing: same pid after.
    let plan = s.plan_start(4096, true);
    assert!(matches!(plan, StartPlan::AlreadyRunning));
    assert_eq!(s.process, Some(101));
    assert_eq!(s.port, Some(4096));
}

#[test]
fn start_different_port_replaces_old_process() {
    let mut s = OpenCodeServerState::default();
    s.plan_start(4096, false);
    s.record_started(101, 4096);
    let plan = s.plan_start(5000, true);
    // The old pid must be killed and waited on; it is no longer tracked.
    assert!(matches!(plan, StartPlan::Spawn { kill_first: Some(101) }));
    assert!(s.process.is_none() && s.port.is_none());
    s.record_started(102, 5000);
    assert_eq!(s.process, Some(102));
    assert_eq!(s.port, Some(5000));
}

#[test]
fn start_clears_exited_process_first() {
    let mut s = OpenCodeServerState::default();
    s.plan_start(4096, false);
    s.record_started(101, 4096);
    // The non-blocking poll found the process dead: no kill is ordered.
    let plan = s.plan_start(4096, false);
    assert!(matches!(plan, StartPlan::Spawn { kill_first: None }));
    assert!(s.process.is_none());
}

#[test]
fn stop_is_idempotent_and_always_succeeds() {
    let mut s = OpenCodeServerState::default();
    assert_eq!(s.stop(), None);
    s.plan_start(4096, false);
    s.record_started(101, 4096);
    assert_eq!(s.stop(), Some(101));
    assert!(s.process.is_none() && s.port.is_none());
    assert_eq!(s.stop(), None);
}

#[test]
fn liveness_query_lazily_clears_exited_process() {
    let mut s = OpenCodeServerState::default();
    assert!(!s.note_poll(false));
    s.plan_start(4096, false);
    s.record_started(101, 4096);
    assert!(s.note_poll(true));
    assert_eq!(s.process, Some(101));
    assert!(!s.note_poll(false));
    assert!(s.process.is_none() && s.port.is_none());
}

#[test]
fn double_start_on_port_4096_spawns_once() {
    // Scenario: two identical starts on port 4096; the spawn count stays
    // at one and the server reads as managed after both calls.
    let mut s = OpenCodeServerState::default();
    let mut spawn_count = 0;
    for _ in 0..2 {
        let alive = s.process.is_some();
        match s.plan_start(4096, alive) {
            StartPlan::Spawn { kill_first } => {
                assert_eq!(kill_first, None);
                spawn_count += 1;
                s.record_started(900, 4096);
            }
            StartPlan::AlreadyRunning => {}
        }
        assert!(s.note_poll(true));
    }
    assert_eq!(spawn_count, 1);
    assert_eq!(s.process, Some(900));
}
