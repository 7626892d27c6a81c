use sidecar_supervisor::handle::SidecarHandle;
use sidecar_supervisor::lifecycle::{kill_report, nothing_to_kill, on_shutdown, shutdown_notice, ShutdownAction};
use sidecar_supervisor::logline::Severity;
use sidecar_supervisor::startup::{start_supervisor, SpawnError};

#[test]
fn first_shutdown_kills_and_reports() {
    let mut h = start_supervisor::<u32>(Ok(41)).unwrap();
    assert!(h.is_present());
    assert_eq!(shutdown_notice().text, "Main window destroyed. Attempting to kill sidecar...");
    match on_shutdown(&mut h) {
        ShutdownAction::Kill(c) => assert_eq!(c, 41),
        ShutdownAction::NothingToKill => panic!("the worker was there"),
    }
    assert!(!h.is_present());
    let l = kill_report(&Ok(()));
    assert_eq!(l.severity, Severity::Info);
    assert_eq!(l.text, "Sidecar killed.");
}

#[test]
fn second_shutdown_finds_nothing() {
    let mut h = SidecarHandle::holding(5u32);
    assert!(matches!(on_shutdown(&mut h), ShutdownAction::Kill(5)));
    assert!(matches!(on_shutdown(&mut h), ShutdownAction::NothingToKill));
    let l = nothing_to_kill();
    assert_eq!(l.severity, Severity::Info);
    assert_eq!(l.text, "No sidecar process found to kill.");
}

#[test]
fn many_deliveries_kill_once() {
    let mut h = SidecarHandle::holding(9u32);
    let mut kills = 0;
    for _ in 0..10 {
        if let ShutdownAction::Kill(c) = on_shutdown(&mut h) {
            assert_eq!(c, 9);
            kills += 1;
        }
    }
    assert_eq!(kills, 1);
    assert!(!h.is_present());
}

#[test]
fn two_deliveries_through_one_lock_kill_once() {
    let shared = std::sync::Mutex::new(SidecarHandle::holding(3u32));
    let first = on_shutdown(&mut shared.lock().unwrap());
    let second = on_shutdown(&mut shared.lock().unwrap());
    let winners = [&first, &second].iter().filter(|a| matches!(a, ShutdownAction::Kill(_))).count();
    assert_eq!(winners, 1);
    assert!(matches!(second, ShutdownAction::NothingToKill));
}

#[test]
fn empty_handle_never_kills() {
    let mut h: SidecarHandle<u32> = SidecarHandle::new();
    assert!(!h.is_present());
    assert!(matches!(on_shutdown(&mut h), ShutdownAction::NothingToKill));
    assert_eq!(h.take(), None);
}

#[test]
fn failed_kill_is_only_reported() {
    let l = kill_report(&Err("process already exited".to_string()));
    assert_eq!(l.severity, Severity::Error);
    assert_eq!(l.text, "Failed to kill sidecar: process already exited");
}

#[test]
fn missing_executable_aborts_startup() {
    let e = SpawnError::Resolve { program: "tabooz-backend".to_string(), reason: "not found".to_string() };
    let r = start_supervisor::<u32>(Err(e));
    match r {
        Err(e) => assert_eq!(e.message(), "failed to create tabooz-backend command: not found"),
        Ok(_) => panic!("startup must not go on"),
    }
}

#[test]
fn refused_launch_aborts_startup() {
    let r = start_supervisor::<u32>(Err(SpawnError::Launch { reason: "permission denied".to_string() }));
    assert!(matches!(&r, Err(SpawnError::Launch { .. })));
    assert_eq!(r.err().unwrap().message(), "failed to spawn sidecar: permission denied");
}

#[test]
fn take_hands_out_the_worker_once() {
    let mut h = SidecarHandle::holding(11u32);
    assert_eq!(h.take(), Some(11));
    assert_eq!(h.take(), None);
}
