use pc_landing_page::error::McError;
use pc_landing_page::mc_server::SystemctlServerStatus;
use pc_landing_page::proto::ServerState;
use pc_landing_page::systemctl::sys_unit::SysUnit;

fn fetched_unit(active: bool) -> SysUnit {
    SysUnit::from_status_output("mc_server.service", "\u{25CF} mc_server.service\n", None, active)
        .unwrap()
}

#[test]
fn test_fresh_record_must_refresh() {
    let status = SystemctlServerStatus::new();
    assert_eq!(status.state(), ServerState::Unknown);
    assert!(status.unit().is_none());
    assert!(status.needs_refresh_at(0));
}

#[test]
fn test_refresh_recomputes_state_and_gates_staleness() {
    let mut status = SystemctlServerStatus::new();
    status.apply_refresh(fetched_unit(false), 100);
    assert_eq!(status.state(), ServerState::Off);
    // within the threshold no further fetch is due
    assert!(!status.needs_refresh_at(100 + 4999));
    assert!(status.needs_refresh_at(100 + 5000));

    status.apply_refresh(fetched_unit(true), 6000);
    assert_eq!(status.state(), ServerState::On);
}

#[test]
fn test_boot_flow_and_poll_promotion() {
    let mut status = SystemctlServerStatus::new();
    status.apply_refresh(fetched_unit(false), 0);
    assert!(status.try_begin_boot().is_ok());
    assert_eq!(status.state(), ServerState::Booting);
    assert!(status.finish_boot(Ok(0)).is_ok());
    assert_eq!(status.state(), ServerState::Booting);
    // while the service still reports inactive the boot stays in flight
    status.apply_refresh(fetched_unit(false), 6000);
    assert_eq!(status.state(), ServerState::Booting);
    // the poll is what promotes the boot once the service reports active
    status.apply_refresh(fetched_unit(true), 12000);
    assert_eq!(status.state(), ServerState::On);
}

#[test]
fn test_boot_refused_outside_off() {
    let mut status = SystemctlServerStatus::new();
    status.apply_refresh(fetched_unit(true), 0);
    match status.try_begin_boot() {
        Err(McError::InvalidOp(msg)) => {
            assert_eq!(msg, "Can't turn server on in On state");
        }
        other => panic!("expected an invalid operation error, got {other:?}"),
    }
    assert_eq!(status.state(), ServerState::On);
}

#[test]
fn test_failed_boot_command_reverts() {
    let mut status = SystemctlServerStatus::new();
    status.apply_refresh(fetched_unit(false), 0);
    status.try_begin_boot().unwrap();
    match status.finish_boot(Ok(1)) {
        Err(McError::NonzeroExit(code)) => assert_eq!(code, 1),
        other => panic!("expected a nonzero exit error, got {other:?}"),
    }
    assert_eq!(status.state(), ServerState::Off);
}

#[test]
fn test_shutdown_flow_not_clobbered_by_stale_read() {
    let mut status = SystemctlServerStatus::new();
    status.apply_refresh(fetched_unit(true), 0);
    assert!(status.try_begin_shutdown().is_ok());
    assert_eq!(status.state(), ServerState::Shutdown);
    // a poll that still sees the service active must not revert the state
    status.apply_refresh(fetched_unit(true), 6000);
    assert_eq!(status.state(), ServerState::Shutdown);
    // only the stop command's own completion leaves Shutdown
    assert!(status.finish_shutdown(Ok(0)).is_ok());
    assert_eq!(status.state(), ServerState::Off);
}

#[test]
fn test_failed_shutdown_command_reverts() {
    let mut status = SystemctlServerStatus::new();
    status.apply_refresh(fetched_unit(true), 0);
    status.try_begin_shutdown().unwrap();
    match status.finish_shutdown(Err(McError::BackendIo("gone".to_string()))) {
        Err(McError::BackendIo(msg)) => assert_eq!(msg, "gone"),
        other => panic!("expected a backend error, got {other:?}"),
    }
    assert_eq!(status.state(), ServerState::On);
}

#[test]
fn test_shutdown_refused_outside_on() {
    let mut status = SystemctlServerStatus::new();
    status.apply_refresh(fetched_unit(false), 0);
    match status.try_begin_shutdown() {
        Err(McError::InvalidOp(msg)) => {
            assert_eq!(msg, "Can't turn server off in Off state");
        }
        other => panic!("expected an invalid operation error, got {other:?}"),
    }
    assert_eq!(status.state(), ServerState::Off);
}
