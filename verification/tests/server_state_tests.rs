use pc_landing_page::controller::{ServerController, ServerStatus};
use pc_landing_page::error::McError;
use pc_landing_page::proto::ServerState;
use pc_landing_page::systemctl::sim_unit::SimUnit;

fn boot_fixture() -> ServerController<SimUnit> {
    ServerController::new(SimUnit::new("test_unit.service".to_string()))
}

fn shutdown_fixture() -> ServerController<SimUnit> {
    let mut c = boot_fixture();
    c.boot_server(0).unwrap();
    // six simulated seconds later the boot has completed
    assert_eq!(c.server_state(6000).unwrap(), ServerState::On);
    c
}

#[test]
fn server_state_tests_test_default_state() {
    let mut c = boot_fixture();
    assert_eq!(c.server_state(0).unwrap(), ServerState::Off);
}

#[test]
fn server_state_tests_test_boot_moves_to_booting_state() {
    let mut c = boot_fixture();
    assert!(c.boot_server(0).is_ok());
    assert_eq!(c.server_state(0).unwrap(), ServerState::Booting);
}

#[test]
fn server_state_tests_test_boot_stays_booting_for_5s() {
    let mut c = boot_fixture();
    assert!(c.boot_server(0).is_ok());
    assert_eq!(c.server_state(4990).unwrap(), ServerState::Booting);
}

#[test]
fn server_state_tests_test_boot_completes_after_5s() {
    let mut c = boot_fixture();
    assert!(c.boot_server(0).is_ok());
    assert_eq!(c.server_state(5001).unwrap(), ServerState::On);
}

#[test]
fn server_state_tests_test_boot_fails_if_already_booting() {
    let mut c = boot_fixture();
    assert!(c.boot_server(0).is_ok());
    assert!(c.boot_server(0).is_err());
}

#[test]
fn server_state_tests_test_boot_fails_if_already_on() {
    let mut c = boot_fixture();
    assert!(c.boot_server(0).is_ok());
    assert!(c.boot_server(6000).is_err());
}

#[test]
fn server_state_tests_test_shutdown_completes_after_5s() {
    let mut c = shutdown_fixture();
    assert!(c.shutdown_server(6000).is_ok());
    assert_eq!(c.server_state(6000 + 5001).unwrap(), ServerState::Off);
}

#[test]
fn server_state_tests_test_shutdown_fails_if_already_shutting_down() {
    let mut c = shutdown_fixture();
    assert!(c.shutdown_server(6000).is_ok());
    assert!(c.shutdown_server(6001).is_err());
}

#[test]
fn server_state_tests_test_shutdown_fails_if_already_off() {
    let mut c = shutdown_fixture();
    assert!(c.shutdown_server(6000).is_ok());
    assert!(c.shutdown_server(12000).is_err());
}

#[test]
fn test_boot_precondition_error_is_invalid_op() {
    let mut c = boot_fixture();
    assert!(c.boot_server(0).is_ok());
    match c.boot_server(0) {
        Err(McError::InvalidOp(msg)) => {
            assert_eq!(msg, "Can't turn server on in Booting state");
        }
        other => panic!("expected an invalid operation error, got {other:?}"),
    }
}

#[test]
fn test_shutdown_precondition_error_is_invalid_op() {
    let mut c = boot_fixture();
    match c.shutdown_server(0) {
        Err(McError::InvalidOp(msg)) => {
            assert_eq!(msg, "Can't turn server off in Off state");
        }
        other => panic!("expected an invalid operation error, got {other:?}"),
    }
}

#[test]
fn test_staleness_gate_one_reconciliation_per_window() {
    let mut c = boot_fixture();
    assert!(c.boot_server(0).is_ok());
    assert_eq!(c.server_status.last_updated, 0);
    // two queries within the refresh window leave the record untouched:
    // no second backend query is issued
    assert_eq!(c.server_state(2000).unwrap(), ServerState::Booting);
    assert_eq!(c.server_status.last_updated, 0);
    assert_eq!(c.server_state(4990).unwrap(), ServerState::Booting);
    assert_eq!(c.server_status.last_updated, 0);
    // past the threshold the next query reconciles and stamps the time
    assert_eq!(c.server_state(5001).unwrap(), ServerState::On);
    assert_eq!(c.server_status.last_updated, 5001);
}

#[test]
fn test_shutdown_never_clobbered_by_reconciliation() {
    // a reconciliation that still observes the service active must not move
    // a controller in Shutdown back to On
    let unit = SimUnit {
        name: "test_unit.service".to_string(),
        state: ServerState::On,
        last_update: 0,
    };
    let mut status = ServerStatus {
        unit,
        last_updated: 0,
        state: ServerState::Shutdown,
        refreshed: true,
    };
    status.do_update(10_000).unwrap();
    assert_eq!(status.state(), ServerState::Shutdown);
    assert_eq!(status.unit().state, ServerState::On);
}

#[test]
fn test_finish_boot_outcomes() {
    let mk = |state| ServerStatus {
        unit: SimUnit::new("u.service".to_string()),
        last_updated: 0,
        state,
        refreshed: true,
    };
    let mut st = mk(ServerState::Booting);
    assert!(st.finish_boot(Ok(0)).is_ok());
    assert_eq!(st.state(), ServerState::Booting);

    let mut st = mk(ServerState::Booting);
    match st.finish_boot(Ok(3)) {
        Err(McError::NonzeroExit(code)) => assert_eq!(code, 3),
        other => panic!("expected a nonzero exit error, got {other:?}"),
    }
    assert_eq!(st.state(), ServerState::Off);

    let mut st = mk(ServerState::Booting);
    assert!(st.finish_boot(Err(McError::BackendIo("gone".to_string()))).is_err());
    assert_eq!(st.state(), ServerState::Off);
}

#[test]
fn test_finish_shutdown_outcomes() {
    let mk = |state| ServerStatus {
        unit: SimUnit::new("u.service".to_string()),
        last_updated: 0,
        state,
        refreshed: true,
    };
    let mut st = mk(ServerState::Shutdown);
    assert!(st.finish_shutdown(Ok(0)).is_ok());
    assert_eq!(st.state(), ServerState::Off);

    let mut st = mk(ServerState::Shutdown);
    match st.finish_shutdown(Ok(1)) {
        Err(McError::NonzeroExit(code)) => assert_eq!(code, 1),
        other => panic!("expected a nonzero exit error, got {other:?}"),
    }
    assert_eq!(st.state(), ServerState::On);

    let mut st = mk(ServerState::Shutdown);
    assert!(st.finish_shutdown(Err(McError::BackendIo("gone".to_string()))).is_err());
    assert_eq!(st.state(), ServerState::On);
}

#[test]
fn test_admitted_boot_surfaces_the_commands_own_refusal() {
    // a controller that believes the service off, within the staleness
    // window, while the backend itself is mid-shutdown: the request is
    // admitted, the start command itself refuses, and the boot is aborted
    // back to Off
    let unit = SimUnit {
        name: "test_unit.service".to_string(),
        state: ServerState::Shutdown,
        last_update: 0,
    };
    let mut c = ServerController {
        server_status: ServerStatus {
            unit,
            last_updated: 0,
            state: ServerState::Off,
            refreshed: true,
        },
    };
    match c.boot_server(100) {
        Err(McError::InvalidOp(msg)) => {
            assert_eq!(msg, "Server is not in Off state: Shutdown");
        }
        other => panic!("expected the command's refusal, got {other:?}"),
    }
    assert_eq!(c.server_status.state, ServerState::Off);
}

#[test]
fn test_fresh_controller_is_unknown_until_queried() {
    let c = ServerController::new(SimUnit::new("test_unit.service".to_string()));
    assert_eq!(c.server_status.state, ServerState::Unknown);
    assert!(!c.server_status.refreshed);
}

#[test]
fn test_sim_unit_start_and_stop_preconditions() {
    let mut u = SimUnit::new("u.service".to_string());
    assert_eq!(u.state, ServerState::Off);
    let mut v = SimUnit {
        name: "u.service".to_string(),
        state: ServerState::On,
        last_update: 0,
    };
    // start is only accepted from Off, stop only from On
    match pc_landing_page::systemctl::unit::Unit::start(&mut v, 0) {
        Err(McError::InvalidOp(msg)) => assert_eq!(msg, "Server is not in Off state: On"),
        other => panic!("expected an invalid operation error, got {other:?}"),
    }
    match pc_landing_page::systemctl::unit::Unit::stop(&mut u, 0) {
        Err(McError::InvalidOp(msg)) => assert_eq!(msg, "Server is not in On state: Off"),
        other => panic!("expected an invalid operation error, got {other:?}"),
    }
    assert!(pc_landing_page::systemctl::unit::Unit::start(&mut u, 0).is_ok());
    assert_eq!(u.state, ServerState::Booting);
}
