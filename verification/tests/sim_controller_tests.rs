use pc_landing_page::controller::sim_server_controller::SimServerController;
use pc_landing_page::proto::ServerState;

fn boot_fixture() -> SimServerController {
    SimServerController::new()
}

fn shutdown_fixture() -> SimServerController {
    let mut c = SimServerController::new();
    c.boot_server(0).unwrap();
    // six simulated seconds later the boot has completed
    assert_eq!(c.server_state(6000).unwrap(), ServerState::On);
    c
}

#[test]
fn sim_server_controller_test_default_state() {
    let mut c = boot_fixture();
    assert_eq!(c.server_state(0).unwrap(), ServerState::Off);
}

#[test]
fn sim_server_controller_test_boot_moves_to_booting_state() {
    let mut c = boot_fixture();
    assert!(c.boot_server(0).is_ok());
    assert_eq!(c.server_state(0).unwrap(), ServerState::Booting);
}

#[test]
fn sim_server_controller_test_boot_stays_booting_for_5s() {
    let mut c = boot_fixture();
    assert!(c.boot_server(0).is_ok());
    assert_eq!(c.server_state(4990).unwrap(), ServerState::Booting);
}

#[test]
fn sim_server_controller_test_boot_completes_after_5s() {
    let mut c = boot_fixture();
    assert!(c.boot_server(0).is_ok());
    assert_eq!(c.server_state(5001).unwrap(), ServerState::On);
}

#[test]
fn sim_server_controller_test_boot_fails_if_already_booting() {
    let mut c = boot_fixture();
    assert!(c.boot_server(0).is_ok());
    assert!(c.boot_server(0).is_err());
}

#[test]
fn sim_server_controller_test_boot_fails_if_already_on() {
    let mut c = boot_fixture();
    assert!(c.boot_server(0).is_ok());
    assert!(c.boot_server(6000).is_err());
}

#[test]
fn sim_server_controller_test_shutdown_moves_to_shutdown_state() {
    let mut c = shutdown_fixture();
    assert!(c.shutdown_server(6000).is_ok());
    assert_eq!(c.server_state(6000).unwrap(), ServerState::Shutdown);
}

#[test]
fn sim_server_controller_test_shutdown_stays_shutting_down_for_5s() {
    let mut c = shutdown_fixture();
    assert!(c.shutdown_server(6000).is_ok());
    assert_eq!(c.server_state(6000 + 4990).unwrap(), ServerState::Shutdown);
}

#[test]
fn sim_server_controller_test_shutdown_completes_after_5s() {
    let mut c = shutdown_fixture();
    assert!(c.shutdown_server(6000).is_ok());
    assert_eq!(c.server_state(6000 + 5001).unwrap(), ServerState::Off);
}

#[test]
fn sim_server_controller_test_shutdown_fails_if_already_shutting_down() {
    let mut c = shutdown_fixture();
    assert!(c.shutdown_server(6000).is_ok());
    assert!(c.shutdown_server(6000).is_err());
}

#[test]
fn sim_server_controller_test_shutdown_fails_if_already_off() {
    let mut c = shutdown_fixture();
    assert!(c.shutdown_server(6000).is_ok());
    assert!(c.shutdown_server(12000).is_err());
}
