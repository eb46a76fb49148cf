use owr_power::cyphal::{
    request_outcome, CommsState, RequestOutcome, Subsystem, COMMAND_RESTART,
    EXECUTE_COMMAND_SERVICE_ID, LED_UPDATE_SUBJECT_ID, STATUS_BAD_COMMAND,
};
use owr_power::power_hub::{PinLevel, PowerController, PwrChan, PwrChanState};
use owr_power::vesc::{startup_zero_publications, validate_node_id, vesc_speed_subjects, VescConfigError};
use canadensis_data_types::uavcan::node::execute_command_1_3::{
    ExecuteCommandRequest, ExecuteCommandResponse, SERVICE,
};

#[test]
fn protocol_constants_match_the_data_types() {
    assert_eq!(EXECUTE_COMMAND_SERVICE_ID, u16::from(SERVICE));
    assert_eq!(COMMAND_RESTART, ExecuteCommandRequest::COMMAND_RESTART);
    assert_eq!(STATUS_BAD_COMMAND, ExecuteCommandResponse::STATUS_BAD_COMMAND);
}

#[test]
fn restart_command_is_decoded_little_endian() {
    assert_eq!(request_outcome(435, &[0xFF, 0xFF, 0x00]), RequestOutcome::Restart);
    assert_eq!(request_outcome(435, &[0xFF, 0xFF]), RequestOutcome::Restart);
    assert_eq!(request_outcome(435, &[0xFE, 0xFF, 0x00]), RequestOutcome::RejectBadCommand);
    assert_eq!(request_outcome(435, &[0xFF, 0xFE, 0x00]), RequestOutcome::RejectBadCommand);
}

#[test]
fn short_payload_is_zero_extended() {
    assert_eq!(request_outcome(435, &[0xFF]), RequestOutcome::RejectBadCommand);
    assert_eq!(request_outcome(435, &[]), RequestOutcome::RejectBadCommand);
}

#[test]
fn other_services_are_not_handled() {
    assert_eq!(request_outcome(434, &[0xFF, 0xFF, 0x00]), RequestOutcome::NotHandled);
}

#[test]
fn hub_restart_disables_healthy_channels() {
    let mut comms = CommsState::new();
    let mut hub = PowerController::new();
    hub.enable_all();
    let r = comms.handle_request(&mut hub, 435, &[0xFF, 0xFF, 0x00]);
    assert_eq!(r.outcome, RequestOutcome::Restart);
    assert_eq!(r.pin_writes, [Some(PinLevel::High), None, Some(PinLevel::High), None]);
    assert_eq!(hub.status(PwrChan::CH0), PwrChanState::Disabled);
    assert_eq!(hub.status(PwrChan::CH1), PwrChanState::Fault);
    assert!(comms.did_rx);
}

#[test]
fn hub_other_requests_change_nothing() {
    let mut comms = CommsState::new();
    let mut hub = PowerController::new();
    hub.enable(PwrChan::CH2);
    let r = comms.handle_request(&mut hub, 435, &[0x01, 0x00, 0x00]);
    assert_eq!(r.outcome, RequestOutcome::RejectBadCommand);
    assert_eq!(r.pin_writes, [None, None, None, None]);
    assert_eq!(hub.status(PwrChan::CH2), PwrChanState::Enabled);
    let r = comms.handle_request(&mut hub, 7, &[0xFF, 0xFF, 0x00]);
    assert_eq!(r.outcome, RequestOutcome::NotHandled);
    assert_eq!(hub.status(PwrChan::CH2), PwrChanState::Enabled);
}

#[test]
fn hub_messages_count_as_activity() {
    let mut comms = CommsState::new();
    assert!(comms.handle_message());
    assert!(comms.did_rx);
    assert!(!comms.did_tx);
}

#[test]
fn cpm_hue_update() {
    let mut s = Subsystem::new();
    assert!(s.handle_message(LED_UPDATE_SUBJECT_ID, &[42]));
    assert_eq!(s.hue, 42);
    assert_eq!(s.telemetry(), 42);
    assert!(s.handle_message(LED_UPDATE_SUBJECT_ID, &[7, 9]));
    assert_eq!(s.hue, 7);
    assert!(s.handle_message(3000, &[99]));
    assert_eq!(s.hue, 7);
    assert!(s.handle_message(LED_UPDATE_SUBJECT_ID, &[]));
    assert_eq!(s.hue, 0);
}

#[test]
fn cpm_requests() {
    let s = Subsystem::new();
    assert_eq!(s.handle_request(435, &[0xFF, 0xFF, 0x00]), RequestOutcome::Restart);
    assert_eq!(s.handle_request(435, &[0x00, 0x10, 0x00]), RequestOutcome::RejectBadCommand);
    assert_eq!(s.handle_request(436, &[0xFF, 0xFF]), RequestOutcome::NotHandled);
}

#[test]
fn vesc_subjects_and_startup_order() {
    assert_eq!(vesc_speed_subjects(), [3050, 3060, 3070, 3080]);
    let order = startup_zero_publications();
    assert_eq!(
        order,
        vec![3050, 3060, 3070, 3080, 3050, 3060, 3070, 3080, 3050, 3060, 3070, 3080]
    );
}

#[test]
fn vesc_node_id_validation() {
    assert_eq!(validate_node_id(0), Ok(0));
    assert_eq!(validate_node_id(127), Ok(127));
    assert_eq!(validate_node_id(128), Err(VescConfigError::InvalidNodeId));
    assert_eq!(validate_node_id(255), Err(VescConfigError::InvalidNodeId));
}
