//! Handling of Cyphal transfers received by the power boards.
//!
//! Both boards answer `uavcan.node.ExecuteCommand`: a restart command makes the main power hub
//! switch off every channel it may switch before the board resets, and any other command is
//! refused as unknown. The compute power module also listens for an LED hue update.
use vstd::prelude::*;
use canadensis::encoding::Deserialize;
use canadensis_data_types::uavcan::node::execute_command_1_3::ExecuteCommandRequest;
use canadensis_data_types::uavcan::primitive::scalar::natural8_1_0::Natural8;
use crate::power_hub::{
    after_command, all_channels, apply_commands, command_write, ChanCommand, PinLevel,
    PowerController, PwrChanState,
};

verus! {

/// Fixed service ID of `uavcan.node.ExecuteCommand`.
pub const EXECUTE_COMMAND_SERVICE_ID: u16 = 435;

/// `uavcan.node.ExecuteCommand` command that reboots the node.
pub const COMMAND_RESTART: u16 = 65535;

/// `uavcan.node.ExecuteCommand` response status for an unknown or unsupported command.
pub const STATUS_BAD_COMMAND: u8 = 3;

/// Subject on which the compute power module publishes its LED telemetry.
pub const LED_TELEM_SUBJECT_ID: u16 = 3000;

/// Subject on which the compute power module receives LED hue updates.
pub const LED_UPDATE_SUBJECT_ID: u16 = 3001;

/// Byte `i` of a payload, or zero past its end (Cyphal's implicit zero extension).
pub open spec fn byte_or_zero(bytes: Seq<u8>, i: int) -> int {
    if 0 <= i < bytes.len() {
        bytes[i] as int
    } else {
        0
    }
}

/// The `command` field of a serialized `uavcan.node.ExecuteCommand` request: its first two bytes,
/// least significant first, zero-extended.
pub open spec fn execute_command_of(payload: Seq<u8>) -> u16 {
    (byte_or_zero(payload, 0) + 256 * byte_or_zero(payload, 1)) as u16
}

/// The value of a serialized `uavcan.primitive.scalar.Natural8`: its first byte, zero-extended.
pub open spec fn natural8_of(payload: Seq<u8>) -> u8 {
    byte_or_zero(payload, 0) as u8
}

/// Decodes the command of an `ExecuteCommand` request by calling canadensis_data_types's
/// `ExecuteCommandRequest::deserialize_from_bytes` (canadensis's `encoding::Deserialize`).
/// Claimed: it never fails, and the command is the first two payload bytes read little-endian,
/// with bytes past the end read as zero (the generated decoder reads a `u16` and then a `u8`
/// length that is always within the parameter's capacity of 255).
#[verifier::external_body]
fn decode_execute_command(payload: &[u8]) -> (command: Option<u16>)
    ensures
        command == Some(execute_command_of(payload@)),
{
    match ExecuteCommandRequest::deserialize_from_bytes(payload) {
        Ok(request) => Some(request.command),
        Err(_) => None,
    }
}

/// Decodes a `Natural8` message by calling canadensis_data_types's
/// `Natural8::deserialize_from_bytes`. Claimed: it never fails and the value is the first
/// payload byte, or zero for an empty payload (the decoder copies at most one byte into a
/// zeroed value).
#[verifier::external_body]
fn decode_natural8(payload: &[u8]) -> (value: Option<u8>)
    ensures
        value == Some(natural8_of(payload@)),
{
    match Natural8::deserialize_from_bytes(payload) {
        Ok(message) => Some(message.value),
        Err(_) => None,
    }
}

/// What a board does with a service request.
#[derive(Clone, Copy, PartialEq, Eq, Structural, Debug)]
pub enum RequestOutcome {
    /// The request is not for a service the board serves; the handler reports it as unhandled.
    NotHandled,
    /// Restart the board now.
    Restart,
    /// Answer with `STATUS_BAD_COMMAND` and an empty output.
    RejectBadCommand,
}

/// Outcome of a request to a board, from its service ID and decoded command.
pub open spec fn request_outcome_spec(service_id: u16, command: u16) -> RequestOutcome {
    if service_id != EXECUTE_COMMAND_SERVICE_ID {
        RequestOutcome::NotHandled
    } else if command == COMMAND_RESTART {
        RequestOutcome::Restart
    } else {
        RequestOutcome::RejectBadCommand
    }
}

/// Decides what to do with a service request from its service ID and payload.
pub fn request_outcome(service_id: u16, payload: &[u8]) -> (outcome: RequestOutcome)
    ensures
        outcome == request_outcome_spec(service_id, execute_command_of(payload@)),
{
    if service_id != EXECUTE_COMMAND_SERVICE_ID {
        return RequestOutcome::NotHandled;
    }
    match decode_execute_command(payload) {
        Some(command) => {
            if command == COMMAND_RESTART {
                RequestOutcome::Restart
            } else {
                RequestOutcome::RejectBadCommand
            }
        },
        None => RequestOutcome::RejectBadCommand,
    }
}

/// CAN activity of the main power hub since the last LED refresh.
pub struct CommsState {
    pub did_tx: bool,
    pub did_rx: bool,
}

/// What the main power hub does with a request, and the enable-pin levels to drive first.
pub struct HubRequestResult {
    pub outcome: RequestOutcome,
    /// Per channel, the level to drive before restarting, or `None` to leave the pin alone.
    pub pin_writes: [Option<PinLevel>; 4],
}

impl CommsState {
    pub fn new() -> (s: Self)
        ensures
            !s.did_tx,
            !s.did_rx,
    {
        CommsState { did_tx: false, did_rx: false }
    }

    /// Handles a message received by the main power hub: it only counts as activity. Always
    /// reports the message as handled.
    pub fn handle_message(&mut self) -> (handled: bool)
        ensures
            handled,
            final(self).did_rx,
            final(self).did_tx == old(self).did_tx,
    {
        self.did_rx = true;
        true
    }

    /// Handles a service request received by the main power hub. A restart command disables
    /// every channel that is not faulted before the board resets; any other command is
    /// refused; a request for another service is not handled. Every request counts as activity.
    pub fn handle_request(
        &mut self,
        hub: &mut PowerController,
        service_id: u16,
        payload: &[u8],
    ) -> (r: HubRequestResult)
        ensures
            final(self).did_rx,
            final(self).did_tx == old(self).did_tx,
            r.outcome == request_outcome_spec(service_id, execute_command_of(payload@)),
            final(hub).controller_state == old(hub).controller_state,
            r.outcome == RequestOutcome::Restart ==> {
                &&& final(hub).states() == apply_commands(old(hub).states(), all_channels(ChanCommand::Disable))
                &&& forall|i: int| 0 <= i < 4 ==> {
                    &&& #[trigger] final(hub).states()[i] == after_command(old(hub).states()[i], ChanCommand::Disable)
                    &&& r.pin_writes@[i] == command_write(old(hub).states()[i], ChanCommand::Disable)
                }
            },
            r.outcome != RequestOutcome::Restart ==> {
                &&& final(hub).states() == old(hub).states()
                &&& forall|i: int| 0 <= i < 4 ==> #[trigger] r.pin_writes@[i] is None
            },
    {
        self.did_rx = true;
        let outcome = request_outcome(service_id, payload);
        match outcome {
            RequestOutcome::Restart => {
                let pin_writes = hub.disable_all();
                HubRequestResult { outcome, pin_writes }
            },
            _ => HubRequestResult { outcome, pin_writes: [None, None, None, None] },
        }
    }
}

/// A restart request leaves no channel of the main power hub enabled: each ends disabled or,
/// if it was faulted, faulted.
pub proof fn lemma_restart_leaves_no_channel_enabled(states: Seq<PwrChanState>, i: int)
    requires
        states.len() == 4,
        0 <= i < 4,
    ensures
        apply_commands(states, all_channels(ChanCommand::Disable))[i] == PwrChanState::Disabled
            || apply_commands(states, all_channels(ChanCommand::Disable))[i] == PwrChanState::Fault,
{
    crate::power_hub::lemma_command_all_outcome(states, ChanCommand::Disable, i);
}

/// State of the compute power module's LED subsystem that Cyphal transfers act on.
pub struct Subsystem {
    pub hue: u8,
}

impl Subsystem {
    pub fn new() -> (s: Self)
        ensures
            s.hue == 0,
    {
        Subsystem { hue: 0 }
    }

    /// Handles a message received by the compute power module: an LED update sets the hue,
    /// any other subject is ignored. Always reports the message as handled.
    pub fn handle_message(&mut self, subject_id: u16, payload: &[u8]) -> (handled: bool)
        ensures
            handled,
            subject_id == LED_UPDATE_SUBJECT_ID ==> final(self).hue == natural8_of(payload@),
            subject_id != LED_UPDATE_SUBJECT_ID ==> final(self).hue == old(self).hue,
    {
        if subject_id == LED_UPDATE_SUBJECT_ID {
            match decode_natural8(payload) {
                Some(value) => {
                    self.hue = value;
                },
                None => {},
            }
        }
        true
    }

    /// Handles a service request received by the compute power module.
    pub fn handle_request(&self, service_id: u16, payload: &[u8]) -> (outcome: RequestOutcome)
        ensures
            outcome == request_outcome_spec(service_id, execute_command_of(payload@)),
    {
        request_outcome(service_id, payload)
    }

    /// The value the compute power module publishes as its LED telemetry.
    pub fn telemetry(&self) -> (value: u8)
        ensures
            value == self.hue,
    {
        self.hue
    }
}

/// How a board answers a service request, from its service ID and command: a request for any
/// service other than `uavcan.node.ExecuteCommand` (ID 435) is not handled; for that service,
/// the board restarts exactly when the command is `COMMAND_RESTART` (65535) and refuses every
/// other command as unknown.
pub proof fn lemma_request_outcome_law(service_id: u16, command: u16)
    ensures
        service_id != 435 ==> request_outcome_spec(service_id, command) == RequestOutcome::NotHandled,
        service_id == 435 ==> ((request_outcome_spec(service_id, command) == RequestOutcome::Restart)
            <==> command == 65535),
        service_id == 435 && command != 65535 ==> request_outcome_spec(service_id, command)
            == RequestOutcome::RejectBadCommand,
{
}

/// How the payload bytes decode: an `ExecuteCommand` request's command is its first two bytes,
/// least significant first, a missing byte reading as zero; a `Natural8` is its first byte, or
/// zero for an empty payload.
pub proof fn lemma_payload_decoding_law(payload: Seq<u8>)
    ensures
        payload.len() >= 2 ==> execute_command_of(payload) == payload[0] + 256 * payload[1],
        payload.len() == 1 ==> execute_command_of(payload) == payload[0],
        payload.len() == 0 ==> execute_command_of(payload) == 0,
        payload.len() >= 1 ==> natural8_of(payload) == payload[0],
        payload.len() == 0 ==> natural8_of(payload) == 0,
{
}

} // verus!
