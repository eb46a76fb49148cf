//! Colours of the main power hub's six status LEDs.
//!
//! Each channel LED shows its channel's state (green enabled, dim yellow disabled, amber while
//! initialising, red flashing on a fault); the upper connector LED shows the hub's state and
//! the lower one shows CAN activity since the previous refresh (green for reception, blue for
//! transmission).
use vstd::prelude::*;
use crate::power_hub::{PowerController, PwrChanState, PwrCtrlState};
use crate::cyphal::CommsState;

verus! {

/// An RGB colour for the addressable LEDs.
#[derive(Clone, Copy, PartialEq, Eq, Structural, Debug)]
pub struct Colour {
    pub r: u8,
    pub g: u8,
    pub b: u8,
}

pub open spec fn rgb(r: u8, g: u8, b: u8) -> Colour {
    Colour { r, g, b }
}

/// Brightness the hub's LED driver is set up with.
pub const DEFAULT_BRIGHTNESS: u8 = 15;

impl Colour {
    pub fn red() -> (c: Colour)
        ensures
            c == rgb(255, 0, 0),
    {
        Colour { r: 255, g: 0, b: 0 }
    }

    pub fn dim_yellow() -> (c: Colour)
        ensures
            c == rgb(96, 48, 0),
    {
        Colour { r: 96, g: 48, b: 0 }
    }

    pub fn green() -> (c: Colour)
        ensures
            c == rgb(0, 255, 0),
    {
        Colour { r: 0, g: 255, b: 0 }
    }

    pub fn blue() -> (c: Colour)
        ensures
            c == rgb(0, 0, 255),
    {
        Colour { r: 0, g: 0, b: 255 }
    }

    pub fn blank() -> (c: Colour)
        ensures
            c == rgb(0, 0, 0),
    {
        Colour { r: 0, g: 0, b: 0 }
    }

    /// The amber that every board shows while it initialises. The boards' shared LED driver
    /// names this colour; this crate fixes it as (255, 191, 0), the usual RGB amber.
    pub fn amber() -> (c: Colour)
        ensures
            c == rgb(255, 191, 0),
    {
        Colour { r: 255, g: 191, b: 0 }
    }
}

/// Colour of a channel LED, and whether it flashes.
pub open spec fn channel_colour_spec(state: PwrChanState) -> (Colour, bool) {
    match state {
        PwrChanState::Enabled => (rgb(0, 255, 0), false),
        PwrChanState::Disabled => (rgb(96, 48, 0), false),
        PwrChanState::SysInit => (rgb(255, 191, 0), false),
        PwrChanState::Fault => (rgb(255, 0, 0), true),
    }
}

/// What a channel LED shows in the current blink phase: a flashing colour is dark while the
/// phase is on.
pub open spec fn shown_colour_spec(state: PwrChanState, blink_phase: bool) -> Colour {
    let (c, blinking) = channel_colour_spec(state);
    if blink_phase && blinking {
        rgb(0, 0, 0)
    } else {
        c
    }
}

/// Colour of the upper connector LED for the hub's state.
pub open spec fn status_colour_spec(state: PwrCtrlState) -> Colour {
    match state {
        PwrCtrlState::Active => rgb(0, 255, 0),
        PwrCtrlState::SysInit => rgb(255, 191, 0),
        PwrCtrlState::EStopped => rgb(96, 48, 0),
        PwrCtrlState::Error => rgb(255, 0, 0),
    }
}

/// Colour of the lower connector LED: green while something was received, blue while something
/// was sent.
pub open spec fn activity_colour_spec(did_rx: bool, did_tx: bool) -> Colour {
    rgb(0, if did_rx { 255 } else { 0 }, if did_tx { 255 } else { 0 })
}

/// The colour of a channel LED for a channel state, and whether it flashes.
pub fn state_to_colour_blinking(state: PwrChanState) -> (cb: (Colour, bool))
    ensures
        cb == channel_colour_spec(state),
{
    match state {
        PwrChanState::Enabled => (Colour::green(), false),
        PwrChanState::Disabled => (Colour::dim_yellow(), false),
        PwrChanState::SysInit => (Colour::amber(), false),
        PwrChanState::Fault => (Colour::red(), true),
    }
}

/// The colour a channel LED shows in the given blink phase.
pub fn state_to_colour(state: PwrChanState, blink_phase: bool) -> (c: Colour)
    ensures
        c == shown_colour_spec(state, blink_phase),
{
    let (col, blinking) = state_to_colour_blinking(state);
    if blink_phase && blinking {
        Colour::blank()
    } else {
        col
    }
}

/// The colour of the upper connector LED for the hub's state.
pub fn status_colour(state: PwrCtrlState) -> (c: Colour)
    ensures
        c == status_colour_spec(state),
{
    match state {
        PwrCtrlState::Active => Colour::green(),
        PwrCtrlState::SysInit => Colour::amber(),
        PwrCtrlState::EStopped => Colour::dim_yellow(),
        PwrCtrlState::Error => Colour::red(),
    }
}

/// The colour of the lower connector LED for the CAN activity seen since the last refresh.
pub fn activity_colour(did_rx: bool, did_tx: bool) -> (c: Colour)
    ensures
        c == activity_colour_spec(did_rx, did_tx),
{
    Colour { r: 0, g: if did_rx { 255 } else { 0 }, b: if did_tx { 255 } else { 0 } }
}

/// Computes the next frame for the hub's six LEDs, in their physical order: CH0, CH2, upper
/// connector (hub state), lower connector (CAN activity), CH3, CH1. The activity flags are
/// consumed: they are clear afterwards.
pub fn led_frame(hub: &PowerController, comms: &mut CommsState, blink_phase: bool) -> (frame: [Colour; 6])
    ensures
        frame@ == seq![
            shown_colour_spec(hub.states()[0], blink_phase),
            shown_colour_spec(hub.states()[2], blink_phase),
            status_colour_spec(hub.controller_state),
            activity_colour_spec(old(comms).did_rx, old(comms).did_tx),
            shown_colour_spec(hub.states()[3], blink_phase),
            shown_colour_spec(hub.states()[1], blink_phase),
        ],
        !final(comms).did_rx,
        !final(comms).did_tx,
{
    let ch0_col = state_to_colour(hub.channel_state[0], blink_phase);
    let ch1_col = state_to_colour(hub.channel_state[1], blink_phase);
    let ch2_col = state_to_colour(hub.channel_state[2], blink_phase);
    let ch3_col = state_to_colour(hub.channel_state[3], blink_phase);
    let can_col = activity_colour(comms.did_rx, comms.did_tx);
    comms.did_rx = false;
    comms.did_tx = false;
    let status_col = status_colour(hub.controller_state);
    let frame = [ch0_col, ch2_col, status_col, can_col, ch3_col, ch1_col];
    assert(frame@ =~= seq![ch0_col, ch2_col, status_col, can_col, ch3_col, ch1_col]);
    frame
}

/// Only a faulted channel flashes: in either blink phase, any other channel LED shows the same
/// steady colour, and a faulted one alternates between red and dark.
pub proof fn lemma_only_faults_flash(state: PwrChanState)
    ensures
        state != PwrChanState::Fault ==> shown_colour_spec(state, true) == shown_colour_spec(state, false),
        state == PwrChanState::Fault ==> shown_colour_spec(state, false) == rgb(255, 0, 0)
            && shown_colour_spec(state, true) == rgb(0, 0, 0),
{
}

/// A channel LED shows its channel's state: green while enabled, dim yellow while disabled,
/// amber while initialising (all steady), and flashing red once faulted.
pub proof fn lemma_channel_led_shows_state(state: PwrChanState, blink_phase: bool)
    ensures
        state == PwrChanState::Enabled ==> shown_colour_spec(state, blink_phase) == (Colour { r: 0, g: 255, b: 0 }),
        state == PwrChanState::Disabled ==> shown_colour_spec(state, blink_phase) == (Colour { r: 96, g: 48, b: 0 }),
        state == PwrChanState::SysInit ==> shown_colour_spec(state, blink_phase) == (Colour { r: 255, g: 191, b: 0 }),
        state == PwrChanState::Fault ==> shown_colour_spec(state, blink_phase) == (if blink_phase {
            Colour { r: 0, g: 0, b: 0 }
        } else {
            Colour { r: 255, g: 0, b: 0 }
        }),
{
}

/// Colour of the compute power module's status light: flashing red (dark while the blink
/// phase is on) once any rail has been tripped, otherwise amber while initialising and green
/// once running.
pub open spec fn module_status_colour_spec(initialising: bool, fault: bool, blink_phase: bool) -> Colour {
    if fault {
        if blink_phase {
            rgb(0, 0, 0)
        } else {
            rgb(255, 0, 0)
        }
    } else if initialising {
        rgb(255, 191, 0)
    } else {
        rgb(0, 255, 0)
    }
}

/// The colour of the compute power module's status light.
pub fn module_status_colour(initialising: bool, fault: bool, blink_phase: bool) -> (c: Colour)
    ensures
        c == module_status_colour_spec(initialising, fault, blink_phase),
{
    if fault {
        if blink_phase {
            Colour::blank()
        } else {
            Colour::red()
        }
    } else if initialising {
        Colour::amber()
    } else {
        Colour::green()
    }
}

/// The compute module's status light: green whenever it is running without a trip, in both
/// blink phases; amber exactly while it initialises without a trip; after a trip, red in one
/// blink phase and dark in the other.
pub proof fn lemma_module_status_law(initialising: bool, fault: bool, blink_phase: bool)
    ensures
        !fault && !initialising ==> module_status_colour_spec(initialising, fault, blink_phase)
            == (Colour { r: 0, g: 255, b: 0 }),
        (module_status_colour_spec(initialising, fault, blink_phase) == (Colour { r: 255, g: 191, b: 0 }))
            <==> (initialising && !fault),
        fault && !blink_phase ==> module_status_colour_spec(initialising, fault, blink_phase)
            == (Colour { r: 255, g: 0, b: 0 }),
        fault && blink_phase ==> module_status_colour_spec(initialising, fault, blink_phase)
            == (Colour { r: 0, g: 0, b: 0 }),
{
}

/// The hub's upper connector LED: green while active, amber while initialising, dim yellow
/// while E-stopped, red on error; the lower one has green exactly when something was received
/// and blue exactly when something was sent, and no red.
pub proof fn lemma_connector_leds_law(state: PwrCtrlState, did_rx: bool, did_tx: bool)
    ensures
        state == PwrCtrlState::Active ==> status_colour_spec(state) == (Colour { r: 0, g: 255, b: 0 }),
        state == PwrCtrlState::SysInit ==> status_colour_spec(state) == (Colour { r: 255, g: 191, b: 0 }),
        state == PwrCtrlState::EStopped ==> status_colour_spec(state) == (Colour { r: 96, g: 48, b: 0 }),
        state == PwrCtrlState::Error ==> status_colour_spec(state) == (Colour { r: 255, g: 0, b: 0 }),
        activity_colour_spec(did_rx, did_tx).r == 0,
        (activity_colour_spec(did_rx, did_tx).g == 255) <==> did_rx,
        (activity_colour_spec(did_rx, did_tx).g == 0) <==> !did_rx,
        (activity_colour_spec(did_rx, did_tx).b == 255) <==> did_tx,
        (activity_colour_spec(did_rx, did_tx).b == 0) <==> !did_tx,
{
}

} // verus!
