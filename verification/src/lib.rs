//! Verified control logic for the rover's power-distribution boards and drive-base ESC bridge:
//! the main power hub's channel state machine, the compute power module's rail switching, the
//! ADC conversion arithmetic both boards use for telemetry, the status-LED colour selection,
//! rail voltage statistics, the Cyphal request handling that sits on top of them, and the ESC
//! bridge's start-up decisions.

pub mod conversions;
pub mod power_hub;
pub mod compute_module;
pub mod rail_stats;
pub mod status_leds;
pub mod cyphal;
pub mod vesc;
