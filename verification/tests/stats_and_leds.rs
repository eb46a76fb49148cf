use owr_power::cyphal::CommsState;
use owr_power::power_hub::{PowerController, PwrChan, PwrChanState, PwrCtrlState};
use owr_power::rail_stats::{split_centivolts, RailStats};
use owr_power::status_leds::{
    activity_colour, led_frame, module_status_colour, state_to_colour, state_to_colour_blinking,
    status_colour, Colour,
};

#[test]
fn stats_track_min_max_and_average() {
    let mut s = RailStats::new(2400);
    assert_eq!((s.min(), s.max(), s.average(), s.num_samples()), (2400, 2400, 2400, 1));
    s.record(2410);
    s.record(2390);
    assert_eq!(s.min(), 2390);
    assert_eq!(s.max(), 2410);
    assert_eq!(s.sum(), 7200);
    assert_eq!(s.num_samples(), 3);
    assert_eq!(s.average(), 2400);
}

#[test]
fn stats_average_rounds_down_and_stays_within_extrema() {
    let mut s = RailStats::new(1);
    s.record(2);
    assert_eq!(s.average(), 1);
    s.record(u32::MAX);
    assert!(s.min() <= s.average() as u64 && s.average() as u64 <= s.max());
    assert_eq!(s.max(), u32::MAX as u64);
}

#[test]
fn stats_refuse_overflowing_sum() {
    let s = RailStats::new(5);
    assert!(s.can_record(u32::MAX));
}

#[test]
fn centivolt_display_split() {
    assert_eq!(split_centivolts(2407), (24, 7));
    assert_eq!(split_centivolts(99), (0, 99));
    assert_eq!(split_centivolts(0), (0, 0));
}

#[test]
fn channel_led_colours() {
    assert_eq!(state_to_colour_blinking(PwrChanState::Enabled), (Colour { r: 0, g: 255, b: 0 }, false));
    assert_eq!(state_to_colour_blinking(PwrChanState::Disabled), (Colour { r: 96, g: 48, b: 0 }, false));
    assert_eq!(state_to_colour_blinking(PwrChanState::Fault), (Colour { r: 255, g: 0, b: 0 }, true));
    assert_eq!(state_to_colour_blinking(PwrChanState::SysInit), (Colour::amber(), false));
}

#[test]
fn only_faults_flash() {
    for s in [PwrChanState::Enabled, PwrChanState::Disabled, PwrChanState::SysInit] {
        assert_eq!(state_to_colour(s, true), state_to_colour(s, false));
    }
    assert_eq!(state_to_colour(PwrChanState::Fault, false), Colour::red());
    assert_eq!(state_to_colour(PwrChanState::Fault, true), Colour::blank());
}

#[test]
fn hub_status_colours() {
    assert_eq!(status_colour(PwrCtrlState::Active), Colour::green());
    assert_eq!(status_colour(PwrCtrlState::SysInit), Colour::amber());
    assert_eq!(status_colour(PwrCtrlState::EStopped), Colour::dim_yellow());
    assert_eq!(status_colour(PwrCtrlState::Error), Colour::red());
}

#[test]
fn can_activity_colours() {
    assert_eq!(activity_colour(false, false), Colour { r: 0, g: 0, b: 0 });
    assert_eq!(activity_colour(true, false), Colour { r: 0, g: 255, b: 0 });
    assert_eq!(activity_colour(false, true), Colour { r: 0, g: 0, b: 255 });
    assert_eq!(activity_colour(true, true), Colour { r: 0, g: 255, b: 255 });
}

#[test]
fn led_frame_order_and_flag_reset() {
    let mut hub = PowerController::new();
    hub.enable(PwrChan::CH0);
    let mut comms = CommsState::new();
    comms.did_tx = true;
    let frame = led_frame(&hub, &mut comms, false);
    assert_eq!(
        frame,
        [
            Colour::green(),
            Colour::dim_yellow(),
            Colour::green(),
            Colour::blue(),
            Colour::red(),
            Colour::red(),
        ]
    );
    assert!(!comms.did_rx && !comms.did_tx);
    let frame = led_frame(&hub, &mut comms, true);
    assert_eq!(frame[3], Colour::blank());
    assert_eq!(frame[4], Colour::blank());
    assert_eq!(frame[5], Colour::blank());
    assert_eq!(frame[0], Colour::green());
}

#[test]
fn compute_module_status_light() {
    assert_eq!(module_status_colour(true, false, false), Colour::amber());
    assert_eq!(module_status_colour(false, false, true), Colour::green());
    assert_eq!(module_status_colour(false, true, false), Colour::red());
    assert_eq!(module_status_colour(false, true, true), Colour::blank());
    assert_eq!(module_status_colour(true, true, false), Colour::red());
}
