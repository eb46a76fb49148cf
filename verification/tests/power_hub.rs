use owr_power::compute_module::{ExtARGBCtrl, PowerCtrl};
use owr_power::power_hub::{
    ChanCommand, PinLevel, PowerController, PwrChan, PwrChanState, PwrCtrlState,
};

const ALL: [PwrChan; 4] = [PwrChan::CH0, PwrChan::CH1, PwrChan::CH2, PwrChan::CH3];

#[test]
fn new_controller_state() {
    let pc = PowerController::new();
    assert_eq!(pc.controller_state, PwrCtrlState::Active);
    assert_eq!(
        pc.channel_state,
        [PwrChanState::Disabled, PwrChanState::Fault, PwrChanState::Disabled, PwrChanState::Fault]
    );
}

#[test]
fn enable_drives_active_low_pin_and_reads_back() {
    let mut pc = PowerController::new();
    assert_eq!(pc.enable(PwrChan::CH0), Some(PinLevel::Low));
    assert_eq!(pc.status(PwrChan::CH0), PwrChanState::Enabled);
    assert_eq!(pc.disable(PwrChan::CH0), Some(PinLevel::High));
    assert_eq!(pc.status(PwrChan::CH0), PwrChanState::Disabled);
}

#[test]
fn faulted_channel_is_latched() {
    let mut pc = PowerController::new();
    assert_eq!(pc.enable(PwrChan::CH1), None);
    assert_eq!(pc.status(PwrChan::CH1), PwrChanState::Fault);
    assert_eq!(pc.disable(PwrChan::CH3), None);
    assert_eq!(pc.status(PwrChan::CH3), PwrChanState::Fault);
    pc.enable_all();
    pc.disable_all();
    assert_eq!(pc.status(PwrChan::CH1), PwrChanState::Fault);
    assert_eq!(pc.status(PwrChan::CH3), PwrChanState::Fault);
}

#[test]
fn command_touches_only_its_channel() {
    let mut pc = PowerController::new();
    pc.enable(PwrChan::CH2);
    assert_eq!(pc.status(PwrChan::CH0), PwrChanState::Disabled);
    assert_eq!(pc.status(PwrChan::CH2), PwrChanState::Enabled);
}

#[test]
fn repeated_enable_is_idempotent() {
    let mut pc = PowerController::new();
    pc.enable(PwrChan::CH0);
    let before = pc.channel_state;
    assert_eq!(pc.enable(PwrChan::CH0), Some(PinLevel::Low));
    assert_eq!(pc.channel_state, before);
}

#[test]
fn enable_all_and_disable_all() {
    let mut pc = PowerController::new();
    let writes = pc.enable_all();
    assert_eq!(writes, [Some(PinLevel::Low), None, Some(PinLevel::Low), None]);
    assert_eq!(
        pc.channel_state,
        [PwrChanState::Enabled, PwrChanState::Fault, PwrChanState::Enabled, PwrChanState::Fault]
    );
    let writes = pc.disable_all();
    assert_eq!(writes, [Some(PinLevel::High), None, Some(PinLevel::High), None]);
    assert_eq!(
        pc.channel_state,
        [PwrChanState::Disabled, PwrChanState::Fault, PwrChanState::Disabled, PwrChanState::Fault]
    );
}

#[test]
fn enable_all_equals_enabling_each_channel() {
    let mut a = PowerController::new();
    a.channel_state = [PwrChanState::SysInit, PwrChanState::Disabled, PwrChanState::Fault, PwrChanState::Enabled];
    let mut b = PowerController::new();
    b.channel_state = a.channel_state;
    a.enable_all();
    for c in ALL {
        b.enable(c);
    }
    assert_eq!(a.channel_state, b.channel_state);
    assert_eq!(
        a.channel_state,
        [PwrChanState::Enabled, PwrChanState::Enabled, PwrChanState::Fault, PwrChanState::Enabled]
    );
}

#[test]
fn last_command_wins() {
    let mut pc = PowerController::new();
    pc.command(PwrChan::CH2, ChanCommand::Enable);
    pc.command(PwrChan::CH2, ChanCommand::Disable);
    assert_eq!(pc.status(PwrChan::CH2), PwrChanState::Disabled);
}

#[test]
fn hub_tick_readings() {
    let pc = PowerController::new();
    let r = pc.tick([0, 100, 4095, 1], 3000);
    let r2 = pc.tick([u16::MAX, 0, 0, 0], 0);
    assert_eq!(r2.channel_milliamps[0], 799_984);
    assert_eq!(r.channel_milliamps, [0, 1218, 49984, 0]);
    assert_eq!(r.vbus_millivolts, 53906);
}

#[test]
fn channel_indices() {
    assert_eq!(PwrChan::CH0.index(), 0);
    assert_eq!(PwrChan::CH1.index(), 1);
    assert_eq!(PwrChan::CH2.index(), 2);
    assert_eq!(PwrChan::CH3.index(), 3);
}

#[test]
fn compute_module_rails_switching_levels() {
    let mut p = PowerCtrl::new();
    assert!(!p.rail_24v_enabled && !p.rail_19v_enabled && !p.fault());
    assert_eq!(p.enable_24v(), PinLevel::High);
    assert_eq!(p.enable_19v(), PinLevel::High);
    assert!(p.rail_24v_enabled && p.rail_19v_enabled);
    assert_eq!(p.disable_19v(), PinLevel::Low);
    assert!(p.rail_24v_enabled && !p.rail_19v_enabled);
    assert_eq!(p.disable_24v(), PinLevel::Low);
    assert!(!p.rail_24v_enabled);

    let mut e = ExtARGBCtrl::new();
    assert_eq!(e.enable_a(), PinLevel::Low);
    assert_eq!(e.enable_b(), PinLevel::Low);
    assert!(e.rail_a_enabled && e.rail_b_enabled);
    assert_eq!(e.disable_a(), PinLevel::High);
    assert_eq!(e.disable_b(), PinLevel::High);
    assert!(!e.rail_a_enabled && !e.rail_b_enabled);
}

#[test]
fn toggle_flips_healthy_channels_only() {
    let mut pc = PowerController::new();
    assert_eq!(pc.toggle(PwrChan::CH0), Some(PinLevel::Low));
    assert_eq!(pc.status(PwrChan::CH0), PwrChanState::Enabled);
    assert_eq!(pc.toggle(PwrChan::CH0), Some(PinLevel::High));
    assert_eq!(pc.status(PwrChan::CH0), PwrChanState::Disabled);
    assert_eq!(pc.toggle(PwrChan::CH1), None);
    assert_eq!(pc.status(PwrChan::CH1), PwrChanState::Fault);
}

#[test]
fn no_channel_becomes_initialising_from_new() {
    let mut pc = PowerController::new();
    for c in ALL {
        pc.toggle(c);
        pc.enable_all();
        pc.disable(c);
        for s in pc.channel_state {
            assert_ne!(s, PwrChanState::SysInit);
        }
    }
    assert_eq!(pc.status(PwrChan::CH1), PwrChanState::Fault);
    assert_eq!(pc.status(PwrChan::CH3), PwrChanState::Fault);
    assert_eq!(pc.controller_state, PwrCtrlState::Active);
}
