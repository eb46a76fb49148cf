use owr_power::compute_module::{CoreSamples, ExtARGBCtrl, LedSamples, PowerCtrl};
use owr_power::power_hub::PinLevel;
use owr_power::conversions::{
    channel_milliamps, rail_centivolts, sense_milliamps, thermistor_millivolts, thermistor_ohms,
    vbus_millivolts,
};

#[test]
fn hub_channel_current_truncates_at_each_step() {
    assert_eq!(channel_milliamps(0), 0);
    assert_eq!(channel_milliamps(100), 1218);
    assert_eq!(channel_milliamps(4095), 49984);
}

#[test]
fn bus_voltage_behind_divider() {
    assert_eq!(vbus_millivolts(0), 0);
    assert_eq!(vbus_millivolts(3000), 53906);
    assert_eq!(vbus_millivolts(4095), 73582);
}

#[test]
fn rail_voltage_formula() {
    assert_eq!(rail_centivolts(2000, 11), 1718);
    assert_eq!(rail_centivolts(4095, 2), 639);
    assert_eq!(rail_centivolts(4095, 0), 0);
}

#[test]
fn shunt_current_formula() {
    assert_eq!(sense_milliamps(1000, 100, 16), 488);
    assert_eq!(sense_milliamps(1000, 20, 8), 4882);
    assert_eq!(sense_milliamps(1000, 50, 8), 1953);
    assert_eq!(sense_milliamps(1342, 50, 8), 2621);
    assert_eq!(sense_milliamps(2048, 100, 16), 1000);
    assert_eq!(sense_milliamps(1024, 20, 8), 5000);
    assert_eq!(sense_milliamps(4095, 50, 8), 7998);
    assert_eq!(sense_milliamps(u16::MAX, 1, 1), 51_199_218);
}

#[test]
fn thermistor_divider() {
    assert_eq!(thermistor_millivolts(2048), 1600);
    assert_eq!(thermistor_ohms(2048), 2200);
    assert_eq!(thermistor_ohms(0), 0);
    assert_eq!(thermistor_ohms(4095), 7_037_800);
}

#[test]
fn conversions_are_monotonic_on_examples() {
    let samples = [0u16, 1, 17, 100, 511, 1000, 1342, 2048, 4095];
    for w in samples.windows(2) {
        let (a, b) = (w[0], w[1]);
        assert!(channel_milliamps(a) <= channel_milliamps(b));
        assert!(vbus_millivolts(a) <= vbus_millivolts(b));
        assert!(rail_centivolts(a, 11) <= rail_centivolts(b, 11));
        assert!(sense_milliamps(a, 100, 16) <= sense_milliamps(b, 100, 16));
        assert!(thermistor_ohms(a) <= thermistor_ohms(b));
    }
}

#[test]
fn core_rail_tick() {
    let mut ctrl = PowerCtrl::new();
    let t = ctrl.tick(CoreSamples {
        v24v: 2000,
        v19v: 4095,
        i24v: 1000,
        i19v: 1000,
        t24v: 2048,
        t19v: 0,
        t5v: 4095,
    });
    let r = t.readings;
    assert_eq!(r.v24v_centivolts, 1718);
    assert_eq!(r.v19v_centivolts, 3519);
    assert_eq!(r.i24v_milliamps, 488);
    assert_eq!(r.i19v_milliamps, 4882);
    assert_eq!(r.t24v_thermistor_ohms, 2200);
    assert_eq!(r.t19v_thermistor_ohms, 0);
    assert_eq!(r.t5v_thermistor_ohms, 7_037_800);
    assert_eq!((t.en24v, t.en19v), (None, None));
}

#[test]
fn core_rail_tick_at_rated_currents() {
    let mut ctrl = PowerCtrl::new();
    ctrl.enable_24v();
    ctrl.enable_19v();
    let t = ctrl.tick(CoreSamples { v24v: 2816, v19v: 2240, i24v: 2048, i19v: 1024, t24v: 100, t19v: 200, t5v: 300 });
    assert_eq!(t.readings.v24v_centivolts, 2420);
    assert_eq!(t.readings.v19v_centivolts, 1925);
    assert_eq!(t.readings.i24v_milliamps, 1000);
    assert_eq!(t.readings.i19v_milliamps, 5000);
    assert_eq!((t.en24v, t.en19v), (None, None));
    assert!(ctrl.rail_24v_enabled && ctrl.rail_19v_enabled && !ctrl.fault());
}

#[test]
fn over_current_trips_the_rail() {
    let mut ctrl = PowerCtrl::new();
    ctrl.enable_24v();
    ctrl.enable_19v();
    let t = ctrl.tick(CoreSamples { v24v: 2816, v19v: 2240, i24v: 2050, i19v: 4095, t24v: 100, t19v: 200, t5v: 300 });
    assert_eq!(t.readings.i24v_milliamps, 1000);
    assert_eq!(t.readings.i19v_milliamps, 19995);
    assert_eq!(t.en24v, None);
    assert_eq!(t.en19v, Some(PinLevel::Low));
    assert!(ctrl.rail_24v_enabled && !ctrl.rail_19v_enabled);
    assert!(ctrl.rail_19v_tripped && !ctrl.rail_24v_tripped && ctrl.fault());
    let t = ctrl.tick(CoreSamples { v24v: 0, v19v: 0, i24v: 2100, i19v: 4095, t24v: 0, t19v: 0, t5v: 0 });
    assert_eq!(t.readings.i24v_milliamps, 1025);
    assert_eq!(t.en24v, Some(PinLevel::Low));
    assert_eq!(t.en19v, None);
    assert!(!ctrl.rail_24v_enabled && ctrl.rail_24v_tripped);
}

#[test]
fn disabled_rail_is_not_tripped() {
    let mut ctrl = PowerCtrl::new();
    let t = ctrl.tick(CoreSamples { v24v: 0, v19v: 0, i24v: 4095, i19v: 4095, t24v: 0, t19v: 0, t5v: 0 });
    assert_eq!((t.en24v, t.en19v), (None, None));
    assert!(!ctrl.fault());
}

#[test]
fn led_rail_tick() {
    let mut ctrl = ExtARGBCtrl::new();
    let t = ctrl.tick(LedSamples { v5v: 4095, ia: 1000, ib: 0, t12v: 2048 });
    let r = t.readings;
    assert_eq!(r.v5v_centivolts, 639);
    assert_eq!(r.ia_milliamps, 1953);
    assert_eq!(r.ib_milliamps, 0);
    assert_eq!(r.t12v_thermistor_ohms, 2200);
    assert_eq!(ExtARGBCtrl::sample_to_milliamps(1000), 1953);
    assert_eq!(ExtARGBCtrl::sample_to_milliamps(2048), 4000);
    assert_eq!(ExtARGBCtrl::sample_to_milliamps(4095), 7998);
}

#[test]
fn led_rail_over_current_trips_active_low_pin() {
    let mut ctrl = ExtARGBCtrl::new();
    ctrl.enable_a();
    ctrl.enable_b();
    let t = ctrl.tick(LedSamples { v5v: 0, ia: 2048, ib: 2049, t12v: 0 });
    assert_eq!(t.readings.ia_milliamps, 4000);
    assert_eq!(t.readings.ib_milliamps, 4001);
    assert_eq!(t.nen_a, None);
    assert_eq!(t.nen_b, Some(PinLevel::High));
    assert!(ctrl.rail_a_enabled && !ctrl.rail_b_enabled && ctrl.rail_b_tripped && ctrl.fault());
}
