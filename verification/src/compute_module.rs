//! Rail control, telemetry and over-current protection of the compute power module (CPM).
//!
//! The CPM switches a +24 V rail (radio, PoE) and a +19 V rail (on-board computer) through
//! active-high enable pins, and two +5 V LED rails (A and B) through active-low enable pins.
//! Each tick turns the raw ADC samples of the rails into voltages, currents and thermistor
//! resistances, and trips any enabled rail whose current exceeds the rail's rated maximum:
//! the rail is switched off and its trip is remembered, so that the status light can show the
//! fault. Turning a resistance into a temperature is floating-point work done by the caller.
use vstd::prelude::*;
use crate::conversions::{
    rail_centivolts, rail_centivolts_spec, sense_milliamps, sense_milliamps_spec, thermistor_ohms,
    thermistor_ohms_spec, lemma_conversions_monotonic, lemma_rail_centivolts_law,
    lemma_sense_milliamps_law, lemma_thermistor_divider_law, thermistor_millivolts_spec,
};
use crate::power_hub::PinLevel;

verus! {

/// Denominator of the +24 V rail's 10k/100k voltage divider.
pub const V24V_DIVIDER_DENOM: u32 = 11;
/// Denominator of the +19 V rail's 10k/100k voltage divider.
pub const V19V_DIVIDER_DENOM: u32 = 11;
/// Denominator of the +5 V rail's 10k/10k voltage divider.
pub const V5V_DIVIDER_DENOM: u32 = 2;

/// Shunt of the +24 V rail, in milliohms.
pub const SENSE_24V_RESISTOR_MILLIOHM: u32 = 100;
/// Gain of the +24 V rail's current amplifier.
pub const OPAMP_24V_GAIN: u32 = 16;
/// Shunt of the +19 V rail, in milliohms.
pub const SENSE_19V_RESISTOR_MILLIOHM: u32 = 20;
/// Gain of the +19 V rail's current amplifier.
pub const OPAMP_19V_GAIN: u32 = 8;
/// Shunt of each +5 V LED rail, in milliohms.
pub const SENSE_5V_RESISTOR_MILLIOHM: u32 = 50;
/// Gain of each +5 V LED rail's current amplifier.
pub const OPAMP_5V_GAIN: u32 = 8;

/// Rated maximum current of the +24 V rail (the radio draws at most 1 A), in milliamps.
pub const I24V_LIMIT_MILLIAMPS: u32 = 1_000;
/// Rated maximum current of the +19 V rail (the on-board computer draws at most 10 A).
pub const I19V_LIMIT_MILLIAMPS: u32 = 10_000;
/// Rated maximum current of each +5 V LED rail (4 A per pair of LED channels).
pub const I5V_LIMIT_MILLIAMPS: u32 = 4_000;

/// Raw ADC samples of one CPM core-rail tick.
#[derive(Clone, Copy, Debug)]
pub struct CoreSamples {
    pub v24v: u16,
    pub v19v: u16,
    pub i24v: u16,
    pub i19v: u16,
    pub t24v: u16,
    pub t19v: u16,
    pub t5v: u16,
}

/// Integer telemetry of the CPM's +24 V and +19 V rails and the +5 V regulator thermistor.
#[derive(Clone, Copy, Debug)]
pub struct CoreReadings {
    pub v24v_centivolts: u32,
    pub i24v_milliamps: u32,
    pub t24v_thermistor_ohms: u32,
    pub v19v_centivolts: u32,
    pub i19v_milliamps: u32,
    pub t19v_thermistor_ohms: u32,
    pub t5v_thermistor_ohms: u32,
}

/// Raw ADC samples of one LED-rail tick.
#[derive(Clone, Copy, Debug)]
pub struct LedSamples {
    pub v5v: u16,
    pub ia: u16,
    pub ib: u16,
    pub t12v: u16,
}

/// Integer telemetry of the +5 V LED rails and the +12 V regulator thermistor.
#[derive(Clone, Copy, Debug)]
pub struct LedRailReadings {
    pub v5v_centivolts: u32,
    pub ia_milliamps: u32,
    pub ib_milliamps: u32,
    pub t12v_thermistor_ohms: u32,
}

/// Result of a core-rail tick: the telemetry, and the level to drive on each rail's enable pin
/// when the tick tripped that rail (`None` leaves the pin alone).
#[derive(Clone, Copy, Debug)]
pub struct CoreTick {
    pub readings: CoreReadings,
    pub en24v: Option<PinLevel>,
    pub en19v: Option<PinLevel>,
}

/// Result of an LED-rail tick: the telemetry, and the level to drive on each rail's
/// (active-low) enable pin when the tick tripped that rail.
#[derive(Clone, Copy, Debug)]
pub struct LedTick {
    pub readings: LedRailReadings,
    pub nen_a: Option<PinLevel>,
    pub nen_b: Option<PinLevel>,
}

/// When a core-rail tick's samples can be converted: each thermistor sample is inside the
/// 12-bit range, so the thermistor voltage stays below the divider's supply.
pub open spec fn core_samples_convertible(s: CoreSamples) -> bool {
    &&& s.t24v < 4096
    &&& s.t19v < 4096
    &&& s.t5v < 4096
}

/// When an LED-rail tick's samples can be converted: the thermistor sample is inside the
/// 12-bit range.
pub open spec fn led_samples_convertible(s: LedSamples) -> bool {
    s.t12v < 4096
}

/// Telemetry of the core rails for one tick's samples.
pub open spec fn core_readings_spec(s: CoreSamples) -> CoreReadings {
    CoreReadings {
        v24v_centivolts: rail_centivolts_spec(s.v24v as int, 11) as u32,
        i24v_milliamps: sense_milliamps_spec(s.i24v as int, 100, 16) as u32,
        t24v_thermistor_ohms: thermistor_ohms_spec(s.t24v as int) as u32,
        v19v_centivolts: rail_centivolts_spec(s.v19v as int, 11) as u32,
        i19v_milliamps: sense_milliamps_spec(s.i19v as int, 20, 8) as u32,
        t19v_thermistor_ohms: thermistor_ohms_spec(s.t19v as int) as u32,
        t5v_thermistor_ohms: thermistor_ohms_spec(s.t5v as int) as u32,
    }
}

/// Telemetry of the LED rails for one tick's samples.
pub open spec fn led_readings_spec(s: LedSamples) -> LedRailReadings {
    LedRailReadings {
        v5v_centivolts: rail_centivolts_spec(s.v5v as int, 2) as u32,
        ia_milliamps: sense_milliamps_spec(s.ia as int, 50, 8) as u32,
        ib_milliamps: sense_milliamps_spec(s.ib as int, 50, 8) as u32,
        t12v_thermistor_ohms: thermistor_ohms_spec(s.t12v as int) as u32,
    }
}

/// Whether a tick trips a rail: the rail is on and draws more than its limit.
pub open spec fn trips(enabled: bool, milliamps: int, limit: int) -> bool {
    enabled && milliamps > limit
}

/// Switch state and over-current trips of the +24 V and +19 V rails (enable pins
/// active-high).
pub struct PowerCtrl {
    pub rail_24v_enabled: bool,
    pub rail_19v_enabled: bool,
    /// Set once a tick has switched the +24 V rail off for drawing too much current.
    pub rail_24v_tripped: bool,
    /// Set once a tick has switched the +19 V rail off for drawing too much current.
    pub rail_19v_tripped: bool,
}

impl PowerCtrl {
    /// Period at which `tick` is to run for the over-current protection, in microseconds.
    pub const TICK_PERIOD_US: u32 = 1_000;

    /// Both rails start disabled (their enable pins are set up driven low) and untripped.
    pub fn new() -> (pc: Self)
        ensures
            !pc.rail_24v_enabled,
            !pc.rail_19v_enabled,
            !pc.rail_24v_tripped,
            !pc.rail_19v_tripped,
    {
        PowerCtrl {
            rail_24v_enabled: false,
            rail_19v_enabled: false,
            rail_24v_tripped: false,
            rail_19v_tripped: false,
        }
    }

    /// Turns the +19 V rail on; returns the level for its enable pin.
    pub fn enable_19v(&mut self) -> (level: PinLevel)
        ensures
            level == PinLevel::High,
            *final(self) == (PowerCtrl { rail_19v_enabled: true, ..*old(self) }),
    {
        self.rail_19v_enabled = true;
        PinLevel::High
    }

    /// Turns the +19 V rail off; returns the level for its enable pin.
    pub fn disable_19v(&mut self) -> (level: PinLevel)
        ensures
            level == PinLevel::Low,
            *final(self) == (PowerCtrl { rail_19v_enabled: false, ..*old(self) }),
    {
        self.rail_19v_enabled = false;
        PinLevel::Low
    }

    /// Turns the +24 V rail on; returns the level for its enable pin.
    pub fn enable_24v(&mut self) -> (level: PinLevel)
        ensures
            level == PinLevel::High,
            *final(self) == (PowerCtrl { rail_24v_enabled: true, ..*old(self) }),
    {
        self.rail_24v_enabled = true;
        PinLevel::High
    }

    /// Turns the +24 V rail off; returns the level for its enable pin.
    pub fn disable_24v(&mut self) -> (level: PinLevel)
        ensures
            level == PinLevel::Low,
            *final(self) == (PowerCtrl { rail_24v_enabled: false, ..*old(self) }),
    {
        self.rail_24v_enabled = false;
        PinLevel::Low
    }

    /// Whether either rail has been tripped.
    pub fn fault(&self) -> (f: bool)
        ensures
            f == (self.rail_24v_tripped || self.rail_19v_tripped),
    {
        self.rail_24v_tripped || self.rail_19v_tripped
    }

    /// Converts one tick's samples of the core rails, and trips each enabled rail that draws
    /// more than its limit: the rail is switched off (its pin driven low) and marked tripped.
    pub fn tick(&mut self, samples: CoreSamples) -> (t: CoreTick)
        requires
            core_samples_convertible(samples),
        ensures
            t.readings == core_readings_spec(samples),
            ({
                let trip24 = old(self).rail_24v_enabled && t.readings.i24v_milliamps > 1_000;
                let trip19 = old(self).rail_19v_enabled && t.readings.i19v_milliamps > 10_000;
                &&& final(self).rail_24v_enabled == (old(self).rail_24v_enabled && !trip24)
                &&& final(self).rail_19v_enabled == (old(self).rail_19v_enabled && !trip19)
                &&& final(self).rail_24v_tripped == (old(self).rail_24v_tripped || trip24)
                &&& final(self).rail_19v_tripped == (old(self).rail_19v_tripped || trip19)
                &&& t.en24v == (if trip24 { Some(PinLevel::Low) } else { None::<PinLevel> })
                &&& t.en19v == (if trip19 { Some(PinLevel::Low) } else { None::<PinLevel> })
            }),
    {
        let readings = CoreReadings {
            v24v_centivolts: rail_centivolts(samples.v24v, V24V_DIVIDER_DENOM),
            v19v_centivolts: rail_centivolts(samples.v19v, V19V_DIVIDER_DENOM),
            i24v_milliamps: sense_milliamps(samples.i24v, SENSE_24V_RESISTOR_MILLIOHM, OPAMP_24V_GAIN),
            i19v_milliamps: sense_milliamps(samples.i19v, SENSE_19V_RESISTOR_MILLIOHM, OPAMP_19V_GAIN),
            t24v_thermistor_ohms: thermistor_ohms(samples.t24v),
            t19v_thermistor_ohms: thermistor_ohms(samples.t19v),
            t5v_thermistor_ohms: thermistor_ohms(samples.t5v),
        };
        let mut en24v: Option<PinLevel> = None;
        let mut en19v: Option<PinLevel> = None;
        if self.rail_24v_enabled && readings.i24v_milliamps > I24V_LIMIT_MILLIAMPS {
            self.rail_24v_enabled = false;
            self.rail_24v_tripped = true;
            en24v = Some(PinLevel::Low);
        }
        if self.rail_19v_enabled && readings.i19v_milliamps > I19V_LIMIT_MILLIAMPS {
            self.rail_19v_enabled = false;
            self.rail_19v_tripped = true;
            en19v = Some(PinLevel::Low);
        }
        CoreTick { readings, en24v, en19v }
    }
}

/// Switch state and over-current trips of the two +5 V LED rails (enable pins active-low).
pub struct ExtARGBCtrl {
    pub rail_a_enabled: bool,
    pub rail_b_enabled: bool,
    /// Set once a tick has switched LED rail A off for drawing too much current.
    pub rail_a_tripped: bool,
    /// Set once a tick has switched LED rail B off for drawing too much current.
    pub rail_b_tripped: bool,
}

impl ExtARGBCtrl {
    /// Both LED rails start disabled (their enable pins are set up driven high) and untripped.
    pub fn new() -> (c: Self)
        ensures
            !c.rail_a_enabled,
            !c.rail_b_enabled,
            !c.rail_a_tripped,
            !c.rail_b_tripped,
    {
        ExtARGBCtrl { rail_a_enabled: false, rail_b_enabled: false, rail_a_tripped: false, rail_b_tripped: false }
    }

    /// Turns LED rail A on; returns the level for its (active-low) enable pin.
    pub fn enable_a(&mut self) -> (level: PinLevel)
        ensures
            level == PinLevel::Low,
            *final(self) == (ExtARGBCtrl { rail_a_enabled: true, ..*old(self) }),
    {
        self.rail_a_enabled = true;
        PinLevel::Low
    }

    /// Turns LED rail B on; returns the level for its (active-low) enable pin.
    pub fn enable_b(&mut self) -> (level: PinLevel)
        ensures
            level == PinLevel::Low,
            *final(self) == (ExtARGBCtrl { rail_b_enabled: true, ..*old(self) }),
    {
        self.rail_b_enabled = true;
        PinLevel::Low
    }

    /// Turns LED rail A off; returns the level for its (active-low) enable pin.
    pub fn disable_a(&mut self) -> (level: PinLevel)
        ensures
            level == PinLevel::High,
            *final(self) == (ExtARGBCtrl { rail_a_enabled: false, ..*old(self) }),
    {
        self.rail_a_enabled = false;
        PinLevel::High
    }

    /// Turns LED rail B off; returns the level for its (active-low) enable pin.
    pub fn disable_b(&mut self) -> (level: PinLevel)
        ensures
            level == PinLevel::High,
            *final(self) == (ExtARGBCtrl { rail_b_enabled: false, ..*old(self) }),
    {
        self.rail_b_enabled = false;
        PinLevel::High
    }

    /// Whether either LED rail has been tripped.
    pub fn fault(&self) -> (f: bool)
        ensures
            f == (self.rail_a_tripped || self.rail_b_tripped),
    {
        self.rail_a_tripped || self.rail_b_tripped
    }

    /// Converts a +5 V LED rail's current-sense sample.
    pub fn sample_to_milliamps(sample: u16) -> (ma: u32)
        ensures
            ma == sense_milliamps_spec(sample as int, 50, 8),
    {
        sense_milliamps(sample, SENSE_5V_RESISTOR_MILLIOHM, OPAMP_5V_GAIN)
    }

    /// Converts one tick's samples of the LED rails, and trips each enabled LED rail that
    /// draws more than its limit: the rail is switched off (its pin driven high) and marked
    /// tripped.
    pub fn tick(&mut self, samples: LedSamples) -> (t: LedTick)
        requires
            led_samples_convertible(samples),
        ensures
            t.readings == led_readings_spec(samples),
            ({
                let trip_a = old(self).rail_a_enabled && t.readings.ia_milliamps > 4_000;
                let trip_b = old(self).rail_b_enabled && t.readings.ib_milliamps > 4_000;
                &&& final(self).rail_a_enabled == (old(self).rail_a_enabled && !trip_a)
                &&& final(self).rail_b_enabled == (old(self).rail_b_enabled && !trip_b)
                &&& final(self).rail_a_tripped == (old(self).rail_a_tripped || trip_a)
                &&& final(self).rail_b_tripped == (old(self).rail_b_tripped || trip_b)
                &&& t.nen_a == (if trip_a { Some(PinLevel::High) } else { None::<PinLevel> })
                &&& t.nen_b == (if trip_b { Some(PinLevel::High) } else { None::<PinLevel> })
            }),
    {
        let readings = LedRailReadings {
            v5v_centivolts: rail_centivolts(samples.v5v, V5V_DIVIDER_DENOM),
            ia_milliamps: Self::sample_to_milliamps(samples.ia),
            ib_milliamps: Self::sample_to_milliamps(samples.ib),
            t12v_thermistor_ohms: thermistor_ohms(samples.t12v),
        };
        let mut nen_a: Option<PinLevel> = None;
        let mut nen_b: Option<PinLevel> = None;
        if self.rail_a_enabled && readings.ia_milliamps > I5V_LIMIT_MILLIAMPS {
            self.rail_a_enabled = false;
            self.rail_a_tripped = true;
            nen_a = Some(PinLevel::High);
        }
        if self.rail_b_enabled && readings.ib_milliamps > I5V_LIMIT_MILLIAMPS {
            self.rail_b_enabled = false;
            self.rail_b_tripped = true;
            nen_b = Some(PinLevel::High);
        }
        LedTick { readings, nen_a, nen_b }
    }
}

/// A larger reading on any one channel of a core-rail tick never lowers the voltage, current or
/// thermistor resistance derived from it (a higher resistance means a colder NTC thermistor),
/// and leaves every other field unchanged.
pub proof fn lemma_core_readings_monotonic(a: CoreSamples, b: CoreSamples)
    requires
        core_samples_convertible(a),
        core_samples_convertible(b),
        a.v24v <= b.v24v,
        a.v19v <= b.v19v,
        a.i24v <= b.i24v,
        a.i19v <= b.i19v,
        a.t24v <= b.t24v,
        a.t19v <= b.t19v,
        a.t5v <= b.t5v,
    ensures
        core_readings_spec(a).v24v_centivolts <= core_readings_spec(b).v24v_centivolts,
        core_readings_spec(a).v19v_centivolts <= core_readings_spec(b).v19v_centivolts,
        core_readings_spec(a).i24v_milliamps <= core_readings_spec(b).i24v_milliamps,
        core_readings_spec(a).i19v_milliamps <= core_readings_spec(b).i19v_milliamps,
        core_readings_spec(a).t24v_thermistor_ohms <= core_readings_spec(b).t24v_thermistor_ohms,
        core_readings_spec(a).t19v_thermistor_ohms <= core_readings_spec(b).t19v_thermistor_ohms,
        core_readings_spec(a).t5v_thermistor_ohms <= core_readings_spec(b).t5v_thermistor_ohms,
{
    lemma_field_bounds(a);
    lemma_field_bounds(b);
    lemma_conversions_monotonic(a.v24v as int, b.v24v as int, 11, 100, 16);
    lemma_conversions_monotonic(a.v19v as int, b.v19v as int, 11, 100, 16);
    lemma_conversions_monotonic(a.i24v as int, b.i24v as int, 11, 100, 16);
    lemma_conversions_monotonic(a.i19v as int, b.i19v as int, 11, 20, 8);
    lemma_conversions_monotonic(a.t24v as int, b.t24v as int, 11, 100, 16);
    lemma_conversions_monotonic(a.t19v as int, b.t19v as int, 11, 100, 16);
    lemma_conversions_monotonic(a.t5v as int, b.t5v as int, 11, 100, 16);
}

/// Every field of a core-rail tick's telemetry fits its 32 bits, so the readings are the
/// formulas' exact values.
proof fn lemma_field_bounds(s: CoreSamples)
    requires
        core_samples_convertible(s),
    ensures
        0 <= rail_centivolts_spec(s.v24v as int, 11) <= u32::MAX,
        0 <= rail_centivolts_spec(s.v19v as int, 11) <= u32::MAX,
        0 <= sense_milliamps_spec(s.i24v as int, 100, 16) <= u32::MAX,
        0 <= sense_milliamps_spec(s.i19v as int, 20, 8) <= u32::MAX,
        0 <= thermistor_ohms_spec(s.t24v as int) <= u32::MAX,
        0 <= thermistor_ohms_spec(s.t19v as int) <= u32::MAX,
        0 <= thermistor_ohms_spec(s.t5v as int) <= u32::MAX,
{
    lemma_conversions_monotonic(0, s.v24v as int, 11, 100, 16);
    lemma_conversions_monotonic(s.v24v as int, 65535, 11, 100, 16);
    lemma_conversions_monotonic(0, s.v19v as int, 11, 100, 16);
    lemma_conversions_monotonic(s.v19v as int, 65535, 11, 100, 16);
    lemma_conversions_monotonic(0, s.i24v as int, 11, 100, 16);
    lemma_conversions_monotonic(s.i24v as int, 65535, 11, 100, 16);
    lemma_conversions_monotonic(0, s.i19v as int, 11, 20, 8);
    lemma_conversions_monotonic(s.i19v as int, 65535, 11, 20, 8);
    lemma_conversions_monotonic(0, s.t24v as int, 11, 100, 16);
    lemma_conversions_monotonic(s.t24v as int, 4095, 11, 100, 16);
    lemma_conversions_monotonic(0, s.t19v as int, 11, 100, 16);
    lemma_conversions_monotonic(s.t19v as int, 4095, 11, 100, 16);
    lemma_conversions_monotonic(0, s.t5v as int, 11, 100, 16);
    lemma_conversions_monotonic(s.t5v as int, 4095, 11, 100, 16);
}

/// A rail trips exactly when it is on and its current is strictly above its limit.
pub proof fn lemma_trip_rule(enabled: bool, milliamps: int, limit: int)
    ensures
        trips(enabled, milliamps, limit) <==> (enabled && milliamps > limit),
{
}

/// What a core-rail tick reports, from its samples: rail voltages behind 10k/100k dividers
/// (`cv * 4096 <= sample * 320 * 11 < (cv + 1) * 4096`), shunt currents for 100 mOhm at
/// gain 16 (+24 V) and 20 mOhm at gain 8 (+19 V)
/// (`ma * 4096 * d <= sample * 3_200_000 < (ma + 1) * 4096 * d`), and each thermistor's
/// resistance as the lower leg of its divider against 2.2 kOhm on 3.2 V.
pub proof fn lemma_core_readings_law(s: CoreSamples)
    requires
        core_samples_convertible(s),
    ensures
        core_readings_spec(s).v24v_centivolts * 4096 <= s.v24v * 3520 < (core_readings_spec(s).v24v_centivolts + 1) * 4096,
        core_readings_spec(s).v19v_centivolts * 4096 <= s.v19v * 3520 < (core_readings_spec(s).v19v_centivolts + 1) * 4096,
        core_readings_spec(s).i24v_milliamps * 6_553_600 <= s.i24v * 3_200_000 < (core_readings_spec(s).i24v_milliamps + 1) * 6_553_600,
        core_readings_spec(s).i19v_milliamps * 655_360 <= s.i19v * 3_200_000 < (core_readings_spec(s).i19v_milliamps + 1) * 655_360,
        ({
            let mv = thermistor_millivolts_spec(s.t24v as int);
            &&& mv * 4096 <= s.t24v * 3200 < (mv + 1) * 4096
            &&& core_readings_spec(s).t24v_thermistor_ohms * (3200 - mv) <= mv * 2200
            &&& mv * 2200 < (core_readings_spec(s).t24v_thermistor_ohms + 1) * (3200 - mv)
        }),
        ({
            let mv = thermistor_millivolts_spec(s.t19v as int);
            &&& mv * 4096 <= s.t19v * 3200 < (mv + 1) * 4096
            &&& core_readings_spec(s).t19v_thermistor_ohms * (3200 - mv) <= mv * 2200
            &&& mv * 2200 < (core_readings_spec(s).t19v_thermistor_ohms + 1) * (3200 - mv)
        }),
        ({
            let mv = thermistor_millivolts_spec(s.t5v as int);
            &&& mv * 4096 <= s.t5v * 3200 < (mv + 1) * 4096
            &&& core_readings_spec(s).t5v_thermistor_ohms * (3200 - mv) <= mv * 2200
            &&& mv * 2200 < (core_readings_spec(s).t5v_thermistor_ohms + 1) * (3200 - mv)
        }),
{
    lemma_field_bounds(s);
    lemma_rail_centivolts_law(s.v24v as int, 11);
    lemma_rail_centivolts_law(s.v19v as int, 11);
    lemma_sense_milliamps_law(s.i24v as int, 100, 16);
    lemma_sense_milliamps_law(s.i19v as int, 20, 8);
    lemma_thermistor_divider_law(s.t24v as int);
    lemma_thermistor_divider_law(s.t19v as int);
    lemma_thermistor_divider_law(s.t5v as int);
}

/// Every field of an LED-rail tick's telemetry fits its 32 bits.
proof fn lemma_led_field_bounds(s: LedSamples)
    requires
        led_samples_convertible(s),
    ensures
        0 <= rail_centivolts_spec(s.v5v as int, 2) <= u32::MAX,
        0 <= sense_milliamps_spec(s.ia as int, 50, 8) <= u32::MAX,
        0 <= sense_milliamps_spec(s.ib as int, 50, 8) <= u32::MAX,
        0 <= thermistor_ohms_spec(s.t12v as int) <= u32::MAX,
{
    lemma_conversions_monotonic(0, s.v5v as int, 2, 50, 8);
    lemma_conversions_monotonic(s.v5v as int, 65535, 2, 50, 8);
    lemma_conversions_monotonic(0, s.ia as int, 2, 50, 8);
    lemma_conversions_monotonic(s.ia as int, 65535, 2, 50, 8);
    lemma_conversions_monotonic(0, s.ib as int, 2, 50, 8);
    lemma_conversions_monotonic(s.ib as int, 65535, 2, 50, 8);
    lemma_conversions_monotonic(0, s.t12v as int, 2, 50, 8);
    lemma_conversions_monotonic(s.t12v as int, 4095, 2, 50, 8);
}

/// What an LED-rail tick reports, from its samples: the +5 V rail voltage behind a 10k/10k
/// divider (`cv * 4096 <= sample * 640 < (cv + 1) * 4096`), each LED rail's current through
/// 50 mOhm at gain 8 (`ma * 1_638_400 <= sample * 3_200_000 < (ma + 1) * 1_638_400`), and the
/// +12 V thermistor's resistance as the lower leg of its divider against 2.2 kOhm on 3.2 V.
pub proof fn lemma_led_readings_law(s: LedSamples)
    requires
        led_samples_convertible(s),
    ensures
        led_readings_spec(s).v5v_centivolts * 4096 <= s.v5v * 640 < (led_readings_spec(s).v5v_centivolts + 1) * 4096,
        led_readings_spec(s).ia_milliamps * 1_638_400 <= s.ia * 3_200_000 < (led_readings_spec(s).ia_milliamps + 1) * 1_638_400,
        led_readings_spec(s).ib_milliamps * 1_638_400 <= s.ib * 3_200_000 < (led_readings_spec(s).ib_milliamps + 1) * 1_638_400,
        ({
            let mv = thermistor_millivolts_spec(s.t12v as int);
            &&& mv * 4096 <= s.t12v * 3200 < (mv + 1) * 4096
            &&& led_readings_spec(s).t12v_thermistor_ohms * (3200 - mv) <= mv * 2200
            &&& mv * 2200 < (led_readings_spec(s).t12v_thermistor_ohms + 1) * (3200 - mv)
        }),
{
    lemma_led_field_bounds(s);
    lemma_rail_centivolts_law(s.v5v as int, 2);
    lemma_sense_milliamps_law(s.ia as int, 50, 8);
    lemma_sense_milliamps_law(s.ib as int, 50, 8);
    lemma_thermistor_divider_law(s.t12v as int);
}

/// A larger reading on any channel of an LED-rail tick never lowers the voltage, current or
/// thermistor resistance derived from it.
pub proof fn lemma_led_readings_monotonic(a: LedSamples, b: LedSamples)
    requires
        led_samples_convertible(a),
        led_samples_convertible(b),
        a.v5v <= b.v5v,
        a.ia <= b.ia,
        a.ib <= b.ib,
        a.t12v <= b.t12v,
    ensures
        led_readings_spec(a).v5v_centivolts <= led_readings_spec(b).v5v_centivolts,
        led_readings_spec(a).ia_milliamps <= led_readings_spec(b).ia_milliamps,
        led_readings_spec(a).ib_milliamps <= led_readings_spec(b).ib_milliamps,
        led_readings_spec(a).t12v_thermistor_ohms <= led_readings_spec(b).t12v_thermistor_ohms,
{
    lemma_led_field_bounds(a);
    lemma_led_field_bounds(b);
    lemma_conversions_monotonic(a.v5v as int, b.v5v as int, 2, 50, 8);
    lemma_conversions_monotonic(a.ia as int, b.ia as int, 2, 50, 8);
    lemma_conversions_monotonic(a.ib as int, b.ib as int, 2, 50, 8);
    lemma_conversions_monotonic(a.t12v as int, b.t12v as int, 2, 50, 8);
}

} // verus!
