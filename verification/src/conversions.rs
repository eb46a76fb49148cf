//! Fixed-point conversions from raw 12-bit ADC samples to engineering units.
//!
//! Every formula here is evaluated left to right with truncating integer division, exactly as
//! the firmware computes it; the spec functions state the same formula over mathematical
//! integers and the executable functions are proved to compute it without overflow. Samples
//! are the ADC's 16-bit results; the 12-bit converter fills only their low 12 bits.
use vstd::prelude::*;
use vstd::arithmetic::div_mod::{
    lemma_div_is_ordered, lemma_div_is_ordered_by_denominator, lemma_fundamental_div_mod,
    lemma_mod_bound,
};

verus! {

/// Number of distinct codes of the 12-bit ADC (`1 << 12`).
pub const ADC_FULL_SCALE: u32 = 4096;

/// Analogue supply of the compute power module, in centivolts.
pub const VDDA_CENTIVOLT: u32 = 320;

/// Analogue supply of the main power hub, in millivolts (as measured).
pub const VDDA_MILLIVOLT: u32 = 3200;

/// Upper resistor of each thermistor divider, in ohms.
pub const THERMISTOR_PULLUP_OHM: u32 = 2200;

/// Gain of the main power hub's current-sense amplifiers.
pub const HUB_OPAMP_GAIN: u32 = 64;

/// Shunt resistance of the main power hub's channels, in milliohms.
pub const HUB_SENSE_RESISTOR_MILLIOHM: u32 = 1;

/// Denominator of the main power hub's 10k/220k bus-voltage divider.
pub const VBUS_DIVIDER_DENOM: u32 = 23;

/// Rail voltage in centivolts: `sample * 320 * divider_denom / 4096`.
pub open spec fn rail_centivolts_spec(sample: int, divider_denom: int) -> int {
    sample * 320 * divider_denom / 4096
}

/// Shunt current in milliamps: `sample * 320 * 10_000 / 4096 / (sense_milliohm * gain)`.
pub open spec fn sense_milliamps_spec(sample: int, sense_milliohm: int, gain: int) -> int {
    sample * 320 * 10_000 / 4096 / (sense_milliohm * gain)
}

/// Voltage across a thermistor in millivolts: `sample * 320 * 10 / 4096`.
pub open spec fn thermistor_millivolts_spec(sample: int) -> int {
    sample * 320 * 10 / 4096
}

/// Thermistor resistance in ohms, from its divider against a 2.2 kOhm pull-up:
/// `mv * 2200 / (3200 - mv)` with `mv` the thermistor voltage in millivolts.
pub open spec fn thermistor_ohms_spec(sample: int) -> int {
    let mv = thermistor_millivolts_spec(sample);
    mv * 2200 / (3200 - mv)
}

/// Channel current of the main power hub in milliamps:
/// `sample * 3200 / 4096 * 1000 / (1 * 64)`.
pub open spec fn channel_milliamps_spec(sample: int) -> int {
    sample * 3200 / 4096 * 1000 / 64
}

/// Bus voltage in millivolts behind the 10k/220k divider: `sample * 3200 * 23 / 4096`.
pub open spec fn vbus_millivolts_spec(sample: int) -> int {
    sample * 3200 * 23 / 4096
}

/// Converts a rail-voltage sample taken behind a divider of ratio `1 / divider_denom`.
pub fn rail_centivolts(sample: u16, divider_denom: u32) -> (cv: u32)
    requires
        sample * 320 * divider_denom <= u32::MAX,
    ensures
        cv == rail_centivolts_spec(sample as int, divider_denom as int),
{
    let scaled: u32 = sample as u32 * VDDA_CENTIVOLT;
    let divided: u32 = scaled * divider_denom;
    divided / ADC_FULL_SCALE
}

/// Converts a current-sense amplifier sample, for a shunt of `sense_milliohm` and an amplifier
/// of gain `opamp_gain`. The intermediate product is kept in 64 bits, so every sample of the
/// ADC's 16-bit result converts, up to the amplifier's full scale.
pub fn sense_milliamps(sample: u16, sense_milliohm: u32, opamp_gain: u32) -> (ma: u32)
    requires
        0 < sense_milliohm * opamp_gain <= u32::MAX,
    ensures
        ma == sense_milliamps_spec(sample as int, sense_milliohm as int, opamp_gain as int),
{
    let scaled: u64 = sample as u64 * 3_200_000;
    assert(scaled == sample * 320 * 10_000);
    let per_code: u64 = scaled / 4096;
    assert(per_code <= 51_200_000) by {
        lemma_div_is_ordered(scaled as int, 65535int * 3_200_000, 4096);
    }
    let denom: u32 = sense_milliohm * opamp_gain;
    let ma: u64 = per_code / (denom as u64);
    assert(ma <= per_code) by {
        lemma_div_is_ordered_by_denominator(per_code as int, 1, denom as int);
    }
    ma as u32
}

/// Converts a thermistor-divider sample to the voltage across the thermistor.
pub fn thermistor_millivolts(sample: u16) -> (mv: u32)
    ensures
        mv == thermistor_millivolts_spec(sample as int),
{
    sample as u32 * VDDA_CENTIVOLT * 10 / ADC_FULL_SCALE
}

/// Converts a thermistor-divider sample to the thermistor's resistance.
///
/// A sample of the 12-bit range keeps the thermistor voltage below the 3.2 V supply, so
/// the divider's denominator never reaches zero.
pub fn thermistor_ohms(sample: u16) -> (ohm: u32)
    requires
        sample < ADC_FULL_SCALE,
    ensures
        ohm == thermistor_ohms_spec(sample as int),
        thermistor_millivolts_spec(sample as int) < 3200,
{
    let mv = thermistor_millivolts(sample);
    assert(mv < 3200) by {
        assert(sample * 3200 < 4096 * 3200);
    }
    mv * THERMISTOR_PULLUP_OHM / (VDDA_CENTIVOLT * 10 - mv)
}

/// Converts one of the main power hub's channel-current samples.
pub fn channel_milliamps(sample: u16) -> (ma: u32)
    ensures
        ma == channel_milliamps_spec(sample as int),
{
    let per_code: u32 = sample as u32 * VDDA_MILLIVOLT / ADC_FULL_SCALE;
    assert(per_code <= 1_048_576);
    per_code * 1_000 / (HUB_SENSE_RESISTOR_MILLIOHM * HUB_OPAMP_GAIN)
}

/// Converts a bus-voltage sample taken behind the 10k/220k divider.
pub fn vbus_millivolts(sample: u16) -> (mv: u32)
    requires
        sample * 73_600 <= u32::MAX,
    ensures
        mv == vbus_millivolts_spec(sample as int),
{
    sample as u32 * VDDA_MILLIVOLT * VBUS_DIVIDER_DENOM / ADC_FULL_SCALE
}

/// Every conversion is monotonic in the sample: a larger ADC reading never yields a smaller
/// voltage, current or thermistor resistance.
pub proof fn lemma_conversions_monotonic(a: int, b: int, divider_denom: int, sense_milliohm: int, gain: int)
    requires
        0 <= a <= b,
        0 <= divider_denom,
        0 < sense_milliohm * gain,
    ensures
        rail_centivolts_spec(a, divider_denom) <= rail_centivolts_spec(b, divider_denom),
        sense_milliamps_spec(a, sense_milliohm, gain) <= sense_milliamps_spec(b, sense_milliohm, gain),
        thermistor_millivolts_spec(a) <= thermistor_millivolts_spec(b),
        channel_milliamps_spec(a) <= channel_milliamps_spec(b),
        vbus_millivolts_spec(a) <= vbus_millivolts_spec(b),
        b < 4096 ==> thermistor_ohms_spec(a) <= thermistor_ohms_spec(b),
{
    assert(a * 320 * divider_denom <= b * 320 * divider_denom) by (nonlinear_arith)
        requires 0 <= a <= b, 0 <= divider_denom;
    lemma_div_is_ordered(a * 320 * divider_denom, b * 320 * divider_denom, 4096);
    lemma_div_is_ordered(a * 320 * 10_000, b * 320 * 10_000, 4096);
    lemma_div_is_ordered(a * 320 * 10_000 / 4096, b * 320 * 10_000 / 4096, sense_milliohm * gain);
    lemma_div_is_ordered(a * 320 * 10, b * 320 * 10, 4096);
    lemma_div_is_ordered(a * 3200, b * 3200, 4096);
    assert(a * 3200 / 4096 * 1000 <= b * 3200 / 4096 * 1000);
    lemma_div_is_ordered(a * 3200 / 4096 * 1000, b * 3200 / 4096 * 1000, 64);
    lemma_div_is_ordered(a * 3200 * 23, b * 3200 * 23, 4096);
    if b < 4096 {
        let ma = thermistor_millivolts_spec(a);
        let mb = thermistor_millivolts_spec(b);
        assert(mb < 3200) by {
            lemma_div_is_ordered(b * 3200, 4095int * 3200, 4096);
        }
        assert(0 <= ma) by {
            lemma_div_is_ordered(0, a * 3200, 4096);
        }
        lemma_div_is_ordered(ma * 2200, mb * 2200, 3200 - ma);
        lemma_div_is_ordered_by_denominator(mb * 2200, 3200 - mb, 3200 - ma);
    }
}

/// Floor division brackets its dividend between two consecutive multiples of the divisor.
proof fn lemma_floor_bracket(x: int, d: int)
    requires
        d > 0,
    ensures
        (x / d) * d <= x < (x / d + 1) * d,
{
    lemma_fundamental_div_mod(x, d);
    lemma_mod_bound(x, d);
    assert((x / d) * d == d * (x / d)) by (nonlinear_arith);
    assert((x / d + 1) * d == d * (x / d) + d) by (nonlinear_arith);
}

/// Dividing by `a` and then by `b`, rounding down each time, brackets the dividend between
/// consecutive multiples of `a * b`.
proof fn lemma_double_floor_bracket(x: int, a: int, b: int)
    requires
        a > 0,
        b > 0,
    ensures
        (x / a / b) * (a * b) <= x < (x / a / b + 1) * (a * b),
{
    let y = x / a;
    let q = y / b;
    lemma_floor_bracket(x, a);
    lemma_floor_bracket(y, b);
    assert(q * (a * b) <= x) by (nonlinear_arith)
        requires
            q * b <= y,
            y * a <= x,
            a > 0,
    ;
    assert(x < (q + 1) * (a * b)) by (nonlinear_arith)
        requires
            y < (q + 1) * b,
            x < (y + 1) * a,
            a > 0,
    ;
}

/// A rail voltage is the whole number of centivolts under the sample: behind a divider of
/// ratio `1 / divider_denom`, with 4096 codes spanning 320 centivolts,
/// `cv * 4096 <= sample * 320 * divider_denom < (cv + 1) * 4096`.
pub proof fn lemma_rail_centivolts_law(sample: int, divider_denom: int)
    ensures
        rail_centivolts_spec(sample, divider_denom) * 4096 <= sample * 320 * divider_denom,
        sample * 320 * divider_denom < (rail_centivolts_spec(sample, divider_denom) + 1) * 4096,
{
    lemma_floor_bracket(sample * 320 * divider_denom, 4096);
}

/// A shunt current is the whole number of milliamps under the sample: with `d = sense * gain`
/// (milliohms times amplifier gain) and 4096 codes spanning 3.2 V,
/// `ma * (4096 * d) <= sample * 3_200_000 < (ma + 1) * (4096 * d)`.
pub proof fn lemma_sense_milliamps_law(sample: int, sense_milliohm: int, gain: int)
    requires
        0 < sense_milliohm * gain,
    ensures
        sense_milliamps_spec(sample, sense_milliohm, gain) * (4096 * (sense_milliohm * gain))
            <= sample * 3_200_000,
        sample * 3_200_000 < (sense_milliamps_spec(sample, sense_milliohm, gain) + 1) * (4096 * (
        sense_milliohm * gain)),
{
    assert(sample * 320 * 10_000 == sample * 3_200_000);
    lemma_double_floor_bracket(sample * 3_200_000, 4096, sense_milliohm * gain);
}

/// A thermistor reading is the lower leg of a divider against the 2.2 kOhm pull-up on the
/// 3.2 V supply: the thermistor voltage is the whole millivolts under the sample
/// (`mv * 4096 <= sample * 3200 < (mv + 1) * 4096`, below 3200 for a 12-bit sample), and the
/// resistance is the whole ohms for which the divider equation holds,
/// `ohm * (3200 - mv) <= mv * 2200 < (ohm + 1) * (3200 - mv)`.
pub proof fn lemma_thermistor_divider_law(sample: int)
    requires
        0 <= sample < 4096,
    ensures
        thermistor_millivolts_spec(sample) * 4096 <= sample * 3200,
        sample * 3200 < (thermistor_millivolts_spec(sample) + 1) * 4096,
        0 <= thermistor_millivolts_spec(sample) < 3200,
        thermistor_ohms_spec(sample) * (3200 - thermistor_millivolts_spec(sample))
            <= thermistor_millivolts_spec(sample) * 2200,
        thermistor_millivolts_spec(sample) * 2200 < (thermistor_ohms_spec(sample) + 1) * (3200
            - thermistor_millivolts_spec(sample)),
        0 <= thermistor_ohms_spec(sample),
{
    assert(sample * 320 * 10 == sample * 3200);
    let mv = thermistor_millivolts_spec(sample);
    lemma_floor_bracket(sample * 3200, 4096);
    lemma_div_is_ordered(sample * 3200, 4095int * 3200, 4096);
    lemma_div_is_ordered(0, sample * 3200, 4096);
    lemma_floor_bracket(mv * 2200, 3200 - mv);
    lemma_div_is_ordered(0, mv * 2200, 3200 - mv);
}

/// A hub channel current: the amplifier output is the whole millivolts under the sample
/// (`mv * 4096 <= sample * 3200 < (mv + 1) * 4096`), and the current is the whole milliamps
/// through the 1 mOhm shunt at gain 64 (`ma * 64 <= mv * 1000 < (ma + 1) * 64`).
pub proof fn lemma_channel_milliamps_law(sample: int)
    ensures
        (sample * 3200 / 4096) * 4096 <= sample * 3200 < (sample * 3200 / 4096 + 1) * 4096,
        channel_milliamps_spec(sample) * 64 <= (sample * 3200 / 4096) * 1000,
        (sample * 3200 / 4096) * 1000 < (channel_milliamps_spec(sample) + 1) * 64,
{
    lemma_floor_bracket(sample * 3200, 4096);
    lemma_floor_bracket((sample * 3200 / 4096) * 1000, 64);
}

/// The bus voltage is the whole millivolts under the sample behind the 10k/220k divider:
/// `mv * 4096 <= sample * 3200 * 23 < (mv + 1) * 4096`.
pub proof fn lemma_vbus_millivolts_law(sample: int)
    ensures
        vbus_millivolts_spec(sample) * 4096 <= sample * 3200 * 23,
        sample * 3200 * 23 < (vbus_millivolts_spec(sample) + 1) * 4096,
{
    lemma_floor_bracket(sample * 3200 * 23, 4096);
}

} // verus!
