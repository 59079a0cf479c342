use vstd::prelude::*;
use vstd::arithmetic::div_mod::{
    lemma_div_by_multiple,
    lemma_div_is_ordered,
    lemma_fundamental_div_mod,
    lemma_fundamental_div_mod_converse,
};
use vstd::arithmetic::power2::{lemma2_to64, lemma_pow2_pos, pow2};
use vstd::bits::lemma_u64_shr_is_div;

verus! {

/// The six factory calibration coefficients of one sensor.
#[derive(Clone, Copy, Debug, PartialEq, Eq, Structural)]
pub struct Prom {
    /// C1: pressure sensitivity.
    pub pressure_sensitivity: u16,
    /// C2: pressure offset.
    pub pressure_offset: u16,
    /// C3: temperature coefficient of pressure sensitivity.
    pub temp_coef_pressure_sensitivity: u16,
    /// C4: temperature coefficient of pressure offset.
    pub temp_coef_pressure_offset: u16,
    /// C5: reference temperature.
    pub temp_ref: u16,
    /// C6: temperature coefficient of the temperature.
    pub temp_coef_temp: u16,
}

/// Exclusive bound of a 24-bit conversion result.
pub const RAW_LIMIT: u32 = 0x100_0000;

/// Arithmetic (sign-preserving) right shift: division rounding toward
/// negative infinity.
pub open spec fn asr(x: int, n: nat) -> int {
    x / (pow2(n) as int)
}

/// Difference between the raw temperature and the scaled reference point.
pub open spec fn dt_spec(p: Prom, raw_temperature: int) -> int {
    raw_temperature - p.temp_ref as int * 256
}

/// First-order temperature, in hundredths of a degree Celsius.
pub open spec fn temperature_spec(p: Prom, raw_temperature: int) -> int {
    2000 + asr(dt_spec(p, raw_temperature) * p.temp_coef_temp as int, 23)
}

/// Whether the low-temperature (below 20.00 °C) correction applies.
pub open spec fn low_correction(t: int) -> bool {
    t < 2000
}

/// Whether the very-low-temperature (below -15.00 °C) correction applies.
pub open spec fn very_low_correction(t: int) -> bool {
    t < -1500
}

/// The low-temperature part of the second-order offset correction.
pub open spec fn low_offset2(t: int) -> int {
    asr(5 * (t - 2000) * (t - 2000), 1)
}

/// Second-order offset correction at temperature `t`.
pub open spec fn offset2_spec(t: int) -> int {
    (if low_correction(t) { low_offset2(t) } else { 0 }) + (if very_low_correction(t) {
        7 * (t + 1500) * (t + 1500)
    } else {
        0
    })
}

/// Second-order sensitivity correction at temperature `t`.
pub open spec fn sensitivity2_spec(t: int) -> int {
    (if low_correction(t) { asr(low_offset2(t), 1) } else { 0 }) + (if very_low_correction(t) {
        asr(11 * (t + 1500) * (t + 1500), 1)
    } else {
        0
    })
}

/// Pressure offset at the measured temperature, second-order corrected.
pub open spec fn offset_spec(p: Prom, raw_temperature: int) -> int {
    let dt = dt_spec(p, raw_temperature);
    p.pressure_offset as int * 65536 + asr(p.temp_coef_pressure_offset as int * dt, 7)
        - offset2_spec(temperature_spec(p, raw_temperature))
}

/// Pressure sensitivity at the measured temperature, second-order corrected.
pub open spec fn sensitivity_spec(p: Prom, raw_temperature: int) -> int {
    let dt = dt_spec(p, raw_temperature);
    p.pressure_sensitivity as int * 32768 + asr(p.temp_coef_pressure_sensitivity as int * dt, 8)
        - sensitivity2_spec(temperature_spec(p, raw_temperature))
}

/// Compensated pressure, in hundredths of a millibar.
pub open spec fn pressure_spec(p: Prom, raw_pressure: int, raw_temperature: int) -> int {
    asr(
        asr(raw_pressure * sensitivity_spec(p, raw_temperature), 21) - offset_spec(
            p,
            raw_temperature,
        ),
        15,
    )
}

/// Compensation is a function of the coefficients and the raw pair alone:
/// equal inputs give bit-identical outputs, however often it runs.
pub proof fn lemma_compensation_deterministic(
    p: Prom,
    q: Prom,
    raw_pressure: int,
    raw_temperature: int,
)
    requires
        p == q,
    ensures
        pressure_spec(p, raw_pressure, raw_temperature) == pressure_spec(
            q,
            raw_pressure,
            raw_temperature,
        ),
        temperature_spec(p, raw_temperature) == temperature_spec(q, raw_temperature),
{
}

/// The corrections switch exactly at their thresholds: none from 20.00 °C
/// up, the low-temperature one alone from -15.00 °C up to 19.99 °C, and both
/// below -15.00 °C.
pub proof fn lemma_correction_boundaries(t: int)
    ensures
        t >= 2000 ==> offset2_spec(t) == 0 && sensitivity2_spec(t) == 0,
        -1500 <= t < 2000 ==> offset2_spec(t) == low_offset2(t) && sensitivity2_spec(t) == asr(
            low_offset2(t),
            1,
        ),
        t < -1500 ==> offset2_spec(t) == low_offset2(t) + 7 * (t + 1500) * (t + 1500)
            && sensitivity2_spec(t) == asr(low_offset2(t), 1) + asr(
            11 * (t + 1500) * (t + 1500),
            1,
        ),
        t < 2000 ==> low_offset2(t) > 0,
        offset2_spec(2000) == 0,
        offset2_spec(1999) == 2,
        offset2_spec(-1500) == 30625000,
        offset2_spec(-1501) == 30642502 + 7,
{
    lemma2_to64();
    if t < 2000 {
        assert(5 * (t - 2000) * (t - 2000) >= 5) by (nonlinear_arith)
            requires
                t < 2000,
        ;
        lemma_div_is_ordered(2, 5 * (t - 2000) * (t - 2000), 2);
    }
}

/// `asr` stays within `[-b, b]` when its argument stays within `b` times the divisor.
proof fn lemma_asr_bounds(x: int, n: nat, b: int)
    requires
        b >= 0,
        -(b * pow2(n)) <= x <= b * pow2(n),
    ensures
        -b <= asr(x, n) <= b,
{
    let d = pow2(n) as int;
    lemma_pow2_pos(n);
    lemma_div_is_ordered(-(b * d), x, d);
    lemma_div_is_ordered(x, b * d, d);
    lemma_div_by_multiple(b, d);
    assert(-(b * d) == (-b) * d + 0) by (nonlinear_arith);
    lemma_fundamental_div_mod_converse(-(b * d), d, -b, 0);
}

/// Arithmetic right shift of a signed 64-bit value.
pub fn shift_right(x: i64, n: u32) -> (r: i64)
    requires
        n < 63,
    ensures
        r as int == asr(x as int, n as nat),
{
    proof {
        lemma_pow2_pos(n as nat);
    }
    let d: Ghost<int> = Ghost(pow2(n as nat) as int);
    if x >= 0 {
        let y: u64 = x as u64;
        proof {
            lemma_u64_shr_is_div(y, n as u64);
            lemma_div_is_ordered(0, y as int, d@);
            assert(-(y as int * d@) <= y as int <= y as int * d@) by (nonlinear_arith)
                requires
                    d@ >= 1,
                    y >= 0,
            ;
            lemma_asr_bounds(y as int, n as nat, y as int);
        }
        (y >> (n as u64)) as i64
    } else {
        let y: u64 = (-(x + 1)) as u64;
        proof {
            lemma_u64_shr_is_div(y, n as u64);
            let q = y as int / d@;
            let m = y as int % d@;
            lemma_fundamental_div_mod(y as int, d@);
            assert(x as int == (-q - 1) * d@ + (d@ - m - 1)) by (nonlinear_arith)
                requires
                    y as int == d@ * q + m,
                    x as int == -(y as int) - 1,
            ;
            lemma_fundamental_div_mod_converse(x as int, d@, -q - 1, d@ - m - 1);
            assert(-(y as int * d@) <= y as int <= y as int * d@) by (nonlinear_arith)
                requires
                    d@ >= 1,
                    y >= 0,
            ;
            lemma_asr_bounds(y as int, n as nat, y as int);
        }
        -((y >> (n as u64)) as i64) - 1
    }
}

/// Turns a raw pressure and a raw temperature conversion into the calibrated
/// pressure (hundredths of a millibar) and temperature (hundredths of a
/// degree Celsius), with the second-order low-temperature corrections.
pub fn compensate(prom: &Prom, raw_pressure: u32, raw_temperature: u32) -> (r: (i32, i32))
    requires
        raw_pressure < RAW_LIMIT,
        raw_temperature < RAW_LIMIT,
    ensures
        r.0 as int == pressure_spec(*prom, raw_pressure as int, raw_temperature as int),
        r.1 as int == temperature_spec(*prom, raw_temperature as int),
{
    proof {
        lemma2_to64();
    }
    let dt: i64 = raw_temperature as i64 - (prom.temp_ref as i64) * 256;
    proof {
        assert(-16777216 * 65536 <= dt * prom.temp_coef_temp <= 16777216 * 65536)
            by (nonlinear_arith)
            requires
                -16777216 <= dt <= 16777216,
                0 <= prom.temp_coef_temp <= 65535,
        ;
        lemma_asr_bounds(dt * prom.temp_coef_temp, 23, 131072);
        assert(-16777216 * 65536 <= prom.temp_coef_pressure_offset * dt <= 16777216 * 65536)
            by (nonlinear_arith)
            requires
                -16777216 <= dt <= 16777216,
                0 <= prom.temp_coef_pressure_offset <= 65535,
        ;
        lemma_asr_bounds(prom.temp_coef_pressure_offset * dt, 7, 0x2_0000_0000);
        assert(-16777216 * 65536 <= prom.temp_coef_pressure_sensitivity * dt <= 16777216 * 65536)
            by (nonlinear_arith)
            requires
                -16777216 <= dt <= 16777216,
                0 <= prom.temp_coef_pressure_sensitivity <= 65535,
        ;
        lemma_asr_bounds(prom.temp_coef_pressure_sensitivity * dt, 8, 0x1_0000_0000);
    }
    let temperature: i64 = 2000 + shift_right(dt * (prom.temp_coef_temp as i64), 23);
    let mut offset: i64 = (prom.pressure_offset as i64) * 65536 + shift_right(
        (prom.temp_coef_pressure_offset as i64) * dt,
        7,
    );
    let mut sens: i64 = (prom.pressure_sensitivity as i64) * 32768 + shift_right(
        (prom.temp_coef_pressure_sensitivity as i64) * dt,
        8,
    );

    let mut off2: i64 = 0;
    let mut sens2: i64 = 0;

    // Low temperature (below 20.00 °C).
    if temperature < 2000 {
        let d: i64 = temperature - 2000;
        proof {
            assert(0 <= 5 * d * d <= 5 * 0x4_0000_0000) by (nonlinear_arith)
                requires
                    -131072 <= d <= 0,
            ;
            lemma_asr_bounds(5 * d * d, 1, 0xa_0000_0000);
            lemma_asr_bounds(asr(5 * d * d, 1), 1, 0x5_0000_0000);
        }
        off2 = shift_right(5 * d * d, 1);
        sens2 = shift_right(off2, 1);
    }

    // Very low temperature (below -15.00 °C).
    if temperature < -1500 {
        let d: i64 = temperature + 1500;
        proof {
            assert(0 <= d * d <= 0x4_0000_0000) by (nonlinear_arith)
                requires
                    -131072 <= d <= 0,
            ;
            assert(0 <= 7 * d * d <= 0x1c_0000_0000 && 0 <= 11 * d * d <= 0x2c_0000_0000)
                by (nonlinear_arith)
                requires
                    0 <= d * d <= 0x4_0000_0000,
            ;
            lemma_asr_bounds(11 * d * d, 1, 0x16_0000_0000);
        }
        off2 = off2 + 7 * d * d;
        sens2 = sens2 + shift_right(11 * d * d, 1);
    }

    offset = offset - off2;
    sens = sens - sens2;

    proof {
        assert(-0x40_0000_0000_0000 * 256 <= raw_pressure * sens <= 0x40_0000_0000_0000 * 256)
            by (nonlinear_arith)
            requires
                0 <= raw_pressure < 0x100_0000,
                -0x40_0000_0000 <= sens <= 0x40_0000_0000,
        ;
        lemma_asr_bounds(raw_pressure * sens, 21, 0x200_0000_0000);
        lemma_asr_bounds(asr(raw_pressure * sens, 21) - offset, 15, 0x800_0000);
    }
    // Units: hundredths of a millibar.
    let pressure: i64 = shift_right(shift_right((raw_pressure as i64) * sens, 21) - offset, 15);
    (pressure as i32, temperature as i32)
}

} // verus!
