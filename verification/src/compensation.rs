//! The compensation formulas as functions on the mathematical integers.
//!
//! Each formula takes the factory coefficients and a raw sample and gives a fixed-point value.
//! Where a machine word of the formula's width could overflow, the formula says so with
//! [`wrap_i32`] or [`wrap_i64`]; everywhere else it is plain integer arithmetic. A right shift
//! by `n` bits appears as a division by `2^n`, which rounds down.

use vstd::prelude::*;
use crate::fixed_point::{clamp, trunc_div, wrap_i32, wrap_i64};

verus! {

/// The three temperature coefficients.
pub ghost struct TemperatureCoefficients {
    pub t1: int,
    pub t2: int,
    pub t3: int,
}

/// The nine pressure coefficients.
pub ghost struct PressureCoefficients {
    pub p1: int,
    pub p2: int,
    pub p3: int,
    pub p4: int,
    pub p5: int,
    pub p6: int,
    pub p7: int,
    pub p8: int,
    pub p9: int,
}

/// The six humidity coefficients.
pub ghost struct HumidityCoefficients {
    pub h1: int,
    pub h2: int,
    pub h3: int,
    pub h4: int,
    pub h5: int,
    pub h6: int,
}

/// All eighteen coefficients of one sensor.
pub ghost struct Coefficients {
    pub temperature: TemperatureCoefficients,
    pub pressure: PressureCoefficients,
    pub humidity: HumidityCoefficients,
}

/// The largest value the humidity formula lets through before its last shift: 100 %RH in
/// units of 1/4194304 %RH.
pub const HUMIDITY_CEILING: i32 = 419430400;

/// The largest humidity the formula reports: 100 %RH in units of 1/1024 %RH.
pub const HUMIDITY_MAX: u32 = 102400;

/// The fine temperature `t_fine` of a raw temperature sample, with 32-bit intermediates.
pub open spec fn temperature_fine(c: TemperatureCoefficients, raw: int) -> int {
    let linear = wrap_i32((raw / 8 - 2 * c.t1) * c.t2) / 2048;
    let offset = raw / 16 - c.t1;
    let quadratic = wrap_i32((wrap_i32(offset * offset) / 4096) * c.t3) / 16384;
    linear + quadratic
}

/// The temperature in hundredths of a degree Celsius that belongs to `t_fine`.
pub open spec fn temperature_centidegrees(t_fine: int) -> int {
    (t_fine * 5 + 128) / 256
}

/// The first polynomial term of the pressure formula: the sensitivity that the pressure
/// is divided by. With 64-bit intermediates.
pub open spec fn pressure_var1(c: PressureCoefficients, t_fine: int) -> int {
    let t = t_fine - 128000;
    let curve = wrap_i64(t * t * c.p3) / 256 + t * c.p2 * 4096;
    wrap_i64((0x8000_0000_0000 + curve) * c.p1) / 0x2_0000_0000
}

/// The second polynomial term of the pressure formula: the offset that is taken from the
/// raw sample. With 64-bit intermediates.
pub open spec fn pressure_var2(c: PressureCoefficients, t_fine: int) -> int {
    let t = t_fine - 128000;
    wrap_i64(t * t * c.p6 + t * c.p5 * 131072 + c.p4 * 0x8_0000_0000)
}

/// The pressure before its fine correction, for a sensitivity `var1` other than zero.
pub open spec fn pressure_quotient(raw: int, var1: int, var2: int) -> int {
    wrap_i64(trunc_div(wrap_i64(((1048576 - raw) * 0x8000_0000 - var2) * 3125), var1))
}

/// The pressure of a raw pressure sample in units of 1/256 Pa, as an unsigned 32-bit word:
/// zero where the sensitivity is zero.
pub open spec fn pressure_fixed(c: PressureCoefficients, raw: int, t_fine: int) -> int {
    let var1 = pressure_var1(c, t_fine);
    if var1 == 0 {
        0
    } else {
        let p = pressure_quotient(raw, var1, pressure_var2(c, t_fine));
        let fine = wrap_i64(c.p9 * (p / 8192) * (p / 8192)) / 33554432;
        let coarse = wrap_i64(c.p8 * p) / 524288;
        (wrap_i64(p + fine + coarse) / 256 + c.p7 * 16) % 0x1_0000_0000
    }
}

/// The part of the humidity formula that depends on the raw sample, with 32-bit
/// intermediates.
pub open spec fn humidity_offset(c: HumidityCoefficients, raw: int, t_fine: int) -> int {
    let t = t_fine - 76800;
    wrap_i32(raw * 16384 - c.h4 * 1048576 - c.h5 * t + 16384) / 32768
}

/// The part of the humidity formula that depends on the temperature alone, with 32-bit
/// intermediates.
pub open spec fn humidity_gain(c: HumidityCoefficients, t_fine: int) -> int {
    let t = t_fine - 76800;
    let slope = wrap_i32(t * c.h6) / 1024;
    let curve = wrap_i32(t * c.h3) / 2048 + 32768;
    let scale = wrap_i32(slope * curve) / 1024 + 2097152;
    wrap_i32(scale * c.h2 + 8192) / 16384
}

/// The humidity in units of 1/4194304 %RH before it is limited.
pub open spec fn humidity_unlimited(c: HumidityCoefficients, raw: int, t_fine: int) -> int {
    let x = wrap_i32(humidity_offset(c, raw, t_fine) * humidity_gain(c, t_fine));
    let s = x / 32768;
    wrap_i32(x - wrap_i32((wrap_i32(s * s) / 128) * c.h1) / 16)
}

/// The humidity in units of 1/4194304 %RH, limited to `[0, HUMIDITY_CEILING]`.
pub open spec fn humidity_saturated(c: HumidityCoefficients, raw: int, t_fine: int) -> int {
    clamp(humidity_unlimited(c, raw, t_fine), 0, HUMIDITY_CEILING as int)
}

/// The humidity of a raw humidity sample in units of 1/1024 %RH.
pub open spec fn humidity_fixed(c: HumidityCoefficients, raw: int, t_fine: int) -> int {
    humidity_saturated(c, raw, t_fine) / 4096
}

/// For the same coefficients and the same raw sample the fine temperature is the same.
pub proof fn lemma_temperature_is_a_function(
    a: TemperatureCoefficients,
    b: TemperatureCoefficients,
    raw_a: int,
    raw_b: int,
)
    requires
        a == b,
        raw_a == raw_b,
    ensures
        temperature_fine(a, raw_a) == temperature_fine(b, raw_b),
{
}

/// Whatever the coefficients and the inputs, the humidity lies in `[0, HUMIDITY_CEILING]`
/// before the last shift and in `[0, HUMIDITY_MAX]` after it.
pub proof fn lemma_humidity_is_saturated(c: HumidityCoefficients, raw: int, t_fine: int)
    ensures
        0 <= humidity_saturated(c, raw, t_fine) <= HUMIDITY_CEILING,
        0 <= humidity_fixed(c, raw, t_fine) <= HUMIDITY_MAX,
{
}

/// Where the sensitivity is zero the pressure is zero, whatever the raw sample.
pub proof fn lemma_pressure_is_zero_without_sensitivity(
    c: PressureCoefficients,
    raw: int,
    t_fine: int,
)
    requires
        pressure_var1(c, t_fine) == 0,
    ensures
        pressure_fixed(c, raw, t_fine) == 0,
{
}

} // verus!
