//! The factory coefficients of one sensor and the compensation of raw samples with them.

use vstd::prelude::*;
use crate::compensation::{
    humidity_fixed, humidity_gain, humidity_offset, humidity_saturated, humidity_unlimited,
    pressure_fixed, pressure_quotient, pressure_var1, pressure_var2, temperature_fine,
    Coefficients, HumidityCoefficients, PressureCoefficients, TemperatureCoefficients,
    HUMIDITY_CEILING, HUMIDITY_MAX,
};
use crate::fixed_point::{
    lemma_low_word, lemma_shl_i32, lemma_shl_i64, lemma_shr_i32, lemma_shr_i64,
    lemma_wrap_i32_add, lemma_wrap_i32_mul, lemma_wrap_i32_range, lemma_wrap_i64_add,
    lemma_wrap_i64_mul, lemma_wrap_i64_range, lemma_wrapping_i32, lemma_wrapping_i64,
    trunc_div, wrap_i32, wrap_i64,
};
use crate::i2c::constants::registers;
use crate::i2c::fields::{
    little_endian_i16, little_endian_u16, packed_with_high_nibble, packed_with_low_nibble,
    signed_byte,
};
use crate::i2c::transfer::{
    all_succeeded, bytes_read, lemma_ran_nothing, lemma_reads_joined, news, reads,
};
use crate::i2c::{AtmosphericSensorI2c, AtmosphericSensorI2cError, RegisterBus};

verus! {

/// The registers that hold the temperature coefficients, in the order in which they are
/// read.
pub open spec fn temperature_registers() -> Seq<u8> {
    seq![
        registers::DIG_T1_LSB_REG,
        registers::DIG_T1_MSB_REG,
        registers::DIG_T2_LSB_REG,
        registers::DIG_T2_MSB_REG,
        registers::DIG_T3_LSB_REG,
        registers::DIG_T3_MSB_REG,
    ]
}

/// The temperature coefficients that the bytes of [`temperature_registers`] hold.
pub open spec fn temperature_coefficients(bytes: Seq<u8>) -> TemperatureCoefficients {
    TemperatureCoefficients {
        t1: little_endian_u16(bytes[0], bytes[1]),
        t2: little_endian_i16(bytes[2], bytes[3]),
        t3: little_endian_i16(bytes[4], bytes[5]),
    }
}

/// The temperature coefficients as the sensor stores them.
pub struct TemperatureCalibration {
    t1: u16,
    t2: i16,
    t3: i16,
}

impl View for TemperatureCalibration {
    type V = TemperatureCoefficients;

    closed spec fn view(&self) -> TemperatureCoefficients {
        TemperatureCoefficients { t1: self.t1 as int, t2: self.t2 as int, t3: self.t3 as int }
    }
}

impl TemperatureCalibration {
    /// Puts the three coefficients together.
    pub fn new(t1: u16, t2: i16, t3: i16) -> (r: TemperatureCalibration)
        ensures
            r@ == (TemperatureCoefficients { t1: t1 as int, t2: t2 as int, t3: t3 as int }),
    {
        TemperatureCalibration { t1, t2, t3 }
    }

    /// Reads the temperature coefficients from the sensor. Any read that fails ends the
    /// attempt with an I/O error.
    pub fn build<I2C: RegisterBus>(dev: &mut AtmosphericSensorI2c<I2C>) -> (r: Result<
        TemperatureCalibration,
        AtmosphericSensorI2cError,
    >)
        ensures
            final(dev).did(old(dev), reads(temperature_registers())),
            match r {
                Ok(calibration) => {
                    &&& all_succeeded(final(dev).since(old(dev)))
                    &&& calibration@ == temperature_coefficients(
                        bytes_read(final(dev).since(old(dev))),
                    )
                },
                Err(e) => {
                    &&& !all_succeeded(final(dev).since(old(dev)))
                    &&& e == AtmosphericSensorI2cError::IOError
                },
            },
    {
        let ghost all = temperature_registers();
        let ghost s0 = dev.transfers();
        proof {
            lemma_ran_nothing(s0, all);
        }
        let r1 = dev.get_t1();
        let ghost s1 = dev.transfers();
        proof {
            assert(all.subrange(0, 2) =~= seq![
                registers::DIG_T1_LSB_REG,
                registers::DIG_T1_MSB_REG,
            ]);
            lemma_reads_joined(s0, s0, s1, all, 0, 2);
        }
        let t1 = match r1 {
            Ok(value) => value,
            Err(e) => {
                return Err(e);
            },
        };
        let r2 = dev.get_t2();
        let ghost s2 = dev.transfers();
        proof {
            assert(all.subrange(2, 4) =~= seq![
                registers::DIG_T2_LSB_REG,
                registers::DIG_T2_MSB_REG,
            ]);
            lemma_reads_joined(s0, s1, s2, all, 2, 4);
        }
        let t2 = match r2 {
            Ok(value) => value,
            Err(e) => {
                return Err(e);
            },
        };
        let r3 = dev.get_t3();
        let ghost s3 = dev.transfers();
        proof {
            assert(all.subrange(4, 6) =~= seq![
                registers::DIG_T3_LSB_REG,
                registers::DIG_T3_MSB_REG,
            ]);
            lemma_reads_joined(s0, s2, s3, all, 4, 6);
            assert(all.take(6) =~= all);
        }
        let t3 = match r3 {
            Ok(value) => value,
            Err(e) => {
                return Err(e);
            },
        };
        Ok(Self::new(t1, t2, t3))
    }

    /// Turns a raw temperature sample into the fine temperature that the pressure and
    /// humidity formulas take. The result depends on the coefficients and the sample alone.
    pub fn compensate_temperature(self: &Self, adc_t: i32) -> (t_fine: i32)
        ensures
            t_fine == temperature_fine(self@, adc_t as int),
            -0x12_0000 <= t_fine < 0x12_0000,
    {
        let t1 = self.t1 as i32;
        let t2 = self.t2 as i32;
        let t3 = self.t3 as i32;
        proof {
            lemma_shr_i32(adc_t);
            lemma_shl_i32(t1);
            lemma_wrap_i32_range(t1 * 2);
        }
        let coarse = (adc_t >> 3) - (t1 << 1);
        let scaled = coarse.wrapping_mul(t2);
        let var1 = scaled >> 11;
        let offset = (adc_t >> 4) - t1;
        let square = offset.wrapping_mul(offset);
        let curved = (square >> 12).wrapping_mul(t3);
        let var2 = curved >> 14;
        proof {
            lemma_wrapping_i32(coarse, t2);
            lemma_shr_i32(scaled);
            lemma_wrapping_i32(offset, offset);
            lemma_shr_i32(square);
            lemma_wrapping_i32(square >> 12, t3);
            lemma_shr_i32(curved);
        }
        var1 + var2
    }
}

/// The registers that hold the pressure coefficients, in the order in which they are read.
pub open spec fn pressure_registers() -> Seq<u8> {
    seq![
        registers::DIG_P1_LSB_REG,
        registers::DIG_P1_MSB_REG,
        registers::DIG_P2_LSB_REG,
        registers::DIG_P2_MSB_REG,
        registers::DIG_P3_LSB_REG,
        registers::DIG_P3_MSB_REG,
        registers::DIG_P4_LSB_REG,
        registers::DIG_P4_MSB_REG,
        registers::DIG_P5_LSB_REG,
        registers::DIG_P5_MSB_REG,
        registers::DIG_P6_LSB_REG,
        registers::DIG_P6_MSB_REG,
        registers::DIG_P7_LSB_REG,
        registers::DIG_P7_MSB_REG,
        registers::DIG_P8_LSB_REG,
        registers::DIG_P8_MSB_REG,
        registers::DIG_P9_LSB_REG,
        registers::DIG_P9_MSB_REG,
    ]
}

/// The pressure coefficients that the bytes of [`pressure_registers`] hold.
pub open spec fn pressure_coefficients(bytes: Seq<u8>) -> PressureCoefficients {
    PressureCoefficients {
        p1: little_endian_u16(bytes[0], bytes[1]),
        p2: little_endian_i16(bytes[2], bytes[3]),
        p3: little_endian_i16(bytes[4], bytes[5]),
        p4: little_endian_i16(bytes[6], bytes[7]),
        p5: little_endian_i16(bytes[8], bytes[9]),
        p6: little_endian_i16(bytes[10], bytes[11]),
        p7: little_endian_i16(bytes[12], bytes[13]),
        p8: little_endian_i16(bytes[14], bytes[15]),
        p9: little_endian_i16(bytes[16], bytes[17]),
    }
}

/// Where in [`pressure_registers`] the two registers of each coefficient stand.
proof fn lemma_pressure_register_pairs()
    ensures
        pressure_registers().len() == 18,
        pressure_registers().take(18) == pressure_registers(),
        pressure_registers().subrange(0, 2) == seq![
            registers::DIG_P1_LSB_REG,
            registers::DIG_P1_MSB_REG,
        ],
        pressure_registers().subrange(2, 4) == seq![
            registers::DIG_P2_LSB_REG,
            registers::DIG_P2_MSB_REG,
        ],
        pressure_registers().subrange(4, 6) == seq![
            registers::DIG_P3_LSB_REG,
            registers::DIG_P3_MSB_REG,
        ],
        pressure_registers().subrange(6, 8) == seq![
            registers::DIG_P4_LSB_REG,
            registers::DIG_P4_MSB_REG,
        ],
        pressure_registers().subrange(8, 10) == seq![
            registers::DIG_P5_LSB_REG,
            registers::DIG_P5_MSB_REG,
        ],
        pressure_registers().subrange(10, 12) == seq![
            registers::DIG_P6_LSB_REG,
            registers::DIG_P6_MSB_REG,
        ],
        pressure_registers().subrange(12, 14) == seq![
            registers::DIG_P7_LSB_REG,
            registers::DIG_P7_MSB_REG,
        ],
        pressure_registers().subrange(14, 16) == seq![
            registers::DIG_P8_LSB_REG,
            registers::DIG_P8_MSB_REG,
        ],
        pressure_registers().subrange(16, 18) == seq![
            registers::DIG_P9_LSB_REG,
            registers::DIG_P9_MSB_REG,
        ],
{
    let all = pressure_registers();
    assert(all.take(18) =~= all);
    assert(all.subrange(0, 2) =~= seq![registers::DIG_P1_LSB_REG, registers::DIG_P1_MSB_REG]);
    assert(all.subrange(2, 4) =~= seq![registers::DIG_P2_LSB_REG, registers::DIG_P2_MSB_REG]);
    assert(all.subrange(4, 6) =~= seq![registers::DIG_P3_LSB_REG, registers::DIG_P3_MSB_REG]);
    assert(all.subrange(6, 8) =~= seq![registers::DIG_P4_LSB_REG, registers::DIG_P4_MSB_REG]);
    assert(all.subrange(8, 10) =~= seq![registers::DIG_P5_LSB_REG, registers::DIG_P5_MSB_REG]);
    assert(all.subrange(10, 12) =~= seq![registers::DIG_P6_LSB_REG, registers::DIG_P6_MSB_REG]);
    assert(all.subrange(12, 14) =~= seq![registers::DIG_P7_LSB_REG, registers::DIG_P7_MSB_REG]);
    assert(all.subrange(14, 16) =~= seq![registers::DIG_P8_LSB_REG, registers::DIG_P8_MSB_REG]);
    assert(all.subrange(16, 18) =~= seq![registers::DIG_P9_LSB_REG, registers::DIG_P9_MSB_REG]);
}

/// The pressure coefficients as the sensor stores them.
pub struct PressureCalibration {
    p1: u16,
    p2: i16,
    p3: i16,
    p4: i16,
    p5: i16,
    p6: i16,
    p7: i16,
    p8: i16,
    p9: i16,
}

impl View for PressureCalibration {
    type V = PressureCoefficients;

    closed spec fn view(&self) -> PressureCoefficients {
        PressureCoefficients {
            p1: self.p1 as int,
            p2: self.p2 as int,
            p3: self.p3 as int,
            p4: self.p4 as int,
            p5: self.p5 as int,
            p6: self.p6 as int,
            p7: self.p7 as int,
            p8: self.p8 as int,
            p9: self.p9 as int,
        }
    }
}

/// The square of `t_fine - 128000` fits a 64-bit word, and so does its product with a
/// 16-bit coefficient shifted left by twelve bits.
proof fn lemma_pressure_terms_fit(t: int, k: int)
    requires
        i32::MIN - 128000 <= t <= i32::MAX - 128000,
        i16::MIN <= k <= i16::MAX,
    ensures
        0 <= t * t <= 0x4100_0000_0000_0000,
        -0x8000_0000_0000 <= t * k <= 0x8000_0000_0000,
        -0x800_0000_0000_0000 <= t * k * 4096 <= 0x800_0000_0000_0000,
{
    assert(0 <= t * t <= 0x4100_0000_0000_0000) by (nonlinear_arith)
        requires
            -0x8000_0000 - 128000 <= t <= 0x7fff_ffff - 128000,
    ;
    assert(-0x8000_0000_0000 <= t * k <= 0x8000_0000_0000) by (nonlinear_arith)
        requires
            -0x8000_0000 - 128000 <= t <= 0x7fff_ffff - 128000,
            -0x8000 <= k <= 0x7fff,
    ;
}

impl PressureCalibration {
    /// Puts the nine coefficients together.
    pub fn new(
        p1: u16,
        p2: i16,
        p3: i16,
        p4: i16,
        p5: i16,
        p6: i16,
        p7: i16,
        p8: i16,
        p9: i16,
    ) -> (r: PressureCalibration)
        ensures
            r@ == (PressureCoefficients {
                p1: p1 as int,
                p2: p2 as int,
                p3: p3 as int,
                p4: p4 as int,
                p5: p5 as int,
                p6: p6 as int,
                p7: p7 as int,
                p8: p8 as int,
                p9: p9 as int,
            }),
    {
        PressureCalibration { p1, p2, p3, p4, p5, p6, p7, p8, p9 }
    }

    /// Reads the pressure coefficients from the sensor. Any read that fails ends the
    /// attempt with an I/O error.
    pub fn build<I2C: RegisterBus>(dev: &mut AtmosphericSensorI2c<I2C>) -> (r: Result<
        PressureCalibration,
        AtmosphericSensorI2cError,
    >)
        ensures
            final(dev).did(old(dev), reads(pressure_registers())),
            match r {
                Ok(calibration) => {
                    &&& all_succeeded(final(dev).since(old(dev)))
                    &&& calibration@ == pressure_coefficients(
                        bytes_read(final(dev).since(old(dev))),
                    )
                },
                Err(e) => {
                    &&& !all_succeeded(final(dev).since(old(dev)))
                    &&& e == AtmosphericSensorI2cError::IOError
                },
            },
    {
        let ghost all = pressure_registers();
        let ghost s0 = dev.transfers();
        proof {
            lemma_ran_nothing(s0, all);
            lemma_pressure_register_pairs();
        }
        let r1 = dev.get_p1();
        let ghost s1 = dev.transfers();
        proof {
            lemma_reads_joined(s0, s0, s1, all, 0, 2);
        }
        let p1 = match r1 {
            Ok(value) => value,
            Err(e) => {
                return Err(e);
            },
        };
        let r2 = dev.get_p2();
        let ghost s2 = dev.transfers();
        proof {
            lemma_reads_joined(s0, s1, s2, all, 2, 4);
        }
        let p2 = match r2 {
            Ok(value) => value,
            Err(e) => {
                return Err(e);
            },
        };
        let r3 = dev.get_p3();
        let ghost s3 = dev.transfers();
        proof {
            lemma_reads_joined(s0, s2, s3, all, 4, 6);
        }
        let p3 = match r3 {
            Ok(value) => value,
            Err(e) => {
                return Err(e);
            },
        };
        let r4 = dev.get_p4();
        let ghost s4 = dev.transfers();
        proof {
            lemma_reads_joined(s0, s3, s4, all, 6, 8);
        }
        let p4 = match r4 {
            Ok(value) => value,
            Err(e) => {
                return Err(e);
            },
        };
        let r5 = dev.get_p5();
        let ghost s5 = dev.transfers();
        proof {
            lemma_reads_joined(s0, s4, s5, all, 8, 10);
        }
        let p5 = match r5 {
            Ok(value) => value,
            Err(e) => {
                return Err(e);
            },
        };
        let r6 = dev.get_p6();
        let ghost s6 = dev.transfers();
        proof {
            lemma_reads_joined(s0, s5, s6, all, 10, 12);
        }
        let p6 = match r6 {
            Ok(value) => value,
            Err(e) => {
                return Err(e);
            },
        };
        let r7 = dev.get_p7();
        let ghost s7 = dev.transfers();
        proof {
            lemma_reads_joined(s0, s6, s7, all, 12, 14);
        }
        let p7 = match r7 {
            Ok(value) => value,
            Err(e) => {
                return Err(e);
            },
        };
        let r8 = dev.get_p8();
        let ghost s8 = dev.transfers();
        proof {
            lemma_reads_joined(s0, s7, s8, all, 14, 16);
        }
        let p8 = match r8 {
            Ok(value) => value,
            Err(e) => {
                return Err(e);
            },
        };
        let r9 = dev.get_p9();
        let ghost s9 = dev.transfers();
        proof {
            lemma_reads_joined(s0, s8, s9, all, 16, 18);
        }
        let p9 = match r9 {
            Ok(value) => value,
            Err(e) => {
                return Err(e);
            },
        };
        Ok(Self::new(p1, p2, p3, p4, p5, p6, p7, p8, p9))
    }

    /// The sensitivity term of the pressure formula.
    fn sensitivity(&self, t_fine: i32) -> (var1: i64)
        ensures
            var1 == pressure_var1(self@, t_fine as int),
    {
        let t = t_fine as i64 - 128000;
        let p1 = self.p1 as i64;
        let p2 = self.p2 as i64;
        let p3 = self.p3 as i64;
        let square = t.wrapping_mul(t);
        let cubic = square.wrapping_mul(p3);
        let slope = t.wrapping_mul(p2);
        proof {
            lemma_pressure_terms_fit(t as int, p2 as int);
            lemma_wrapping_i64(t, t);
            lemma_wrap_i64_range(t * t);
            lemma_wrapping_i64(square, p3);
            lemma_wrapping_i64(t, p2);
            lemma_wrap_i64_range(t * p2);
            lemma_shr_i64(cubic);
            lemma_shl_i64(slope);
            lemma_wrap_i64_range(slope * 4096);
        }
        let curve = (cubic >> 8) + (slope << 12);
        let raised = 0x8000_0000_0000i64 + curve;
        let scaled = raised.wrapping_mul(p1);
        proof {
            lemma_wrapping_i64(raised, p1);
            lemma_shr_i64(scaled);
        }
        scaled >> 33
    }

    /// The offset term of the pressure formula.
    fn offset(&self, t_fine: i32) -> (var2: i64)
        ensures
            var2 == pressure_var2(self@, t_fine as int),
    {
        let t = t_fine as i64 - 128000;
        let p4 = self.p4 as i64;
        let p5 = self.p5 as i64;
        let p6 = self.p6 as i64;
        let square = t.wrapping_mul(t);
        let cubic = square.wrapping_mul(p6);
        let slope = t.wrapping_mul(p5);
        let var2 = cubic.wrapping_add(slope << 17);
        let var2 = var2.wrapping_add(p4 << 35);
        proof {
            let a = t * t * p6;
            let b = t * p5 * 131072;
            let c = p4 * 0x8_0000_0000;
            lemma_pressure_terms_fit(t as int, p5 as int);
            lemma_wrapping_i64(t, t);
            lemma_wrap_i64_range(t * t);
            lemma_wrapping_i64(square, p6);
            assert(cubic == wrap_i64(a));
            lemma_wrapping_i64(t, p5);
            lemma_wrap_i64_range(t * p5);
            lemma_shl_i64(slope);
            assert((slope << 17) == wrap_i64(b));
            lemma_shl_i64(p4);
            assert((p4 << 35) == wrap_i64(c));
            lemma_wrapping_i64(cubic, slope << 17);
            lemma_wrap_i64_add(a, wrap_i64(b));
            lemma_wrap_i64_add(a, b);
            assert(cubic.wrapping_add(slope << 17) == wrap_i64(a + b));
            lemma_wrapping_i64(cubic.wrapping_add(slope << 17), p4 << 35);
            lemma_wrap_i64_add(a + b, wrap_i64(c));
            lemma_wrap_i64_add(a + b, c);
        }
        var2
    }

    /// Turns a raw pressure sample into a pressure in units of 1/256 Pa, with the fine
    /// temperature of the same measurement. Where the sensitivity term is zero the result
    /// is zero and nothing is divided.
    pub fn compensate_pressure(self: &Self, adc_p: i32, t_fine: i32) -> (pressure: u32)
        ensures
            pressure == pressure_fixed(self@, adc_p as int, t_fine as int),
            pressure_var1(self@, t_fine as int) == 0 ==> pressure == 0,
    {
        let var1 = self.sensitivity(t_fine);
        let var2 = self.offset(t_fine);

        if var1 == 0 {
            0
        } else {
            let p7 = self.p7 as i64;
            let p8 = self.p8 as i64;
            let p9 = self.p9 as i64;
            let p = 1_048_576 - adc_p as i64;
            proof {
                lemma_shl_i64(p);
                lemma_wrap_i64_range(p * 0x8000_0000);
            }
            let numerator = (p << 31).wrapping_sub(var2).wrapping_mul(3125);
            proof {
                let d = p * 0x8000_0000 - var2;
                lemma_wrapping_i64(p << 31, var2);
                lemma_wrapping_i64((p << 31).wrapping_sub(var2), 3125);
                lemma_wrap_i64_mul(d, 3125);
                assert(numerator == wrap_i64(d * 3125));
            }
            let p = match numerator.checked_div(var1) {
                Some(quotient) => quotient,
                None => i64::MIN,
            };
            proof {
                lemma_wrap_i64_range(trunc_div(numerator as int, var1 as int));
                reveal(wrap_i64);
                assert(p == pressure_quotient(adc_p as int, var1 as int, var2 as int));
            }
            let step = p >> 13;
            let fine = p9.wrapping_mul(step).wrapping_mul(step);
            let coarse = p8.wrapping_mul(p);
            proof {
                lemma_shr_i64(p);
                lemma_wrapping_i64(p9, step);
                lemma_wrapping_i64(p9.wrapping_mul(step), step);
                lemma_wrap_i64_mul(p9 * step, step as int);
                assert(fine == wrap_i64(p9 * step * step));
                lemma_wrapping_i64(p8, p);
                lemma_shr_i64(fine);
                lemma_shr_i64(coarse);
            }
            let var1 = fine >> 25;
            let var2 = coarse >> 19;
            let sum = p.wrapping_add(var1).wrapping_add(var2);
            proof {
                lemma_wrapping_i64(p, var1);
                lemma_wrapping_i64(p.wrapping_add(var1), var2);
                lemma_wrap_i64_add(p + var1, var2 as int);
                assert(sum == wrap_i64(p + var1 + var2));
                lemma_shr_i64(sum);
                lemma_shl_i64(p7);
                lemma_wrap_i64_range(p7 * 16);
            }
            let p = (sum >> 8) + (p7 << 4);
            proof {
                lemma_low_word(p);
            }
            let output = p as u32;
            output
        }
    }
}

/// The registers that hold the humidity coefficients, in the order in which they are
/// read. The register that the fourth and the fifth coefficient share stands twice: it is
/// read once for each.
pub open spec fn humidity_registers() -> Seq<u8> {
    seq![
        registers::DIG_H1_REG,
        registers::DIG_H2_LSB_REG,
        registers::DIG_H2_MSB_REG,
        registers::DIG_H3_REG,
        registers::DIG_H4_MSB_REG,
        registers::DIG_H4_LSB_REG,
        registers::DIG_H5_MSB_REG,
        registers::DIG_H4_LSB_REG,
        registers::DIG_H6_REG,
    ]
}

/// The humidity coefficients that the bytes of [`humidity_registers`] hold.
pub open spec fn humidity_coefficients(bytes: Seq<u8>) -> HumidityCoefficients {
    HumidityCoefficients {
        h1: bytes[0] as int,
        h2: little_endian_i16(bytes[1], bytes[2]),
        h3: bytes[3] as int,
        h4: packed_with_low_nibble(bytes[4], bytes[5]),
        h5: packed_with_high_nibble(bytes[6], bytes[7]),
        h6: signed_byte(bytes[8]),
    }
}

/// The humidity coefficients as the sensor stores them.
pub struct HumidityCalibration {
    h1: u8,
    h2: i16,
    h3: u8,
    h4: i16,
    h5: i16,
    h6: i8,
}

impl View for HumidityCalibration {
    type V = HumidityCoefficients;

    closed spec fn view(&self) -> HumidityCoefficients {
        HumidityCoefficients {
            h1: self.h1 as int,
            h2: self.h2 as int,
            h3: self.h3 as int,
            h4: self.h4 as int,
            h5: self.h5 as int,
            h6: self.h6 as int,
        }
    }
}

impl HumidityCalibration {
    /// Puts the six coefficients together.
    pub fn new(h1: u8, h2: i16, h3: u8, h4: i16, h5: i16, h6: i8) -> (r: HumidityCalibration)
        ensures
            r@ == (HumidityCoefficients {
                h1: h1 as int,
                h2: h2 as int,
                h3: h3 as int,
                h4: h4 as int,
                h5: h5 as int,
                h6: h6 as int,
            }),
    {
        HumidityCalibration { h1, h2, h3, h4, h5, h6 }
    }

    /// Reads the humidity coefficients from the sensor. Any read that fails ends the
    /// attempt with an I/O error.
    pub fn build<I2C: RegisterBus>(dev: &mut AtmosphericSensorI2c<I2C>) -> (r: Result<
        HumidityCalibration,
        AtmosphericSensorI2cError,
    >)
        ensures
            final(dev).did(old(dev), reads(humidity_registers())),
            match r {
                Ok(calibration) => {
                    &&& all_succeeded(final(dev).since(old(dev)))
                    &&& calibration@ == humidity_coefficients(
                        bytes_read(final(dev).since(old(dev))),
                    )
                },
                Err(e) => {
                    &&& !all_succeeded(final(dev).since(old(dev)))
                    &&& e == AtmosphericSensorI2cError::IOError
                },
            },
    {
        let ghost all = humidity_registers();
        let ghost s0 = dev.transfers();
        proof {
            lemma_ran_nothing(s0, all);
        }
        let r1 = dev.get_h1();
        let ghost s1 = dev.transfers();
        proof {
            assert(all.subrange(0, 1) =~= seq![registers::DIG_H1_REG]);
            lemma_reads_joined(s0, s0, s1, all, 0, 1);
        }
        let h1 = match r1 {
            Ok(value) => value,
            Err(e) => {
                return Err(e);
            },
        };
        let r2 = dev.get_h2();
        let ghost s2 = dev.transfers();
        proof {
            assert(all.subrange(1, 3) =~= seq![
                registers::DIG_H2_LSB_REG,
                registers::DIG_H2_MSB_REG,
            ]);
            lemma_reads_joined(s0, s1, s2, all, 1, 3);
        }
        let h2 = match r2 {
            Ok(value) => value,
            Err(e) => {
                return Err(e);
            },
        };
        let r3 = dev.get_h3();
        let ghost s3 = dev.transfers();
        proof {
            assert(all.subrange(3, 4) =~= seq![registers::DIG_H3_REG]);
            lemma_reads_joined(s0, s2, s3, all, 3, 4);
        }
        let h3 = match r3 {
            Ok(value) => value,
            Err(e) => {
                return Err(e);
            },
        };
        let r4 = dev.get_h4();
        let ghost s4 = dev.transfers();
        proof {
            assert(all.subrange(4, 6) =~= seq![
                registers::DIG_H4_MSB_REG,
                registers::DIG_H4_LSB_REG,
            ]);
            lemma_reads_joined(s0, s3, s4, all, 4, 6);
        }
        let h4 = match r4 {
            Ok(value) => value,
            Err(e) => {
                return Err(e);
            },
        };
        let r5 = dev.get_h5();
        let ghost s5 = dev.transfers();
        proof {
            assert(all.subrange(6, 8) =~= seq![
                registers::DIG_H5_MSB_REG,
                registers::DIG_H4_LSB_REG,
            ]);
            lemma_reads_joined(s0, s4, s5, all, 6, 8);
        }
        let h5 = match r5 {
            Ok(value) => value,
            Err(e) => {
                return Err(e);
            },
        };
        let r6 = dev.get_h6();
        let ghost s6 = dev.transfers();
        proof {
            assert(all.subrange(8, 9) =~= seq![registers::DIG_H6_REG]);
            lemma_reads_joined(s0, s5, s6, all, 8, 9);
            assert(all.take(9) =~= all);
        }
        let h6 = match r6 {
            Ok(value) => value,
            Err(e) => {
                return Err(e);
            },
        };
        Ok(Self::new(h1, h2, h3, h4, h5, h6))
    }

    /// The part of the humidity formula that depends on the raw sample.
    fn offset(&self, adc_h: i32, t_fine: i32) -> (r: i32)
        ensures
            r == humidity_offset(self@, adc_h as int, t_fine as int),
    {
        let h4 = self.h4 as i32;
        let h5 = self.h5 as i32;
        let var1 = t_fine.wrapping_sub(76800);
        let sample = adc_h << 14;
        let zero = h4 << 20;
        let drift = h5.wrapping_mul(var1);
        let sum = sample.wrapping_sub(zero).wrapping_sub(drift).wrapping_add(16384);
        proof {
            let a = adc_h * 16384;
            let b = h4 * 1048576;
            let c = h5 * (t_fine - 76800);
            lemma_wrapping_i32(t_fine, 76800);
            lemma_shl_i32(adc_h);
            lemma_shl_i32(h4);
            lemma_wrapping_i32(h5, var1);
            lemma_wrap_i32_mul(h5 as int, t_fine - 76800);
            assert(drift == wrap_i32(c));
            lemma_wrapping_i32(sample, zero);
            lemma_wrap_i32_add(a, wrap_i32(b));
            lemma_wrap_i32_add(a, b);
            assert(sample.wrapping_sub(zero) == wrap_i32(a - b));
            lemma_wrapping_i32(sample.wrapping_sub(zero), drift);
            lemma_wrap_i32_add(a - b, wrap_i32(c));
            lemma_wrap_i32_add(a - b, c);
            assert(sample.wrapping_sub(zero).wrapping_sub(drift) == wrap_i32(a - b - c));
            lemma_wrapping_i32(sample.wrapping_sub(zero).wrapping_sub(drift), 16384);
            lemma_wrap_i32_add(a - b - c, 16384);
            assert(sum == wrap_i32(a - b - c + 16384));
            lemma_shr_i32(sum);
        }
        sum >> 15
    }

    /// The part of the humidity formula that depends on the temperature alone.
    fn gain(&self, t_fine: i32) -> (r: i32)
        ensures
            r == humidity_gain(self@, t_fine as int),
    {
        let h2 = self.h2 as i32;
        let h3 = self.h3 as i32;
        let h6 = self.h6 as i32;
        let var1 = t_fine.wrapping_sub(76800);
        let rise = var1.wrapping_mul(h6);
        let bend = var1.wrapping_mul(h3);
        proof {
            lemma_wrapping_i32(t_fine, 76800);
            lemma_wrapping_i32(var1, h6);
            lemma_wrap_i32_mul(t_fine - 76800, h6 as int);
            lemma_wrapping_i32(var1, h3);
            lemma_wrap_i32_mul(t_fine - 76800, h3 as int);
            lemma_shr_i32(rise);
            lemma_shr_i32(bend);
        }
        let slope = rise >> 10;
        let curve = (bend >> 11) + 32768;
        let product = slope.wrapping_mul(curve);
        proof {
            lemma_wrapping_i32(slope, curve);
            lemma_shr_i32(product);
        }
        let scale = (product >> 10) + 2097152;
        let scaled = scale.wrapping_mul(h2).wrapping_add(8192);
        proof {
            lemma_wrapping_i32(scale, h2);
            lemma_wrapping_i32(scale.wrapping_mul(h2), 8192);
            lemma_wrap_i32_add(scale * h2, 8192);
            lemma_shr_i32(scaled);
        }
        scaled >> 14
    }

    /// Turns a raw humidity sample into a relative humidity in units of 1/1024 %RH, with the
    /// fine temperature of the same measurement. The value is limited to
    /// `[0, HUMIDITY_CEILING]` before its last shift, so the result never exceeds
    /// `HUMIDITY_MAX`.
    pub fn compensate_humidity(self: &Self, adc_h: i32, t_fine: i32) -> (humidity: u32)
        ensures
            humidity == humidity_fixed(self@, adc_h as int, t_fine as int),
            humidity <= HUMIDITY_MAX,
    {
        let h1 = self.h1 as i32;
        let mut var1 = self.offset(adc_h, t_fine).wrapping_mul(self.gain(t_fine));
        proof {
            lemma_wrapping_i32(
                humidity_offset(self@, adc_h as int, t_fine as int) as i32,
                humidity_gain(self@, t_fine as int) as i32,
            );
            lemma_shr_i32(var1);
        }
        let step = var1 >> 15;
        let square = step.wrapping_mul(step);
        proof {
            lemma_wrapping_i32(step, step);
            lemma_shr_i32(square);
        }
        let weighted = (square >> 7).wrapping_mul(h1);
        proof {
            lemma_wrapping_i32(square >> 7, h1);
            lemma_shr_i32(weighted);
            lemma_wrapping_i32(var1, weighted >> 4);
        }
        var1 = var1.wrapping_sub(weighted >> 4);
        assert(var1 == humidity_unlimited(self@, adc_h as int, t_fine as int));
        if var1 < 0 {
            var1 = 0;
        } else if var1 > HUMIDITY_CEILING {
            var1 = HUMIDITY_CEILING;
        }
        assert(var1 == humidity_saturated(self@, adc_h as int, t_fine as int));
        proof {
            lemma_shr_i32(var1);
        }
        (var1 >> 12) as u32
    }
}

/// The registers that hold the coefficients, in the order in which they are read.
pub open spec fn calibration_registers() -> Seq<u8> {
    temperature_registers() + pressure_registers() + humidity_registers()
}

/// The coefficients that the bytes of [`calibration_registers`] hold.
pub open spec fn coefficients(bytes: Seq<u8>) -> Coefficients {
    Coefficients {
        temperature: temperature_coefficients(bytes.subrange(0, 6)),
        pressure: pressure_coefficients(bytes.subrange(6, 24)),
        humidity: humidity_coefficients(bytes.subrange(24, 33)),
    }
}

/// The factory coefficients of one sensor.
pub struct Calibration {
    pub temperature: TemperatureCalibration,
    pub pressure: PressureCalibration,
    pub humidity: HumidityCalibration,
}

impl View for Calibration {
    type V = Coefficients;

    open spec fn view(&self) -> Coefficients {
        Coefficients {
            temperature: self.temperature@,
            pressure: self.pressure@,
            humidity: self.humidity@,
        }
    }
}

impl Calibration {
    /// Puts the coefficients of the three quantities together.
    pub fn new(
        temperature: TemperatureCalibration,
        pressure: PressureCalibration,
        humidity: HumidityCalibration,
    ) -> (r: Calibration)
        ensures
            r.temperature == temperature,
            r.pressure == pressure,
            r.humidity == humidity,
    {
        Calibration { temperature, pressure, humidity }
    }

    /// Reads all coefficients from the sensor: those for temperature, then those for
    /// pressure, then those for humidity. Either every read completes and the result holds
    /// all eighteen coefficients, or the first read that fails ends the attempt with an
    /// I/O error and no coefficient is given out.
    pub fn build<I2C: RegisterBus>(dev: &mut AtmosphericSensorI2c<I2C>) -> (r: Result<
        Calibration,
        AtmosphericSensorI2cError,
    >)
        ensures
            final(dev).did(old(dev), reads(calibration_registers())),
            match r {
                Ok(calibration) => {
                    &&& all_succeeded(final(dev).since(old(dev)))
                    &&& calibration@ == coefficients(bytes_read(final(dev).since(old(dev))))
                },
                Err(e) => {
                    &&& !all_succeeded(final(dev).since(old(dev)))
                    &&& e == AtmosphericSensorI2cError::IOError
                },
            },
    {
        let ghost all = calibration_registers();
        let ghost s0 = dev.transfers();
        proof {
            lemma_ran_nothing(s0, all);
        }
        let r1 = TemperatureCalibration::build(dev);
        let ghost s1 = dev.transfers();
        proof {
            assert(all.subrange(0, 6) =~= temperature_registers());
            lemma_reads_joined(s0, s0, s1, all, 0, 6);
        }
        let temperature = match r1 {
            Ok(value) => value,
            Err(e) => {
                return Err(e);
            },
        };
        let r2 = PressureCalibration::build(dev);
        let ghost s2 = dev.transfers();
        proof {
            assert(all.subrange(6, 24) =~= pressure_registers());
            lemma_reads_joined(s0, s1, s2, all, 6, 24);
        }
        let pressure = match r2 {
            Ok(value) => value,
            Err(e) => {
                return Err(e);
            },
        };
        let r3 = HumidityCalibration::build(dev);
        let ghost s3 = dev.transfers();
        proof {
            assert(all.subrange(24, 33) =~= humidity_registers());
            lemma_reads_joined(s0, s2, s3, all, 24, 33);
            assert(all.take(33) =~= all);
        }
        let humidity = match r3 {
            Ok(value) => value,
            Err(e) => {
                return Err(e);
            },
        };
        proof {
            let bytes = bytes_read(news(s0, s3));
            assert(bytes.subrange(0, 6) =~= bytes_read(news(s0, s1)));
            assert(bytes.subrange(6, 24) =~= bytes_read(news(s1, s2)));
            assert(bytes.subrange(24, 33) =~= bytes_read(news(s2, s3)));
        }
        Ok(Self::new(temperature, pressure, humidity))
    }
}

} // verus!