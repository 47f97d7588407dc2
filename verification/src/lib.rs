//! Driver core for a combined temperature, pressure and humidity sensor on a two-wire bus.
//!
//! The sensor gives raw samples and, once, the factory coefficients that turn them into
//! physical values. [`calibration`] holds the coefficients and the three compensation
//! functions, [`compensation`] the formulas they compute, [`i2c`] the register map and the
//! traffic on the bus. [`AtmosphericSensor`] puts them together: it reads the coefficients
//! when it is made and compensates each sample it reads.

pub mod calibration;
pub mod compensation;
pub mod fixed_point;
pub mod i2c;

use vstd::prelude::*;
use calibration::{calibration_registers, coefficients, Calibration};
use compensation::{
    humidity_fixed, pressure_fixed, temperature_centidegrees, temperature_fine, Coefficients,
};
use fixed_point::lemma_shr_i32;
use i2c::constants::registers;
use i2c::transfer::{
    all_succeeded, all_with, bytes_read, lemma_plan_joined, lemma_plan_started, lemma_ran_joined,
    lemma_reads_complete, news, ran, reads, Step, Transfer,
};
use i2c::{
    reports, sample_16bit_of, sample_20bit_of, AtmosphericSensorI2c, AtmosphericSensorI2cError,
    Filter, Mode, Oversampling, RegisterBus, StandyTime,
};
pub use i2c::Address;

verus! {

/// The steps that set the sensor going: the shortest standby time, no filter, one sample
/// each of temperature, pressure and humidity, and normal mode.
pub open spec fn start_plan() -> Seq<Step> {
    seq![
        StandyTime::Ms0_5.step(),
        Filter::Off.step(),
        Oversampling::Ox1.temperature_step(),
        Oversampling::Ox1.pressure_step(),
        Oversampling::Ox1.humidity_step(),
        Mode::Normal.step(),
    ]
}

/// Where in [`start_plan`] each step stands.
proof fn lemma_start_plan_steps()
    ensures
        start_plan().len() == 6,
        start_plan().take(6) == start_plan(),
        start_plan().subrange(0, 1) == seq![StandyTime::Ms0_5.step()],
        start_plan().subrange(1, 2) == seq![Filter::Off.step()],
        start_plan().subrange(2, 3) == seq![Oversampling::Ox1.temperature_step()],
        start_plan().subrange(3, 4) == seq![Oversampling::Ox1.pressure_step()],
        start_plan().subrange(4, 5) == seq![Oversampling::Ox1.humidity_step()],
        start_plan().subrange(5, 6) == seq![Mode::Normal.step()],
{
    let plan = start_plan();
    assert(plan.take(6) =~= plan);
    assert(plan.subrange(0, 1) =~= seq![StandyTime::Ms0_5.step()]);
    assert(plan.subrange(1, 2) =~= seq![Filter::Off.step()]);
    assert(plan.subrange(2, 3) =~= seq![Oversampling::Ox1.temperature_step()]);
    assert(plan.subrange(3, 4) =~= seq![Oversampling::Ox1.pressure_step()]);
    assert(plan.subrange(4, 5) =~= seq![Oversampling::Ox1.humidity_step()]);
    assert(plan.subrange(5, 6) =~= seq![Mode::Normal.step()]);
}

/// What a sensor is, apart from the bus itself.
pub ghost struct Session {
    /// The bus address of the sensor.
    pub address: u8,
    /// Every transaction started on the bus since the sensor was made, oldest first.
    pub transfers: Seq<Transfer>,
    /// The factory coefficients read when the sensor was made.
    pub coefficients: Coefficients,
    /// The fine temperature of the last temperature measurement, zero before the first.
    pub t_fine: int,
}

/// Atmospheric sensor
pub struct AtmosphericSensor<I2C> {
    dev: AtmosphericSensorI2c<I2C>,
    calibration: Calibration,
    t_fine: i32,
}

impl<I2C> View for AtmosphericSensor<I2C> {
    type V = Session;

    closed spec fn view(&self) -> Session {
        Session {
            address: self.dev@.address,
            transfers: self.dev@.transfers,
            coefficients: self.calibration@,
            t_fine: self.t_fine as int,
        }
    }
}

impl<I2C: RegisterBus> AtmosphericSensor<I2C> {
    /// The bus address of the sensor.
    pub open spec fn address(&self) -> u8 {
        self@.address
    }

    /// Every transaction started on the bus since the sensor was made, oldest first.
    pub open spec fn transfers(&self) -> Seq<Transfer> {
        self@.transfers
    }

    /// The factory coefficients read when the sensor was made.
    pub open spec fn coefficients(&self) -> Coefficients {
        self@.coefficients
    }

    /// The fine temperature of the last temperature measurement, zero before the first.
    pub open spec fn t_fine(&self) -> int {
        self@.t_fine
    }

    /// The transactions started since the sensor was as `before`.
    pub open spec fn since(&self, before: &Self) -> Seq<Transfer> {
        news(before.transfers(), self.transfers())
    }

    /// Whether the sensor came from `before` by running `plan` on the bus: address and
    /// coefficients are the same, and the record grew by what the plan leaves, all of it
    /// with the device at that address.
    pub open spec fn did(&self, before: &Self, plan: Seq<Step>) -> bool {
        &&& self.address() == before.address()
        &&& self.coefficients() == before.coefficients()
        &&& ran(before.transfers(), self.transfers(), plan)
        &&& all_with(self.since(before), self.address())
    }

    /// Create new AtmosphericSensor device wrapper for I2C communication: reads the
    /// coefficients, and fails where one of the reads does.
    pub fn new(dev: I2C, address: Address) -> (r: Result<
        AtmosphericSensor<I2C>,
        AtmosphericSensorI2cError,
    >)
        ensures
            match r {
                Ok(sensor) => {
                    &&& sensor.address() == address.number()
                    &&& ran(Seq::empty(), sensor.transfers(), reads(calibration_registers()))
                    &&& all_succeeded(sensor.transfers())
                    &&& all_with(sensor.transfers(), sensor.address())
                    &&& sensor.coefficients() == coefficients(bytes_read(sensor.transfers()))
                    &&& sensor.t_fine() == 0
                },
                Err(e) => e == AtmosphericSensorI2cError::IOError,
            },
    {
        let mut wrapper = AtmosphericSensorI2c::new(dev, u8::from(address));
        let built = Calibration::build(&mut wrapper);
        assert(news(Seq::empty(), wrapper.transfers()) =~= wrapper.transfers());
        match built {
            Ok(calibration) => Ok(AtmosphericSensor { dev: wrapper, calibration, t_fine: 0 }),
            Err(e) => Err(e),
        }
    }

    /// Create new AtmosphericSensor and start it.
    pub fn build(dev: I2C, address: Address) -> (r: Result<
        AtmosphericSensor<I2C>,
        AtmosphericSensorI2cError,
    >)
        ensures
            match r {
                Ok(sensor) => {
                    &&& sensor.address() == address.number()
                    &&& ran(
                        Seq::empty(),
                        sensor.transfers(),
                        reads(calibration_registers()) + start_plan(),
                    )
                    &&& all_succeeded(sensor.transfers())
                    &&& all_with(sensor.transfers(), sensor.address())
                    &&& sensor.coefficients() == coefficients(
                        bytes_read(sensor.transfers().take(calibration_registers().len() as int)),
                    )
                    &&& sensor.t_fine() == 0
                },
                Err(e) => e == AtmosphericSensorI2cError::IOError,
            },
    {
        let mut sensor = match AtmosphericSensor::new(dev, address) {
            Ok(sensor) => sensor,
            Err(e) => {
                return Err(e);
            },
        };
        let ghost read = sensor.transfers();
        let started = sensor.start();
        proof {
            assert(news(Seq::empty(), read) =~= read);
            assert(news(Seq::empty(), sensor.transfers()) =~= sensor.transfers());
            lemma_ran_joined(
                Seq::empty(),
                read,
                sensor.transfers(),
                reads(calibration_registers()),
                start_plan(),
                Seq::empty(),
            );
            lemma_reads_complete(read, calibration_registers());
            assert(sensor.transfers().take(calibration_registers().len() as int) =~= read);
        }
        match started {
            Ok(_) => Ok(sensor),
            Err(e) => Err(e),
        }
    }

    /// Start all parameters for the sensor
    pub fn start(&mut self) -> (r: Result<(), AtmosphericSensorI2cError>)
        ensures
            final(self).did(old(self), start_plan()),
            final(self).t_fine() == old(self).t_fine(),
            reports(r, final(self).since(old(self)), ()),
    {
        let ghost plan = start_plan();
        let ghost s0 = self.dev.transfers();
        proof {
            lemma_plan_started(s0, plan);
            lemma_start_plan_steps();
        }
        let r1 = self.dev.set_standby_time(StandyTime::Ms0_5);
        let ghost s1 = self.dev.transfers();
        proof {
            lemma_plan_joined(s0, s0, s1, plan, 0, 1);
        }
        if let Err(e) = r1 {
            return Err(e);
        }
        let r2 = self.dev.set_filter(Filter::Off);
        let ghost s2 = self.dev.transfers();
        proof {
            lemma_plan_joined(s0, s1, s2, plan, 1, 2);
        }
        if let Err(e) = r2 {
            return Err(e);
        }
        let r3 = self.dev.set_temperature_oversample(Oversampling::Ox1);
        let ghost s3 = self.dev.transfers();
        proof {
            lemma_plan_joined(s0, s2, s3, plan, 2, 3);
        }
        if let Err(e) = r3 {
            return Err(e);
        }
        let r4 = self.dev.set_pressure_oversample(Oversampling::Ox1);
        let ghost s4 = self.dev.transfers();
        proof {
            lemma_plan_joined(s0, s3, s4, plan, 3, 4);
        }
        if let Err(e) = r4 {
            return Err(e);
        }
        let r5 = self.dev.set_humidity_oversample(Oversampling::Ox1);
        let ghost s5 = self.dev.transfers();
        proof {
            lemma_plan_joined(s0, s4, s5, plan, 4, 5);
        }
        if let Err(e) = r5 {
            return Err(e);
        }
        let r6 = self.dev.set_mode(Mode::Normal);
        proof {
            lemma_plan_joined(s0, s5, self.dev.transfers(), plan, 5, 6);
        }
        r6
    }

    /// Stop the sensor.
    pub fn stop(&mut self) -> (r: Result<(), AtmosphericSensorI2cError>)
        ensures
            final(self).did(old(self), seq![Mode::Sleep.step()]),
            final(self).t_fine() == old(self).t_fine(),
            reports(r, final(self).since(old(self)), ()),
    {
        self.dev.set_mode(Mode::Sleep)
    }

    /// Reset device.
    pub fn reset(&mut self) -> (r: Result<(), AtmosphericSensorI2cError>)
        ensures
            final(self).did(
                old(self),
                seq![
                    Step::Write {
                        register: registers::RST_REG,
                        payload: seq![i2c::constants::values::SOFT_RESET],
                    },
                ],
            ),
            final(self).t_fine() == old(self).t_fine(),
            reports(r, final(self).since(old(self)), ()),
    {
        self.dev.reset()
    }

    /// Is the device measuring.
    pub fn is_measuring(&mut self) -> (r: Result<bool, AtmosphericSensorI2cError>)
        ensures
            final(self).did(old(self), reads(seq![registers::STAT_REG])),
            final(self).t_fine() == old(self).t_fine(),
            reports(
                r,
                final(self).since(old(self)),
                i2c::fields::measuring_flag(bytes_read(final(self).since(old(self)))[0]),
            ),
    {
        self.dev.is_measuring()
    }

    /// Is the device copying NVM data to image registers.
    pub fn is_updating(&mut self) -> (r: Result<bool, AtmosphericSensorI2cError>)
        ensures
            final(self).did(old(self), reads(seq![registers::STAT_REG])),
            final(self).t_fine() == old(self).t_fine(),
            reports(
                r,
                final(self).since(old(self)),
                i2c::fields::updating_flag(bytes_read(final(self).since(old(self)))[0]),
            ),
    {
        self.dev.is_updating()
    }

    /// Get temperature from sensor, in hundredths of a degree Celsius. The fine
    /// temperature of this sample is kept for the pressure and humidity that follow.
    pub fn get_temperature_fixed(&mut self) -> (r: Result<i32, AtmosphericSensorI2cError>)
        ensures
            final(self).did(
                old(self),
                reads(
                    seq![
                        registers::TEMPERATURE_MSB_REG,
                        registers::TEMPERATURE_LSB_REG,
                        registers::TEMPERATURE_XLSB_REG,
                    ],
                ),
            ),
            match r {
                Ok(centidegrees) => {
                    &&& all_succeeded(final(self).since(old(self)))
                    &&& final(self).t_fine() == temperature_fine(
                        old(self).coefficients().temperature,
                        sample_20bit_of(bytes_read(final(self).since(old(self)))) as int,
                    )
                    &&& centidegrees == temperature_centidegrees(final(self).t_fine())
                },
                Err(e) => {
                    &&& !all_succeeded(final(self).since(old(self)))
                    &&& e == AtmosphericSensorI2cError::IOError
                    &&& final(self).t_fine() == old(self).t_fine()
                },
            },
    {
        let adc_t = match self.dev.get_temperature_raw() {
            Ok(raw) => raw,
            Err(e) => {
                return Err(e);
            },
        };
        self.t_fine = self.calibration.temperature.compensate_temperature(adc_t as i32);
        let scaled = self.t_fine * 5 + 128;
        proof {
            lemma_shr_i32(scaled);
        }
        let output = scaled >> 8;
        Ok(output)
    }

    /// Get pressure from sensor, in units of 1/256 Pa, compensated with the fine
    /// temperature of the last temperature measurement.
    pub fn get_pressure_fixed(&mut self) -> (r: Result<u32, AtmosphericSensorI2cError>)
        ensures
            final(self).did(
                old(self),
                reads(
                    seq![
                        registers::PRESSURE_MSB_REG,
                        registers::PRESSURE_LSB_REG,
                        registers::PRESSURE_XLSB_REG,
                    ],
                ),
            ),
            final(self).t_fine() == old(self).t_fine(),
            reports(
                r,
                final(self).since(old(self)),
                pressure_fixed(
                    old(self).coefficients().pressure,
                    sample_20bit_of(bytes_read(final(self).since(old(self)))) as int,
                    old(self).t_fine(),
                ) as u32,
            ),
    {
        let adc_p = match self.dev.get_pressure_raw() {
            Ok(raw) => raw,
            Err(e) => {
                return Err(e);
            },
        };
        let pressure = self.calibration.pressure.compensate_pressure(adc_p as i32, self.t_fine);
        Ok(pressure)
    }

    /// Get relative humidity from sensor, in units of 1/1024 %RH, compensated with the
    /// fine temperature of the last temperature measurement.
    pub fn get_humidity_fixed(&mut self) -> (r: Result<u32, AtmosphericSensorI2cError>)
        ensures
            final(self).did(
                old(self),
                reads(seq![registers::HUMIDITY_MSB_REG, registers::HUMIDITY_LSB_REG]),
            ),
            final(self).t_fine() == old(self).t_fine(),
            reports(
                r,
                final(self).since(old(self)),
                humidity_fixed(
                    old(self).coefficients().humidity,
                    sample_16bit_of(bytes_read(final(self).since(old(self)))) as int,
                    old(self).t_fine(),
                ) as u32,
            ),
    {
        let adc_h = match self.dev.get_humidity_raw() {
            Ok(raw) => raw,
            Err(e) => {
                return Err(e);
            },
        };
        let humidity = self.calibration.humidity.compensate_humidity(adc_h as i32, self.t_fine);
        Ok(humidity)
    }
}

} // verus!
