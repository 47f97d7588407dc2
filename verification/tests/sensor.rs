use std::cell::RefCell;
use std::rc::Rc;

use atmospheric_sensor::calibration::{
    Calibration, HumidityCalibration, PressureCalibration, TemperatureCalibration,
};
use atmospheric_sensor::i2c::constants::registers;
use atmospheric_sensor::i2c::{
    read_from_register, read_multiple_registers, write_to_register, Address,
    AtmosphericSensorI2c, AtmosphericSensorI2cError, Filter, Mode, Oversampling, RegisterBus,
    StandyTime,
};
use atmospheric_sensor::AtmosphericSensor;
use embedded_hal::i2c::{ErrorKind, I2c};
use embedded_hal_mock::eh1::i2c::{Mock as I2cMock, Transaction as I2cTransaction};

/// A bus of the hardware abstraction layer behind the driver's bus.
struct HalBus(I2cMock);

impl RegisterBus for HalBus {
    type Error = ErrorKind;

    fn write_read(&mut self, address: u8, write: &[u8], read: &mut [u8]) -> Result<(), ErrorKind> {
        self.0.write_read(address, write, read)
    }

    fn write(&mut self, address: u8, bytes: &[u8]) -> Result<(), ErrorKind> {
        self.0.write(address, bytes)
    }
}

#[test]
fn read_humidity() {
    let address: u8 = Address::Default.into();
    let mut expectations = get_mock_calibration(address);
    expectations.push(I2cTransaction::write_read(address, vec![0xFD], vec![110]));
    expectations.push(I2cTransaction::write_read(address, vec![0xFE], vec![213]));

    let i2c = I2cMock::new(&expectations);
    let mut i2c_clone = i2c.clone();

    let mut sensor = AtmosphericSensor::new(HalBus(i2c), Address::Default).unwrap();
    let humidity = f64::from(sensor.get_humidity_fixed().unwrap()) / 1024.0;

    assert!(humidity - 46.159 < 0.1);

    // Stop i2c
    i2c_clone.done();
}

#[test]
fn read_temperature() {
    let address: u8 = Address::Default.into();
    let mut expectations = get_mock_calibration(address);
    expectations.push(I2cTransaction::write_read(
        address,
        vec![registers::TEMPERATURE_MSB_REG],
        vec![0],
    ));
    expectations.push(I2cTransaction::write_read(
        address,
        vec![registers::TEMPERATURE_LSB_REG],
        vec![0],
    ));
    expectations.push(I2cTransaction::write_read(
        address,
        vec![registers::TEMPERATURE_XLSB_REG],
        vec![0],
    ));

    let i2c = I2cMock::new(&expectations);
    let mut i2c_clone = i2c.clone();

    let mut sensor = AtmosphericSensor::new(HalBus(i2c), Address::Default).unwrap();
    let temperature = f64::from(sensor.get_temperature_fixed().unwrap()) / 100.0;

    assert!(temperature > -100.);
    assert!(temperature < 100.);

    i2c_clone.done();
}

#[test]
fn read_pressure() {
    let address: u8 = Address::Default.into();
    let mut expectations = get_mock_calibration(address);
    expectations.push(I2cTransaction::write_read(
        address,
        vec![registers::PRESSURE_MSB_REG],
        vec![0],
    ));
    expectations.push(I2cTransaction::write_read(
        address,
        vec![registers::PRESSURE_LSB_REG],
        vec![0],
    ));
    expectations.push(I2cTransaction::write_read(
        address,
        vec![registers::PRESSURE_XLSB_REG],
        vec![0],
    ));

    let i2c = I2cMock::new(&expectations);
    let mut i2c_clone = i2c.clone();

    let mut sensor = AtmosphericSensor::new(HalBus(i2c), Address::Default).unwrap();
    let pressure = f64::from(sensor.get_pressure_fixed().unwrap()) / 256.0;

    assert!(pressure > 0.0);

    i2c_clone.done();
}

fn get_mock_calibration(address: u8) -> Vec<I2cTransaction> {
    let expectations = vec![
        I2cTransaction::write_read(address, vec![registers::DIG_T1_LSB_REG], ((28485_i64 & 0xFF) as u8).to_be_bytes().to_vec()),
        I2cTransaction::write_read(address, vec![registers::DIG_T1_MSB_REG], ((28485_i64 & 0xFF00 >> 8) as u8).to_be_bytes().to_vec()),
        // second temperature coefficient
        I2cTransaction::write_read(address, vec![registers::DIG_T2_LSB_REG], ((26735_i64 & 0xFF) as u8).to_be_bytes().to_vec()),
        I2cTransaction::write_read(address, vec![registers::DIG_T2_MSB_REG], ((26735_i64 & 0xFF00 >> 8) as u8).to_be_bytes().to_vec()),
        // third temperature coefficient
        I2cTransaction::write_read(address, vec![registers::DIG_T3_LSB_REG], ((50_i64 & 0xFF) as u8).to_be_bytes().to_vec()),
        I2cTransaction::write_read(address, vec![registers::DIG_T3_MSB_REG], ((50_i64 & 0xFF00 >> 8) as u8).to_be_bytes().to_vec()),

        // pressure coefficients
        // first pressure coefficient
        I2cTransaction::write_read(address, vec![0x8E], ((36738_i64 & 0xFF) as u8).to_be_bytes().to_vec()),
        I2cTransaction::write_read(address, vec![0x8F], ((36738_i64 & 0xFF00 >> 8) as u8).to_be_bytes().to_vec()),
        // second pressure coefficient
        I2cTransaction::write_read(address, vec![0x90], ((-10635_i64 & 0xFF) as u8).to_be_bytes().to_vec()),
        I2cTransaction::write_read(address, vec![0x91], ((-10635_i64 & 0xFF00 >> 8) as u8).to_be_bytes().to_vec()),
        // third pressure coefficient
        I2cTransaction::write_read(address, vec![0x92], ((3024_i64 & 0xFF) as u8).to_be_bytes().to_vec()),
        I2cTransaction::write_read(address, vec![0x93], ((3024_i64 & 0xFF00 >> 8) as u8).to_be_bytes().to_vec()),
        // fourth pressure coefficient
        I2cTransaction::write_read(address, vec![0x94], ((6980_i64 & 0xFF) as u8).to_be_bytes().to_vec()),
        I2cTransaction::write_read(address, vec![0x95], ((6980_i64 & 0xFF00 >> 8) as u8).to_be_bytes().to_vec()),
        // fifth pressure coefficient
        I2cTransaction::write_read(address, vec![0x96], ((-4_i64 & 0xFF) as u8).to_be_bytes().to_vec()),
        I2cTransaction::write_read(address, vec![0x97], ((-4_i64 & 0xFF00 >> 8) as u8).to_be_bytes().to_vec()),
        // sixth pressure coefficient
        I2cTransaction::write_read(address, vec![0x98], ((-7_i64 & 0xFF) as u8).to_be_bytes().to_vec()),
        I2cTransaction::write_read(address, vec![0x99], ((-7_i64 & 0xFF00 >> 8) as u8).to_be_bytes().to_vec()),
        // seventh pressure coefficient
        I2cTransaction::write_read(address, vec![0x9A], ((9900_i64 & 0xFF) as u8).to_be_bytes().to_vec()),
        I2cTransaction::write_read(address, vec![0x9B], ((9900_i64 & 0xFF00 >> 8) as u8).to_be_bytes().to_vec()),
        // eighth pressure coefficient
        I2cTransaction::write_read(address, vec![0x9C], ((-10230_i64 & 0xFF) as u8).to_be_bytes().to_vec()),
        I2cTransaction::write_read(address, vec![0x9D], ((-10230_i64 & 0xFF00 >> 8) as u8).to_be_bytes().to_vec()),
        // ninth pressure coefficient
        I2cTransaction::write_read(address, vec![0x9E], ((4285_i64 & 0xFF) as u8).to_be_bytes().to_vec()),
        I2cTransaction::write_read(address, vec![0x9F], ((4285_i64 & 0xFF00 >> 8) as u8).to_be_bytes().to_vec()),

        // humidity coefficients
        // first humidity coefficient
        I2cTransaction::write_read(address, vec![registers::DIG_H1_REG], ((75_i64 & 0xFF) as u8).to_be_bytes().to_vec()),
        // second humidity coefficient
        I2cTransaction::write_read(address, vec![registers::DIG_H2_LSB_REG], ((109 & 0xFF) as u8).to_be_bytes().to_vec()),
        I2cTransaction::write_read(address, vec![registers::DIG_H2_MSB_REG], ((1 & 0xFF) as u8).to_be_bytes().to_vec()),
        // third humidity coefficient
        I2cTransaction::write_read(address, vec![registers::DIG_H3_REG], ((0 & 0xFF) as u8).to_be_bytes().to_vec()),
        // fourth humidity coefficient
        I2cTransaction::write_read(address, vec![registers::DIG_H4_MSB_REG], ((19 & 0xFF) as u8).to_be_bytes().to_vec()),
        I2cTransaction::write_read(address, vec![registers::DIG_H4_LSB_REG], ((40 & 0xFF) as u8).to_be_bytes().to_vec()),
        // fifth humidity coefficient
        I2cTransaction::write_read(address, vec![registers::DIG_H5_MSB_REG], ((3 & 0xFF) as u8).to_be_bytes().to_vec()),
        I2cTransaction::write_read(address, vec![registers::DIG_H4_LSB_REG], ((40 & 0xFF) as u8).to_be_bytes().to_vec()),
        // sixth humidity coefficient
        I2cTransaction::write_read(address, vec![registers::DIG_H6_REG], ((30 & 0xFF) as u8).to_be_bytes().to_vec()),
    ];
    return expectations
}

#[test]
fn failed_transaction_of_the_mock_is_an_io_error() {
    let address: u8 = Address::Default.into();
    let expectations = [
        I2cTransaction::write_read(address, vec![registers::DIG_T1_LSB_REG], vec![0x45]),
        I2cTransaction::write_read(address, vec![registers::DIG_T1_MSB_REG], vec![0x6F])
            .with_error(ErrorKind::Bus),
    ];
    let i2c = I2cMock::new(&expectations);
    let mut i2c_clone = i2c.clone();

    let built = AtmosphericSensor::new(HalBus(i2c), Address::Default);
    assert!(matches!(built, Err(AtmosphericSensorI2cError::IOError)));

    i2c_clone.done();
}

#[test]
fn sensor_is_reset_through_the_mock() {
    let address: u8 = Address::Alternative.into();
    let expectations = [I2cTransaction::write(address, vec![0xE0, 0xB6])];
    let i2c = I2cMock::new(&expectations);
    let mut i2c_clone = i2c.clone();

    let mut dev = AtmosphericSensorI2c::new(HalBus(i2c), address);
    assert_eq!(dev.reset(), Ok(()));

    i2c_clone.done();
}

/// What a transaction on the register file was.
#[derive(Debug, Clone, PartialEq, Eq)]
enum Seen {
    Read(u8, u8),
    Write(u8, Vec<u8>),
}

/// The state of a sensor that is made of 256 registers, with a count of reads and of
/// writes after which the bus fails.
struct Device {
    registers: [u8; 256],
    reads_before_failure: Option<usize>,
    writes_before_failure: Option<usize>,
    seen: Vec<Seen>,
    lengths_asked: Vec<usize>,
}

/// A bus with one such sensor on it, shared with the test that looks at it afterwards.
#[derive(Clone)]
struct RegisterFile(Rc<RefCell<Device>>);

impl RegisterFile {
    fn new() -> RegisterFile {
        RegisterFile(Rc::new(RefCell::new(Device {
            registers: [0; 256],
            reads_before_failure: None,
            writes_before_failure: None,
            seen: Vec::new(),
            lengths_asked: Vec::new(),
        })))
    }

    fn with_example_coefficients() -> RegisterFile {
        let file = RegisterFile::new();
        file.set_u16(registers::DIG_T1_LSB_REG, 28485);
        file.set_u16(registers::DIG_T2_LSB_REG, 26735);
        file.set_u16(registers::DIG_T3_LSB_REG, 50);
        let pressure: [i32; 9] = [36738, -10635, 3024, 6980, -4, -7, 9900, -10230, 4285];
        for (i, value) in pressure.iter().enumerate() {
            file.set_u16(registers::DIG_P1_LSB_REG + 2 * i as u8, *value as u16);
        }
        file.set(registers::DIG_H1_REG, 75);
        file.set_u16(registers::DIG_H2_LSB_REG, 365);
        file.set(registers::DIG_H3_REG, 0);
        // The fourth coefficient, 312 = 0x138, and the fifth, 50 = 0x032, share a register.
        file.set(registers::DIG_H4_MSB_REG, 0x13);
        file.set(registers::DIG_H4_LSB_REG, 0x28);
        file.set(registers::DIG_H5_MSB_REG, 0x03);
        file.set(registers::DIG_H6_REG, 30);
        file
    }

    fn set(&self, register: u8, value: u8) {
        self.0.borrow_mut().registers[register as usize] = value;
    }

    fn set_u16(&self, register: u8, value: u16) {
        self.set(register, (value & 0xFF) as u8);
        self.set(register + 1, (value >> 8) as u8);
    }

    fn get(&self, register: u8) -> u8 {
        self.0.borrow().registers[register as usize]
    }

    fn fail_after_reads(&self, count: usize) {
        self.0.borrow_mut().reads_before_failure = Some(count);
    }

    fn fail_after_writes(&self, count: usize) {
        self.0.borrow_mut().writes_before_failure = Some(count);
    }

    fn seen(&self) -> Vec<Seen> {
        self.0.borrow().seen.clone()
    }

    fn lengths_asked(&self) -> Vec<usize> {
        self.0.borrow().lengths_asked.clone()
    }

    fn registers_read(&self) -> Vec<u8> {
        self.seen()
            .iter()
            .filter_map(|seen| match seen {
                Seen::Read(_, register) => Some(*register),
                Seen::Write(_, _) => None,
            })
            .collect()
    }
}

impl RegisterBus for RegisterFile {
    type Error = ();

    fn write_read(&mut self, address: u8, write: &[u8], read: &mut [u8]) -> Result<(), ()> {
        let mut device = self.0.borrow_mut();
        assert_eq!(write.len(), 1);
        device.seen.push(Seen::Read(address, write[0]));
        device.lengths_asked.push(read.len());
        match device.reads_before_failure {
            Some(0) => return Err(()),
            Some(left) => device.reads_before_failure = Some(left - 1),
            None => {}
        }
        for (i, byte) in read.iter_mut().enumerate() {
            *byte = device.registers[(write[0] as usize + i) % 256];
        }
        Ok(())
    }

    fn write(&mut self, address: u8, bytes: &[u8]) -> Result<(), ()> {
        let mut device = self.0.borrow_mut();
        device.seen.push(Seen::Write(address, bytes.to_vec()));
        match device.writes_before_failure {
            Some(0) => return Err(()),
            Some(left) => device.writes_before_failure = Some(left - 1),
            None => {}
        }
        for (i, byte) in bytes.iter().skip(1).enumerate() {
            device.registers[bytes[0] as usize + i] = *byte;
        }
        Ok(())
    }
}

fn calibration_registers() -> Vec<u8> {
    let mut all: Vec<u8> = (0x88..=0x9F).collect();
    all.extend([0xA1, 0xE1, 0xE2, 0xE3, 0xE4, 0xE5, 0xE6, 0xE5, 0xE7]);
    all
}

#[test]
fn coefficient_is_read_low_byte_first() {
    let file = RegisterFile::new();
    file.set(registers::DIG_T1_LSB_REG, 0x45);
    file.set(registers::DIG_T1_MSB_REG, 0x6F);
    file.set(registers::DIG_P1_LSB_REG, 0x82);
    file.set(registers::DIG_P1_MSB_REG, 0x8F);
    let mut dev = AtmosphericSensorI2c::new(file.clone(), 0x76);
    assert_eq!(dev.get_t1(), Ok(28485));
    assert_eq!(dev.get_p1(), Ok(36738));
    assert_eq!(file.registers_read(), vec![0x88, 0x89, 0x8E, 0x8F]);
}

#[test]
fn signed_coefficient_is_read_in_twos_complement() {
    let file = RegisterFile::new();
    file.set(registers::DIG_P2_LSB_REG, 0x75);
    file.set(registers::DIG_P2_MSB_REG, 0xD6);
    file.set(registers::DIG_T2_LSB_REG, 0x6F);
    file.set(registers::DIG_T2_MSB_REG, 0x68);
    file.set(registers::DIG_H2_LSB_REG, 0xFF);
    file.set(registers::DIG_H2_MSB_REG, 0xFF);
    file.set(registers::DIG_T3_LSB_REG, 0x00);
    file.set(registers::DIG_T3_MSB_REG, 0x80);
    let mut dev = AtmosphericSensorI2c::new(file.clone(), 0x76);
    assert_eq!(dev.get_p2(), Ok(-10635));
    assert_eq!(dev.get_t2(), Ok(26735));
    assert_eq!(dev.get_h2(), Ok(-1));
    assert_eq!(dev.get_t3(), Ok(-32768));
}

#[test]
fn every_pressure_coefficient_has_its_own_registers() {
    let file = RegisterFile::with_example_coefficients();
    let mut dev = AtmosphericSensorI2c::new(file.clone(), 0x76);
    assert_eq!(dev.get_p3(), Ok(3024));
    assert_eq!(dev.get_p4(), Ok(6980));
    assert_eq!(dev.get_p5(), Ok(-4));
    assert_eq!(dev.get_p6(), Ok(-7));
    assert_eq!(dev.get_p7(), Ok(9900));
    assert_eq!(dev.get_p8(), Ok(-10230));
    assert_eq!(dev.get_p9(), Ok(4285));
    assert_eq!(file.registers_read(), (0x92..=0x9F).collect::<Vec<u8>>());
}

#[test]
fn packed_humidity_coefficients_share_a_register() {
    let file = RegisterFile::new();
    file.set(registers::DIG_H4_MSB_REG, 0x12);
    file.set(registers::DIG_H4_LSB_REG, 0x34);
    file.set(registers::DIG_H5_MSB_REG, 0x56);
    let mut dev = AtmosphericSensorI2c::new(file.clone(), 0x76);
    assert_eq!(dev.get_h4(), Ok(0x124));
    assert_eq!(dev.get_h5(), Ok(0x563));
    // The shared register is read once for each of the two.
    assert_eq!(file.registers_read(), vec![0xE4, 0xE5, 0xE6, 0xE5]);
}

#[test]
fn single_byte_humidity_coefficients() {
    let file = RegisterFile::new();
    file.set(registers::DIG_H1_REG, 75);
    file.set(registers::DIG_H3_REG, 200);
    file.set(registers::DIG_H6_REG, 0xE2);
    let mut dev = AtmosphericSensorI2c::new(file.clone(), 0x76);
    assert_eq!(dev.get_h1(), Ok(75));
    assert_eq!(dev.get_h3(), Ok(200));
    assert_eq!(dev.get_h6(), Ok(-30));
    assert_eq!(file.registers_read(), vec![0xA1, 0xE3, 0xE7]);
}

#[test]
fn calibration_is_read_in_order() {
    let file = RegisterFile::with_example_coefficients();
    let mut dev = AtmosphericSensorI2c::new(file.clone(), 0x77);
    let calibration = Calibration::build(&mut dev).unwrap();
    assert_eq!(file.registers_read(), calibration_registers());
    assert!(file.seen().iter().all(|seen| matches!(seen, Seen::Read(0x77, _))));
    assert_eq!(calibration.temperature.compensate_temperature(0x80BD0), 116770);
    assert_eq!(calibration.pressure.compensate_pressure(0x524F0, 120035), 26036801);
    assert_eq!(calibration.humidity.compensate_humidity(0x7561, 116770), 57350);
}

#[test]
fn calibration_is_all_or_nothing() {
    let all = calibration_registers();
    for failing in 0..all.len() {
        let file = RegisterFile::with_example_coefficients();
        file.fail_after_reads(failing);
        let mut dev = AtmosphericSensorI2c::new(file.clone(), 0x76);
        let built = Calibration::build(&mut dev);
        assert!(matches!(built, Err(AtmosphericSensorI2cError::IOError)));
        // Nothing is read after the read that failed.
        assert_eq!(file.registers_read(), all[..=failing].to_vec());
    }
    let file = RegisterFile::with_example_coefficients();
    file.fail_after_reads(all.len());
    let mut dev = AtmosphericSensorI2c::new(file.clone(), 0x76);
    assert!(Calibration::build(&mut dev).is_ok());
}

#[test]
fn parts_of_the_calibration_are_read_alone() {
    let file = RegisterFile::with_example_coefficients();
    let mut dev = AtmosphericSensorI2c::new(file.clone(), 0x76);
    let temperature = TemperatureCalibration::build(&mut dev).unwrap();
    assert_eq!(temperature.compensate_temperature(0x80BD0), 116770);
    assert_eq!(file.registers_read().len(), 6);
    let pressure = PressureCalibration::build(&mut dev).unwrap();
    assert_eq!(pressure.compensate_pressure(0x524F0, 120035), 26036801);
    assert_eq!(file.registers_read().len(), 24);
    let humidity = HumidityCalibration::build(&mut dev).unwrap();
    assert_eq!(humidity.compensate_humidity(0x7561, 116770), 57350);
    assert_eq!(file.registers_read(), calibration_registers());
    let calibration = Calibration::new(temperature, pressure, humidity);
    assert_eq!(calibration.temperature.compensate_temperature(0x80BD0), 116770);
}

#[test]
fn part_of_the_calibration_fails_with_its_first_failed_read() {
    let file = RegisterFile::with_example_coefficients();
    file.fail_after_reads(3);
    let mut dev = AtmosphericSensorI2c::new(file.clone(), 0x76);
    assert!(matches!(
        PressureCalibration::build(&mut dev),
        Err(AtmosphericSensorI2cError::IOError)
    ));
    assert_eq!(file.registers_read(), vec![0x8E, 0x8F, 0x90, 0x91]);
}

#[test]
fn chip_id_is_read_from_its_register() {
    let file = RegisterFile::new();
    file.set(registers::CHIP_ID_REG, 0x60);
    let mut dev = AtmosphericSensorI2c::new(file.clone(), 0x76);
    assert_eq!(dev.get_id(), Ok(0x60));
    assert_eq!(file.seen(), vec![Seen::Read(0x76, 0xD0)]);
    file.fail_after_reads(0);
    assert_eq!(dev.get_id(), Err(AtmosphericSensorI2cError::IOError));
}

#[test]
fn register_is_read_and_written() {
    let file = RegisterFile::new();
    file.set(0x10, 0xAB);
    let mut dev = AtmosphericSensorI2c::new(file.clone(), 0x76);
    let mut buffer = [0u8];
    assert_eq!(read_from_register(&mut dev, 0x10, &mut buffer), Ok(()));
    assert_eq!(buffer, [0xAB]);
    assert_eq!(write_to_register(&mut dev, 0x20, &[1, 2, 3]), Ok(()));
    assert_eq!(write_to_register(&mut dev, 0x30, &[]), Ok(()));
    assert_eq!(
        file.seen(),
        vec![
            Seen::Read(0x76, 0x10),
            Seen::Write(0x76, vec![0x20, 1, 2, 3]),
            Seen::Write(0x76, vec![0x30]),
        ]
    );
    file.fail_after_writes(0);
    assert_eq!(write_to_register(&mut dev, 0x20, &[9]), Err(AtmosphericSensorI2cError::IOError));
    file.fail_after_reads(0);
    assert_eq!(
        read_from_register(&mut dev, 0x10, &mut buffer),
        Err(AtmosphericSensorI2cError::IOError)
    );
}

#[test]
fn register_read_fills_a_buffer_of_any_length_in_one_transaction() {
    let file = RegisterFile::new();
    file.set(0xF7, 0x52);
    file.set(0xF8, 0x4F);
    file.set(0xF9, 0x0F);
    let mut dev = AtmosphericSensorI2c::new(file.clone(), 0x77);
    let mut three = [0u8; 3];
    assert_eq!(read_from_register(&mut dev, 0xF7, &mut three), Ok(()));
    assert_eq!(three, [0x52, 0x4F, 0x0F]);
    let mut none: [u8; 0] = [];
    assert_eq!(read_from_register(&mut dev, 0xF7, &mut none), Ok(()));
    let mut part = [0u8; 8];
    assert_eq!(read_from_register(&mut dev, 0xF8, &mut part[2..4]), Ok(()));
    assert_eq!(part, [0, 0, 0x4F, 0x0F, 0, 0, 0, 0]);
    assert_eq!(
        file.seen(),
        vec![Seen::Read(0x77, 0xF7), Seen::Read(0x77, 0xF7), Seen::Read(0x77, 0xF8)]
    );
    assert_eq!(file.lengths_asked(), vec![3, 0, 2]);
    // A read that fails is not tried again.
    file.fail_after_reads(0);
    assert_eq!(
        read_from_register(&mut dev, 0xF7, &mut three),
        Err(AtmosphericSensorI2cError::IOError)
    );
    assert_eq!(file.seen().len(), 4);
}

#[test]
fn registers_are_read_one_byte_each_and_in_order() {
    let file = RegisterFile::new();
    file.set(0x10, 1);
    file.set(0x05, 2);
    file.set(0x20, 3);
    let mut dev = AtmosphericSensorI2c::new(file.clone(), 0x76);
    assert_eq!(read_multiple_registers(&mut dev, &[0x10, 0x05, 0x20, 0x10]), Ok(vec![1, 2, 3, 1]));
    assert_eq!(read_multiple_registers(&mut dev, &[]), Ok(vec![]));
    assert_eq!(file.registers_read(), vec![0x10, 0x05, 0x20, 0x10]);
    assert_eq!(file.lengths_asked(), vec![1, 1, 1, 1]);
}

#[test]
fn reading_registers_stops_at_the_first_failed_read() {
    let wanted = [0x10u8, 0x05, 0x20, 0x10, 0x30];
    for failing in 0..wanted.len() {
        let file = RegisterFile::new();
        file.fail_after_reads(failing);
        let mut dev = AtmosphericSensorI2c::new(file.clone(), 0x76);
        assert_eq!(
            read_multiple_registers(&mut dev, &wanted),
            Err(AtmosphericSensorI2cError::IOError)
        );
        assert_eq!(file.registers_read(), wanted[..=failing].to_vec());
    }
}

#[test]
fn reset_writes_the_reset_value() {
    let file = RegisterFile::new();
    let mut dev = AtmosphericSensorI2c::new(file.clone(), 0x76);
    assert_eq!(dev.reset(), Ok(()));
    assert_eq!(file.seen(), vec![Seen::Write(0x76, vec![0xE0, 0xB6])]);
    file.fail_after_writes(0);
    assert_eq!(dev.reset(), Err(AtmosphericSensorI2cError::IOError));
}

#[test]
fn mode_is_set_in_the_two_lowest_bits() {
    let file = RegisterFile::new();
    file.set(registers::CTRL_MEAS_REG, 0b1010_1001);
    let mut dev = AtmosphericSensorI2c::new(file.clone(), 0x76);
    assert_eq!(dev.set_mode(Mode::Normal), Ok(()));
    assert_eq!(file.get(registers::CTRL_MEAS_REG), 0b1010_1011);
    assert_eq!(dev.get_mode(), Ok(Mode::Normal));
    assert_eq!(dev.set_mode(Mode::Sleep), Ok(()));
    assert_eq!(file.get(registers::CTRL_MEAS_REG), 0b1010_1000);
    assert_eq!(dev.get_mode(), Ok(Mode::Sleep));
    assert_eq!(dev.set_mode(Mode::Forced), Ok(()));
    assert_eq!(file.get(registers::CTRL_MEAS_REG), 0b1010_1001);
    assert_eq!(dev.get_mode(), Ok(Mode::Forced));
    file.set(registers::CTRL_MEAS_REG, 0b0000_0010);
    assert_eq!(dev.get_mode(), Ok(Mode::Forced));
}

#[test]
fn update_reads_before_it_writes() {
    let file = RegisterFile::new();
    file.set(registers::CTRL_MEAS_REG, 0xFF);
    let mut dev = AtmosphericSensorI2c::new(file.clone(), 0x76);
    assert_eq!(dev.set_mode(Mode::Sleep), Ok(()));
    assert_eq!(
        file.seen(),
        vec![Seen::Read(0x76, 0xF4), Seen::Write(0x76, vec![0xF4, 0xFC])]
    );
}

#[test]
fn update_stops_at_a_failed_read_or_write() {
    let file = RegisterFile::new();
    file.set(registers::CTRL_MEAS_REG, 0xFF);
    file.fail_after_reads(0);
    let mut dev = AtmosphericSensorI2c::new(file.clone(), 0x76);
    assert_eq!(dev.set_mode(Mode::Sleep), Err(AtmosphericSensorI2cError::IOError));
    assert_eq!(file.seen(), vec![Seen::Read(0x76, 0xF4)]);
    assert_eq!(file.get(registers::CTRL_MEAS_REG), 0xFF);

    let file = RegisterFile::new();
    file.set(registers::CTRL_MEAS_REG, 0xFF);
    file.fail_after_writes(0);
    let mut dev = AtmosphericSensorI2c::new(file.clone(), 0x76);
    assert_eq!(dev.set_mode(Mode::Sleep), Err(AtmosphericSensorI2cError::IOError));
    assert_eq!(file.seen().len(), 2);
    assert_eq!(file.get(registers::CTRL_MEAS_REG), 0xFF);
}

#[test]
fn oversampling_is_set_in_its_three_bits() {
    let file = RegisterFile::new();
    file.set(registers::CTRL_HUMIDITY_REG, 0xFF);
    file.set(registers::CTRL_MEAS_REG, 0xFF);
    let mut dev = AtmosphericSensorI2c::new(file.clone(), 0x76);
    assert_eq!(dev.set_humidity_oversample(Oversampling::Ox2), Ok(()));
    assert_eq!(file.get(registers::CTRL_HUMIDITY_REG), 0b1111_1010);
    assert_eq!(dev.set_temperature_oversample(Oversampling::Ox4), Ok(()));
    assert_eq!(file.get(registers::CTRL_MEAS_REG), 0b0111_1111);
    assert_eq!(dev.set_pressure_oversample(Oversampling::Ox8), Ok(()));
    assert_eq!(file.get(registers::CTRL_MEAS_REG), 0b0111_0011);
    assert_eq!(dev.set_temperature_oversample(Oversampling::Skipped), Ok(()));
    assert_eq!(file.get(registers::CTRL_MEAS_REG), 0b0001_0011);
    assert_eq!(dev.set_pressure_oversample(Oversampling::Ox16), Ok(()));
    assert_eq!(file.get(registers::CTRL_MEAS_REG), 0b0001_0111);
}

#[test]
fn standby_time_and_filter_are_set_in_the_configuration_register() {
    let file = RegisterFile::new();
    file.set(registers::CONFIG_REG, 0b0000_0011);
    let mut dev = AtmosphericSensorI2c::new(file.clone(), 0x76);
    assert_eq!(dev.set_standby_time(StandyTime::Ms20), Ok(()));
    assert_eq!(file.get(registers::CONFIG_REG), 0b1110_0011);
    assert_eq!(dev.set_filter(Filter::C16), Ok(()));
    assert_eq!(file.get(registers::CONFIG_REG), 0b1111_0011);
    assert_eq!(dev.set_standby_time(StandyTime::Ms125), Ok(()));
    assert_eq!(file.get(registers::CONFIG_REG), 0b0101_0011);
    assert_eq!(dev.set_filter(Filter::Off), Ok(()));
    assert_eq!(file.get(registers::CONFIG_REG), 0b0100_0011);
}

#[test]
fn status_bits_are_read_from_the_status_register() {
    let file = RegisterFile::new();
    let mut dev = AtmosphericSensorI2c::new(file.clone(), 0x76);
    file.set(registers::STAT_REG, 0x04);
    assert_eq!(dev.is_measuring(), Ok(true));
    assert_eq!(dev.is_updating(), Ok(false));
    file.set(registers::STAT_REG, 0x01);
    assert_eq!(dev.is_measuring(), Ok(false));
    assert_eq!(dev.is_updating(), Ok(true));
    assert!(file.seen().iter().all(|seen| *seen == Seen::Read(0x76, 0xF3)));
    file.fail_after_reads(0);
    assert_eq!(dev.is_measuring(), Err(AtmosphericSensorI2cError::IOError));
    assert_eq!(dev.is_updating(), Err(AtmosphericSensorI2cError::IOError));
}

#[test]
fn raw_samples_are_read_from_their_registers() {
    let file = RegisterFile::new();
    file.set(registers::TEMPERATURE_MSB_REG, 0x80);
    file.set(registers::TEMPERATURE_LSB_REG, 0xBD);
    file.set(registers::TEMPERATURE_XLSB_REG, 0x00);
    file.set(registers::PRESSURE_MSB_REG, 0x52);
    file.set(registers::PRESSURE_LSB_REG, 0x4F);
    file.set(registers::PRESSURE_XLSB_REG, 0x0F);
    file.set(registers::HUMIDITY_MSB_REG, 0x75);
    file.set(registers::HUMIDITY_LSB_REG, 0x61);
    let mut dev = AtmosphericSensorI2c::new(file.clone(), 0x76);
    assert_eq!(dev.get_temperature_raw(), Ok(0x80BD0));
    assert_eq!(dev.get_pressure_raw(), Ok(0x524F0));
    assert_eq!(dev.get_humidity_raw(), Ok(0x7561));
    assert_eq!(file.registers_read(), vec![0xFA, 0xFB, 0xFC, 0xF7, 0xF8, 0xF9, 0xFD, 0xFE]);
}

#[test]
fn raw_sample_fails_with_any_of_its_reads() {
    for failing in 0..3 {
        let file = RegisterFile::new();
        file.fail_after_reads(failing);
        let mut dev = AtmosphericSensorI2c::new(file.clone(), 0x76);
        assert_eq!(dev.get_temperature_raw(), Err(AtmosphericSensorI2cError::IOError));
        assert_eq!(file.registers_read().len(), failing + 1);
    }
    for failing in 0..2 {
        let file = RegisterFile::new();
        file.fail_after_reads(failing);
        let mut dev = AtmosphericSensorI2c::new(file.clone(), 0x76);
        assert_eq!(dev.get_humidity_raw(), Err(AtmosphericSensorI2cError::IOError));
        assert_eq!(file.registers_read().len(), failing + 1);
    }
}

#[test]
fn sensor_measures_with_the_coefficients_it_read() {
    let file = RegisterFile::with_example_coefficients();
    file.set(registers::TEMPERATURE_MSB_REG, 0x80);
    file.set(registers::TEMPERATURE_LSB_REG, 0xBD);
    file.set(registers::TEMPERATURE_XLSB_REG, 0x00);
    file.set(registers::HUMIDITY_MSB_REG, 0x75);
    file.set(registers::HUMIDITY_LSB_REG, 0x61);
    let mut sensor = AtmosphericSensor::new(file.clone(), Address::Default).unwrap();
    // t_fine = 116770, and (116770 * 5 + 128) >> 8 = 2281.
    assert_eq!(sensor.get_temperature_fixed(), Ok(2281));
    assert_eq!(sensor.get_humidity_fixed(), Ok(57350));
}

#[test]
fn pressure_takes_the_fine_temperature_of_the_last_temperature() {
    let file = RegisterFile::with_example_coefficients();
    file.set(registers::PRESSURE_MSB_REG, 0x00);
    file.set(registers::PRESSURE_LSB_REG, 0x00);
    file.set(registers::PRESSURE_XLSB_REG, 0x00);
    let mut sensor = AtmosphericSensor::new(file.clone(), Address::Default).unwrap();
    // Before the first temperature the fine temperature is zero.
    assert_eq!(sensor.get_pressure_fixed(), Ok(39339518));
    assert_eq!(sensor.get_temperature_fixed(), Ok(-14514));
    let with_temperature =
        PressureCalibration::new(36738, -10635, 3024, 6980, -4, -7, 9900, -10230, 4285)
            .compensate_pressure(0, -743094);
    assert_eq!(sensor.get_pressure_fixed(), Ok(with_temperature));
    // A measurement that fails leaves the fine temperature as it was.
    file.fail_after_reads(1);
    assert_eq!(sensor.get_temperature_fixed(), Err(AtmosphericSensorI2cError::IOError));
    file.fail_after_reads(100);
    assert_eq!(sensor.get_pressure_fixed(), Ok(with_temperature));
}

#[test]
fn sensor_is_started_step_by_step() {
    let file = RegisterFile::with_example_coefficients();
    file.set(registers::CONFIG_REG, 0xFF);
    file.set(registers::CTRL_MEAS_REG, 0x00);
    file.set(registers::CTRL_HUMIDITY_REG, 0xFF);
    let sensor = AtmosphericSensor::build(file.clone(), Address::Alternative);
    assert!(sensor.is_ok());
    assert_eq!(file.get(registers::CONFIG_REG), 0b0000_0011);
    assert_eq!(file.get(registers::CTRL_MEAS_REG), 0b0010_0111);
    assert_eq!(file.get(registers::CTRL_HUMIDITY_REG), 0b1111_1001);
    let seen = file.seen();
    assert_eq!(seen.len(), 33 + 12);
    assert_eq!(
        seen[33..].to_vec(),
        vec![
            Seen::Read(0x77, 0xF5),
            Seen::Write(0x77, vec![0xF5, 0x1F]),
            Seen::Read(0x77, 0xF5),
            Seen::Write(0x77, vec![0xF5, 0x03]),
            Seen::Read(0x77, 0xF4),
            Seen::Write(0x77, vec![0xF4, 0x20]),
            Seen::Read(0x77, 0xF4),
            Seen::Write(0x77, vec![0xF4, 0x24]),
            Seen::Read(0x77, 0xF2),
            Seen::Write(0x77, vec![0xF2, 0xF9]),
            Seen::Read(0x77, 0xF4),
            Seen::Write(0x77, vec![0xF4, 0x27]),
        ]
    );
}

#[test]
fn start_stops_at_the_first_failure() {
    for failing in 0..6 {
        let file = RegisterFile::with_example_coefficients();
        let mut sensor = AtmosphericSensor::new(file.clone(), Address::Default).unwrap();
        file.fail_after_writes(failing);
        assert_eq!(sensor.start(), Err(AtmosphericSensorI2cError::IOError));
        assert_eq!(file.seen().len(), 33 + 2 * (failing + 1));
    }
    let file = RegisterFile::with_example_coefficients();
    file.fail_after_reads(33 + 2);
    assert!(matches!(
        AtmosphericSensor::build(file.clone(), Address::Default),
        Err(AtmosphericSensorI2cError::IOError)
    ));
    assert_eq!(file.seen().len(), 33 + 2 * 2 + 1);
}

#[test]
fn sensor_is_stopped_and_reset() {
    let file = RegisterFile::with_example_coefficients();
    file.set(registers::CTRL_MEAS_REG, 0b0010_0111);
    file.set(registers::STAT_REG, 0x05);
    let mut sensor = AtmosphericSensor::new(file.clone(), Address::Default).unwrap();
    assert_eq!(sensor.stop(), Ok(()));
    assert_eq!(file.get(registers::CTRL_MEAS_REG), 0b0010_0100);
    assert_eq!(sensor.reset(), Ok(()));
    assert_eq!(file.seen().last(), Some(&Seen::Write(0x76, vec![0xE0, 0xB6])));
    assert_eq!(sensor.is_measuring(), Ok(true));
    assert_eq!(sensor.is_updating(), Ok(true));
}

#[test]
fn sensor_is_not_made_without_its_coefficients() {
    for failing in [0usize, 5, 17, 32] {
        let file = RegisterFile::with_example_coefficients();
        file.fail_after_reads(failing);
        let made = AtmosphericSensor::new(file.clone(), Address::Default);
        assert!(matches!(made, Err(AtmosphericSensorI2cError::IOError)));
        assert_eq!(file.seen().len(), failing + 1);
    }
}
