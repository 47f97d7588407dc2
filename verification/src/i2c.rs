//! The sensor as a set of registers behind a two-wire bus.

pub mod constants;
pub mod fields;
pub mod transfer;

use vstd::prelude::*;
use vstd::std_specs::convert::{FromSpecImpl, TryFromSpec, TryFromSpecImpl};
use constants::{addresses, registers, values};
use fields::{
    assemble_16bit, assemble_20bit, at_bit_2, at_bit_5, little_endian_i16, little_endian_u16,
    measuring, measuring_flag, merge, packed_with_high_nibble, packed_with_low_nibble,
    read_i16_le, read_u16_le, reinterpret_signed, sample_16bit, sample_20bit, signed_byte,
    unpack_with_high_nibble, unpack_with_low_nibble, updating, updating_flag,
};
use transfer::{
    all_succeeded, all_with, bytes_read, follows, lemma_bytes_read_one, lemma_ran_joined,
    lemma_reads_complete, news, ran, reads, Step, Transfer,
};

verus! {

/// What can go wrong between the driver and the sensor.
#[derive(Debug, Clone, Copy, PartialEq, Eq, Structural)]
pub enum AtmosphericSensorI2cError {
    /// A transaction on the bus did not complete.
    IOError,
    /// A number stands for no setting of the kind asked for.
    InvalidConfiguration,
}

/// Modes for the sensor.
#[derive(Debug, Clone, Copy, PartialEq, Eq, Structural)]
pub enum Mode {
    Sleep,
    Forced,
    Normal,
}

impl Mode {
    /// The two mode bits of the measurement control register.
    pub open spec fn bits(self) -> u8 {
        match self {
            Mode::Sleep => 0,
            Mode::Forced => 1,
            Mode::Normal => 3,
        }
    }

    /// The mode that the measurement control register holds in its two lowest bits.
    pub open spec fn of_control(state: u8) -> Mode {
        let bits = state % 4;
        if bits == 0 {
            Mode::Sleep
        } else if bits == 3 {
            Mode::Normal
        } else {
            Mode::Forced
        }
    }

    /// The step that sets the mode: bits 1 and 0 of the measurement control register.
    pub open spec fn step(self) -> Step {
        Step::Update { register: registers::CTRL_MEAS_REG, keep: 0xFC, field: self.bits() }
    }
}

impl TryFromSpecImpl<u8> for Mode {
    open spec fn obeys_try_from_spec() -> bool {
        true
    }

    /// The mode that two mode bits stand for: both `1` and `2` select a forced measurement,
    /// and a number above `3` stands for no mode.
    open spec fn try_from_spec(item: u8) -> Result<Mode, AtmosphericSensorI2cError> {
        if item == 0 {
            Ok(Mode::Sleep)
        } else if item == 1 || item == 2 {
            Ok(Mode::Forced)
        } else if item == 3 {
            Ok(Mode::Normal)
        } else {
            Err(AtmosphericSensorI2cError::InvalidConfiguration)
        }
    }
}

impl TryFrom<u8> for Mode {
    type Error = AtmosphericSensorI2cError;

    /// Convert modes from u8 to Mode.
    fn try_from(item: u8) -> (r: Result<Mode, AtmosphericSensorI2cError>) {
        match item {
            0 => Ok(Mode::Sleep),
            1 => Ok(Mode::Forced),
            2 => Ok(Mode::Forced),
            3 => Ok(Mode::Normal),
            _ => Err(AtmosphericSensorI2cError::InvalidConfiguration),
        }
    }
}

impl From<Mode> for u8 {
    /// Convert modes from Mode to u8.
    fn from(item: Mode) -> (r: u8) {
        match item {
            Mode::Sleep => 0,
            Mode::Forced => 1,
            Mode::Normal => 3,
        }
    }
}

impl FromSpecImpl<Mode> for u8 {
    open spec fn obeys_from_spec() -> bool {
        true
    }

    open spec fn from_spec(item: Mode) -> u8 {
        item.bits()
    }
}

/// Oversampling on the sensor.
#[derive(Debug, Clone, Copy, PartialEq, Eq, Structural)]
pub enum Oversampling {
    Skipped,
    Ox1,
    Ox2,
    Ox4,
    Ox8,
    Ox16,
}

impl Oversampling {
    /// The three oversampling bits of a control register.
    pub open spec fn bits(self) -> u8 {
        match self {
            Oversampling::Skipped => 0,
            Oversampling::Ox1 => 1,
            Oversampling::Ox2 => 2,
            Oversampling::Ox4 => 3,
            Oversampling::Ox8 => 4,
            Oversampling::Ox16 => 5,
        }
    }

    /// The step that sets the humidity oversampling: bits 2 to 0 of the humidity control
    /// register.
    pub open spec fn humidity_step(self) -> Step {
        Step::Update { register: registers::CTRL_HUMIDITY_REG, keep: 0xF8, field: self.bits() }
    }

    /// The step that sets the temperature oversampling: bits 7 to 5 of the measurement
    /// control register.
    pub open spec fn temperature_step(self) -> Step {
        Step::Update {
            register: registers::CTRL_MEAS_REG,
            keep: 0x1F,
            field: (self.bits() * 32) as u8,
        }
    }

    /// The step that sets the pressure oversampling: bits 4 to 2 of the measurement
    /// control register.
    pub open spec fn pressure_step(self) -> Step {
        Step::Update {
            register: registers::CTRL_MEAS_REG,
            keep: 0xE3,
            field: (self.bits() * 4) as u8,
        }
    }
}

impl TryFrom<u8> for Oversampling {
    type Error = AtmosphericSensorI2cError;

    /// Convert from u8 to Oversampling.
    fn try_from(value: u8) -> (r: Result<Oversampling, AtmosphericSensorI2cError>) {
        match value {
            0 => Ok(Oversampling::Skipped),
            1 => Ok(Oversampling::Ox1),
            2 => Ok(Oversampling::Ox2),
            3 => Ok(Oversampling::Ox4),
            4 => Ok(Oversampling::Ox8),
            5 => Ok(Oversampling::Ox16),
            _ => Err(AtmosphericSensorI2cError::InvalidConfiguration),
        }
    }
}

impl TryFromSpecImpl<u8> for Oversampling {
    open spec fn obeys_try_from_spec() -> bool {
        true
    }

    /// The oversampling that a number stands for; a number above `5` stands for none.
    open spec fn try_from_spec(value: u8) -> Result<Oversampling, AtmosphericSensorI2cError> {
        if value == 0 {
            Ok(Oversampling::Skipped)
        } else if value == 1 {
            Ok(Oversampling::Ox1)
        } else if value == 2 {
            Ok(Oversampling::Ox2)
        } else if value == 3 {
            Ok(Oversampling::Ox4)
        } else if value == 4 {
            Ok(Oversampling::Ox8)
        } else if value == 5 {
            Ok(Oversampling::Ox16)
        } else {
            Err(AtmosphericSensorI2cError::InvalidConfiguration)
        }
    }
}

impl From<Oversampling> for u8 {
    /// Convert from Oversampling to u8.
    fn from(value: Oversampling) -> (r: u8) {
        match value {
            Oversampling::Skipped => 0,
            Oversampling::Ox1 => 1,
            Oversampling::Ox2 => 2,
            Oversampling::Ox4 => 3,
            Oversampling::Ox8 => 4,
            Oversampling::Ox16 => 5,
        }
    }
}

impl FromSpecImpl<Oversampling> for u8 {
    open spec fn obeys_from_spec() -> bool {
        true
    }

    open spec fn from_spec(value: Oversampling) -> u8 {
        value.bits()
    }
}

/// Standby time of the sensor between two measurements in normal mode, in milliseconds.
#[derive(Debug, Clone, Copy, PartialEq, Eq, Structural)]
pub enum StandyTime {
    Ms0_5,
    Ms62_5,
    Ms125,
    Ms250,
    Ms500,
    Ms1000,
    Ms10,
    Ms20,
}

impl StandyTime {
    /// The three standby bits of the configuration register.
    pub open spec fn bits(self) -> u8 {
        match self {
            StandyTime::Ms0_5 => 0,
            StandyTime::Ms62_5 => 1,
            StandyTime::Ms125 => 2,
            StandyTime::Ms250 => 3,
            StandyTime::Ms500 => 4,
            StandyTime::Ms1000 => 5,
            StandyTime::Ms10 => 6,
            StandyTime::Ms20 => 7,
        }
    }

    /// The step that sets the standby time: bits 7 to 5 of the configuration register.
    pub open spec fn step(self) -> Step {
        Step::Update {
            register: registers::CONFIG_REG,
            keep: 0x1F,
            field: (self.bits() * 32) as u8,
        }
    }
}

impl TryFrom<u8> for StandyTime {
    type Error = AtmosphericSensorI2cError;

    /// Convert from u8 to StandyTime.
    fn try_from(value: u8) -> (r: Result<StandyTime, AtmosphericSensorI2cError>) {
        match value {
            0 => Ok(StandyTime::Ms0_5),
            1 => Ok(StandyTime::Ms62_5),
            2 => Ok(StandyTime::Ms125),
            3 => Ok(StandyTime::Ms250),
            4 => Ok(StandyTime::Ms500),
            5 => Ok(StandyTime::Ms1000),
            6 => Ok(StandyTime::Ms10),
            7 => Ok(StandyTime::Ms20),
            _ => Err(AtmosphericSensorI2cError::InvalidConfiguration),
        }
    }
}

impl TryFromSpecImpl<u8> for StandyTime {
    open spec fn obeys_try_from_spec() -> bool {
        true
    }

    /// The standby time that three bits stand for; a number above `7` stands for none.
    open spec fn try_from_spec(value: u8) -> Result<StandyTime, AtmosphericSensorI2cError> {
        if value == 0 {
            Ok(StandyTime::Ms0_5)
        } else if value == 1 {
            Ok(StandyTime::Ms62_5)
        } else if value == 2 {
            Ok(StandyTime::Ms125)
        } else if value == 3 {
            Ok(StandyTime::Ms250)
        } else if value == 4 {
            Ok(StandyTime::Ms500)
        } else if value == 5 {
            Ok(StandyTime::Ms1000)
        } else if value == 6 {
            Ok(StandyTime::Ms10)
        } else if value == 7 {
            Ok(StandyTime::Ms20)
        } else {
            Err(AtmosphericSensorI2cError::InvalidConfiguration)
        }
    }
}

impl From<StandyTime> for u8 {
    fn from(value: StandyTime) -> (r: u8) {
        match value {
            StandyTime::Ms0_5 => 0,
            StandyTime::Ms62_5 => 1,
            StandyTime::Ms125 => 2,
            StandyTime::Ms250 => 3,
            StandyTime::Ms500 => 4,
            StandyTime::Ms1000 => 5,
            StandyTime::Ms10 => 6,
            StandyTime::Ms20 => 7,
        }
    }
}

impl FromSpecImpl<StandyTime> for u8 {
    open spec fn obeys_from_spec() -> bool {
        true
    }

    open spec fn from_spec(value: StandyTime) -> u8 {
        value.bits()
    }
}

/// Filter for sensor: the number of samples its low-pass filter averages over.
#[derive(Debug, Clone, Copy, PartialEq, Eq, Structural)]
pub enum Filter {
    Off,
    C2,
    C4,
    C8,
    C16,
}

impl Filter {
    /// The three filter bits of the configuration register.
    pub open spec fn bits(self) -> u8 {
        match self {
            Filter::Off => 0,
            Filter::C2 => 1,
            Filter::C4 => 2,
            Filter::C8 => 3,
            Filter::C16 => 4,
        }
    }

    /// The step that sets the filter: bits 4 to 2 of the configuration register.
    pub open spec fn step(self) -> Step {
        Step::Update { register: registers::CONFIG_REG, keep: 0xE3, field: (self.bits() * 4) as u8 }
    }
}

impl TryFrom<u8> for Filter {
    type Error = AtmosphericSensorI2cError;

    /// Convert u8 to Filter.
    fn try_from(value: u8) -> (r: Result<Filter, AtmosphericSensorI2cError>) {
        match value {
            0 => Ok(Filter::Off),
            1 => Ok(Filter::C2),
            2 => Ok(Filter::C4),
            3 => Ok(Filter::C8),
            4 => Ok(Filter::C16),
            _ => Err(AtmosphericSensorI2cError::InvalidConfiguration),
        }
    }
}

impl TryFromSpecImpl<u8> for Filter {
    open spec fn obeys_try_from_spec() -> bool {
        true
    }

    /// The filter that a number stands for; a number above `4` stands for none.
    open spec fn try_from_spec(value: u8) -> Result<Filter, AtmosphericSensorI2cError> {
        if value == 0 {
            Ok(Filter::Off)
        } else if value == 1 {
            Ok(Filter::C2)
        } else if value == 2 {
            Ok(Filter::C4)
        } else if value == 3 {
            Ok(Filter::C8)
        } else if value == 4 {
            Ok(Filter::C16)
        } else {
            Err(AtmosphericSensorI2cError::InvalidConfiguration)
        }
    }
}

impl From<Filter> for u8 {
    /// Convert Filter to u8.
    fn from(value: Filter) -> (r: u8) {
        match value {
            Filter::Off => 0,
            Filter::C2 => 1,
            Filter::C4 => 2,
            Filter::C8 => 3,
            Filter::C16 => 4,
        }
    }
}

impl FromSpecImpl<Filter> for u8 {
    open spec fn obeys_from_spec() -> bool {
        true
    }

    open spec fn from_spec(value: Filter) -> u8 {
        value.bits()
    }
}

/// Address options for the sensor.
#[derive(Debug, Clone, Copy, PartialEq, Eq, Structural)]
pub enum Address {
    Default,
    Alternative,
}

impl Address {
    /// The bus address that the option stands for.
    pub open spec fn number(self) -> u8 {
        match self {
            Address::Default => addresses::DEFAULT,
            Address::Alternative => addresses::ALTERNATIVE,
        }
    }
}

impl From<Address> for u8 {
    /// Convert from Address to u8.
    fn from(value: Address) -> (r: u8) {
        match value {
            Address::Default => addresses::DEFAULT,
            Address::Alternative => addresses::ALTERNATIVE,
        }
    }
}

impl FromSpecImpl<Address> for u8 {
    open spec fn obeys_from_spec() -> bool {
        true
    }

    open spec fn from_spec(value: Address) -> u8 {
        value.number()
    }
}

/// Every setting is given back by the number it is written as, and every number that is
/// taken for a setting other than a mode is the number that setting is written as.
pub proof fn lemma_settings_round_trip(
    mode: Mode,
    rate: Oversampling,
    standby: StandyTime,
    filter: Filter,
    number: u8,
)
    ensures
        <Mode as TryFromSpec<u8>>::try_from_spec(mode.bits()) == Ok::<
            Mode,
            AtmosphericSensorI2cError,
        >(mode),
        <Oversampling as TryFromSpec<u8>>::try_from_spec(rate.bits()) == Ok::<
            Oversampling,
            AtmosphericSensorI2cError,
        >(rate),
        <StandyTime as TryFromSpec<u8>>::try_from_spec(standby.bits()) == Ok::<
            StandyTime,
            AtmosphericSensorI2cError,
        >(standby),
        <Filter as TryFromSpec<u8>>::try_from_spec(filter.bits()) == Ok::<
            Filter,
            AtmosphericSensorI2cError,
        >(filter),
        <Oversampling as TryFromSpec<u8>>::try_from_spec(number) matches Ok(decoded)
            ==> decoded.bits() == number,
        <StandyTime as TryFromSpec<u8>>::try_from_spec(number) matches Ok(decoded)
            ==> decoded.bits() == number,
        <Filter as TryFromSpec<u8>>::try_from_spec(number) matches Ok(decoded) ==> decoded.bits()
            == number,
        <Oversampling as TryFromSpec<u8>>::try_from_spec(number) is Err <==> number > 5,
        <StandyTime as TryFromSpec<u8>>::try_from_spec(number) is Err <==> number > 7,
        <Filter as TryFromSpec<u8>>::try_from_spec(number) is Err <==> number > 4,
        <Mode as TryFromSpec<u8>>::try_from_spec(number) is Err <==> number > 3,
{
}

/// The unsigned 16-bit number that two bytes hold, low byte first.
pub open spec fn u16_of(bytes: Seq<u8>) -> u16 {
    little_endian_u16(bytes[0], bytes[1]) as u16
}

/// The signed 16-bit number that two bytes hold, low byte first.
pub open spec fn i16_of(bytes: Seq<u8>) -> i16 {
    little_endian_i16(bytes[0], bytes[1]) as i16
}

/// The signed 8-bit number that one byte holds.
pub open spec fn i8_of(bytes: Seq<u8>) -> i8 {
    signed_byte(bytes[0]) as i8
}

/// The 20-bit sample that three bytes hold, highest part first.
pub open spec fn sample_20bit_of(bytes: Seq<u8>) -> u32 {
    sample_20bit(bytes[0], bytes[1], bytes[2]) as u32
}

/// The 16-bit sample that two bytes hold, high byte first.
pub open spec fn sample_16bit_of(bytes: Seq<u8>) -> u32 {
    sample_16bit(bytes[0], bytes[1]) as u32
}

/// The fourth humidity coefficient, from its own register and the shared one.
pub open spec fn h4_of(bytes: Seq<u8>) -> i16 {
    packed_with_low_nibble(bytes[0], bytes[1]) as i16
}

/// The fifth humidity coefficient, from its own register and the shared one.
pub open spec fn h5_of(bytes: Seq<u8>) -> i16 {
    packed_with_high_nibble(bytes[0], bytes[1]) as i16
}

/// A two-wire bus, as far as the driver needs one: register reads and writes of a few
/// bytes, each one transaction that completes or fails.
pub trait RegisterBus {
    /// Why a transaction did not complete.
    type Error;

    /// Sends `write` to the device at `address` and then reads enough bytes to fill
    /// `read`, in a single transaction.
    fn write_read(&mut self, address: u8, write: &[u8], read: &mut [u8]) -> Result<
        (),
        Self::Error,
    >;

    /// Sends `bytes` to the device at `address`, in a single transaction.
    fn write(&mut self, address: u8, bytes: &[u8]) -> Result<(), Self::Error>;
}

/// Whether `r` tells how the transactions of `log` went: `value` where all of them
/// completed, an I/O error where one failed.
pub open spec fn reports<T>(
    r: Result<T, AtmosphericSensorI2cError>,
    log: Seq<Transfer>,
    value: T,
) -> bool {
    match r {
        Ok(v) => all_succeeded(log) && v == value,
        Err(e) => !all_succeeded(log) && e == AtmosphericSensorI2cError::IOError,
    }
}

/// What the driver knows of its sensor, apart from the bus itself.
pub ghost struct Link {
    /// The bus address of the sensor.
    pub address: u8,
    /// Every transaction the driver has started on the bus, oldest first.
    pub transfers: Seq<Transfer>,
}

/// The sensor on its bus: the bus, and the address the sensor answers to.
pub struct AtmosphericSensorI2c<I2C> {
    i2c: I2C,
    address: u8,
    record: Ghost<Seq<Transfer>>,
}

impl<I2C> View for AtmosphericSensorI2c<I2C> {
    type V = Link;

    closed spec fn view(&self) -> Link {
        Link { address: self.address, transfers: self.record@ }
    }
}

impl<I2C: RegisterBus> AtmosphericSensorI2c<I2C> {
    /// The bus address of the sensor.
    pub open spec fn address(&self) -> u8 {
        self@.address
    }

    /// Every transaction the driver has started on the bus, oldest first.
    pub open spec fn transfers(&self) -> Seq<Transfer> {
        self@.transfers
    }

    /// The transactions started since the driver was as `before`.
    pub open spec fn since(&self, before: &Self) -> Seq<Transfer> {
        news(before.transfers(), self.transfers())
    }

    /// Whether the driver came from `before` by running `plan`: the address is the same,
    /// and the record grew by what the plan leaves on the bus, all of it with the device at
    /// that address.
    pub open spec fn did(&self, before: &Self, plan: Seq<Step>) -> bool {
        &&& self.address() == before.address()
        &&& ran(before.transfers(), self.transfers(), plan)
        &&& all_with(self.since(before), self.address())
    }

    /// Create new AtmosphericSensorI2c.
    pub fn new(i2c: I2C, address: u8) -> (dev: AtmosphericSensorI2c<I2C>)
        ensures
            dev.address() == address,
            dev.transfers() == Seq::<Transfer>::empty(),
    {
        AtmosphericSensorI2c { i2c, address, record: Ghost(Seq::empty()) }
    }

    /// Read the ID of the chip.
    pub fn get_id(&mut self) -> (r: Result<u8, AtmosphericSensorI2cError>)
        ensures
            final(self).did(old(self), reads(seq![registers::CHIP_ID_REG])),
            reports(r, final(self).since(old(self)), bytes_read(final(self).since(old(self)))[0]),
    {
        read_byte(self, registers::CHIP_ID_REG)
    }

    /// Reset sensor.
    pub fn reset(&mut self) -> (r: Result<(), AtmosphericSensorI2cError>)
        ensures
            final(self).did(
                old(self),
                seq![
                    Step::Write { register: registers::RST_REG, payload: seq![values::SOFT_RESET] },
                ],
            ),
            reports(r, final(self).since(old(self)), ()),
    {
        let bytes = [values::SOFT_RESET];
        assert(bytes@ =~= seq![values::SOFT_RESET]);
        write_to_register(self, registers::RST_REG, bytes.as_slice())
    }

    /// Get the current mode of the sensor.
    pub fn get_mode(&mut self) -> (r: Result<Mode, AtmosphericSensorI2cError>)
        ensures
            final(self).did(old(self), reads(seq![registers::CTRL_MEAS_REG])),
            reports(
                r,
                final(self).since(old(self)),
                Mode::of_control(bytes_read(final(self).since(old(self)))[0]),
            ),
    {
        let state = match read_byte(self, registers::CTRL_MEAS_REG) {
            Ok(byte) => byte,
            Err(e) => {
                return Err(e);
            },
        };
        let bits = state & 0x03;
        assert(bits == state % 4) by (bit_vector)
            requires
                bits == state & 0x03,
        ;
        // Convert value to Mode
        Mode::try_from(bits)
    }

    /// Set mode to the sensor.
    pub fn set_mode(&mut self, mode: Mode) -> (r: Result<(), AtmosphericSensorI2cError>)
        ensures
            final(self).did(old(self), seq![mode.step()]),
            reports(r, final(self).since(old(self)), ()),
    {
        self.update_register(registers::CTRL_MEAS_REG, 0xFC, u8::from(mode))
    }

    /// Get measuring bit.
    pub fn is_measuring(&mut self) -> (r: Result<bool, AtmosphericSensorI2cError>)
        ensures
            final(self).did(old(self), reads(seq![registers::STAT_REG])),
            reports(
                r,
                final(self).since(old(self)),
                measuring_flag(bytes_read(final(self).since(old(self)))[0]),
            ),
    {
        match self.get_status() {
            Ok(status) => Ok(measuring(status)),
            Err(e) => Err(e),
        }
    }

    /// Get updating bit.
    pub fn is_updating(&mut self) -> (r: Result<bool, AtmosphericSensorI2cError>)
        ensures
            final(self).did(old(self), reads(seq![registers::STAT_REG])),
            reports(
                r,
                final(self).since(old(self)),
                updating_flag(bytes_read(final(self).since(old(self)))[0]),
            ),
    {
        match self.get_status() {
            Ok(status) => Ok(updating(status)),
            Err(e) => Err(e),
        }
    }

    /// Get status.
    fn get_status(&mut self) -> (r: Result<u8, AtmosphericSensorI2cError>)
        ensures
            final(self).did(old(self), reads(seq![registers::STAT_REG])),
            reports(r, final(self).since(old(self)), bytes_read(final(self).since(old(self)))[0]),
    {
        read_byte(self, registers::STAT_REG)
    }

    /// Reads `register`, keeps the bits of `keep`, sets those of `field` and writes the
    /// byte back.
    fn update_register(&mut self, register: u8, keep: u8, field: u8) -> (r: Result<
        (),
        AtmosphericSensorI2cError,
    >)
        ensures
            final(self).did(old(self), seq![Step::Update { register, keep, field }]),
            reports(r, final(self).since(old(self)), ()),
    {
        let ghost before = self.transfers();
        let read = read_byte(self, register);
        let ghost mid = self.transfers();
        proof {
            reveal_with_fuel(follows, 2);
            assert(reads(seq![register])[0] == Step::Read { register });
        }
        let old_state = match read {
            Ok(byte) => byte,
            Err(e) => {
                return Err(e);
            },
        };
        let new_state = merge(old_state, keep, field);
        let bytes = [new_state];
        assert(bytes@ =~= seq![new_state]);
        let written = write_to_register(self, register, bytes.as_slice());
        proof {
            let after = self.transfers();
            let first = news(before, mid);
            let second = news(mid, after);
            lemma_reads_complete(first, seq![register]);
            lemma_ran_joined(
                before,
                mid,
                after,
                reads(seq![register]),
                seq![Step::Write { register, payload: seq![new_state] }],
                Seq::empty(),
            );
            let log = news(before, after);
            assert(log =~= first + second);
            assert(log[0] == first[0]);
            assert(log[1] == second[0]);
            assert(log.skip(2) =~= Seq::<Transfer>::empty());
            assert(seq![Step::Update { register, keep, field }].skip(1) =~= Seq::<Step>::empty());
        }
        written
    }

    /// Write oversampling for humidity sampling.
    pub fn set_humidity_oversample(&mut self, rate: Oversampling) -> (r: Result<
        (),
        AtmosphericSensorI2cError,
    >)
        ensures
            final(self).did(old(self), seq![rate.humidity_step()]),
            reports(r, final(self).since(old(self)), ()),
    {
        self.update_register(registers::CTRL_HUMIDITY_REG, 0xF8, u8::from(rate))
    }

    /// Write oversampling for temperature sampling.
    pub fn set_temperature_oversample(&mut self, rate: Oversampling) -> (r: Result<
        (),
        AtmosphericSensorI2cError,
    >)
        ensures
            final(self).did(old(self), seq![rate.temperature_step()]),
            reports(r, final(self).since(old(self)), ()),
    {
        self.update_register(registers::CTRL_MEAS_REG, 0x1F, at_bit_5(u8::from(rate)))
    }

    /// Write oversampling for pressure sampling.
    pub fn set_pressure_oversample(&mut self, rate: Oversampling) -> (r: Result<
        (),
        AtmosphericSensorI2cError,
    >)
        ensures
            final(self).did(old(self), seq![rate.pressure_step()]),
            reports(r, final(self).since(old(self)), ()),
    {
        self.update_register(registers::CTRL_MEAS_REG, 0xE3, at_bit_2(u8::from(rate)))
    }

    /// Set standby time to sensor.
    pub fn set_standby_time(&mut self, standby: StandyTime) -> (r: Result<
        (),
        AtmosphericSensorI2cError,
    >)
        ensures
            final(self).did(old(self), seq![standby.step()]),
            reports(r, final(self).since(old(self)), ()),
    {
        self.update_register(registers::CONFIG_REG, 0x1F, at_bit_5(u8::from(standby)))
    }

    /// Set filter to sensor.
    pub fn set_filter(&mut self, filter: Filter) -> (r: Result<(), AtmosphericSensorI2cError>)
        ensures
            final(self).did(old(self), seq![filter.step()]),
            reports(r, final(self).since(old(self)), ()),
    {
        self.update_register(registers::CONFIG_REG, 0xE3, at_bit_2(u8::from(filter)))
    }

    /// Get temperature value from sensor.
    pub fn get_temperature_raw(&mut self) -> (r: Result<u32, AtmosphericSensorI2cError>)
        ensures
            final(self).did(
                old(self),
                reads(
                    seq![
                        registers::TEMPERATURE_MSB_REG,
                        registers::TEMPERATURE_LSB_REG,
                        registers::TEMPERATURE_XLSB_REG,
                    ],
                ),
            ),
            reports(
                r,
                final(self).since(old(self)),
                sample_20bit_of(bytes_read(final(self).since(old(self)))),
            ),
    {
        let registers = [
            registers::TEMPERATURE_MSB_REG,
            registers::TEMPERATURE_LSB_REG,
            registers::TEMPERATURE_XLSB_REG,
        ];
        assert(registers@ =~= seq![
            registers::TEMPERATURE_MSB_REG,
            registers::TEMPERATURE_LSB_REG,
            registers::TEMPERATURE_XLSB_REG,
        ]);
        match read_multiple_registers(self, registers.as_slice()) {
            Ok(buffer) => Ok(assemble_20bit(buffer[0], buffer[1], buffer[2])),
            Err(e) => Err(e),
        }
    }

    /// Get pressure value from sensor.
    pub fn get_pressure_raw(&mut self) -> (r: Result<u32, AtmosphericSensorI2cError>)
        ensures
            final(self).did(
                old(self),
                reads(
                    seq![
                        registers::PRESSURE_MSB_REG,
                        registers::PRESSURE_LSB_REG,
                        registers::PRESSURE_XLSB_REG,
                    ],
                ),
            ),
            reports(
                r,
                final(self).since(old(self)),
                sample_20bit_of(bytes_read(final(self).since(old(self)))),
            ),
    {
        let registers = [
            registers::PRESSURE_MSB_REG,
            registers::PRESSURE_LSB_REG,
            registers::PRESSURE_XLSB_REG,
        ];
        assert(registers@ =~= seq![
            registers::PRESSURE_MSB_REG,
            registers::PRESSURE_LSB_REG,
            registers::PRESSURE_XLSB_REG,
        ]);
        match read_multiple_registers(self, registers.as_slice()) {
            Ok(buffer) => Ok(assemble_20bit(buffer[0], buffer[1], buffer[2])),
            Err(e) => Err(e),
        }
    }

    /// Get humidity value from sensor.
    pub fn get_humidity_raw(&mut self) -> (r: Result<u32, AtmosphericSensorI2cError>)
        ensures
            final(self).did(
                old(self),
                reads(seq![registers::HUMIDITY_MSB_REG, registers::HUMIDITY_LSB_REG]),
            ),
            reports(
                r,
                final(self).since(old(self)),
                sample_16bit_of(bytes_read(final(self).since(old(self)))),
            ),
    {
        let registers = [registers::HUMIDITY_MSB_REG, registers::HUMIDITY_LSB_REG];
        assert(registers@ =~= seq![registers::HUMIDITY_MSB_REG, registers::HUMIDITY_LSB_REG]);
        match read_multiple_registers(self, registers.as_slice()) {
            Ok(buffer) => Ok(assemble_16bit(buffer[0], buffer[1])),
            Err(e) => Err(e),
        }
    }

    /// Reads an unsigned 16-bit coefficient from the registers of its low and high byte.
    fn get_unsigned(&mut self, low: u8, high: u8) -> (r: Result<u16, AtmosphericSensorI2cError>)
        ensures
            final(self).did(old(self), reads(seq![low, high])),
            reports(
                r,
                final(self).since(old(self)),
                u16_of(bytes_read(final(self).since(old(self)))),
            ),
    {
        let registers = [low, high];
        assert(registers@ =~= seq![low, high]);
        match read_multiple_registers(self, registers.as_slice()) {
            Ok(buffer) => Ok(read_u16_le(buffer.as_slice())),
            Err(e) => Err(e),
        }
    }

    /// Reads a signed 16-bit coefficient from the registers of its low and high byte.
    fn get_signed(&mut self, low: u8, high: u8) -> (r: Result<i16, AtmosphericSensorI2cError>)
        ensures
            final(self).did(old(self), reads(seq![low, high])),
            reports(
                r,
                final(self).since(old(self)),
                i16_of(bytes_read(final(self).since(old(self)))),
            ),
    {
        let registers = [low, high];
        assert(registers@ =~= seq![low, high]);
        match read_multiple_registers(self, registers.as_slice()) {
            Ok(buffer) => Ok(read_i16_le(buffer.as_slice())),
            Err(e) => Err(e),
        }
    }

    /// Get the first temperature coefficient.
    pub fn get_t1(&mut self) -> (r: Result<u16, AtmosphericSensorI2cError>)
        ensures
            final(self).did(
                old(self),
                reads(seq![registers::DIG_T1_LSB_REG, registers::DIG_T1_MSB_REG]),
            ),
            reports(
                r,
                final(self).since(old(self)),
                u16_of(bytes_read(final(self).since(old(self)))),
            ),
    {
        self.get_unsigned(registers::DIG_T1_LSB_REG, registers::DIG_T1_MSB_REG)
    }

    /// Get the second temperature coefficient.
    pub fn get_t2(&mut self) -> (r: Result<i16, AtmosphericSensorI2cError>)
        ensures
            final(self).did(
                old(self),
                reads(seq![registers::DIG_T2_LSB_REG, registers::DIG_T2_MSB_REG]),
            ),
            reports(
                r,
                final(self).since(old(self)),
                i16_of(bytes_read(final(self).since(old(self)))),
            ),
    {
        self.get_signed(registers::DIG_T2_LSB_REG, registers::DIG_T2_MSB_REG)
    }

    /// Get the third temperature coefficient.
    pub fn get_t3(&mut self) -> (r: Result<i16, AtmosphericSensorI2cError>)
        ensures
            final(self).did(
                old(self),
                reads(seq![registers::DIG_T3_LSB_REG, registers::DIG_T3_MSB_REG]),
            ),
            reports(
                r,
                final(self).since(old(self)),
                i16_of(bytes_read(final(self).since(old(self)))),
            ),
    {
        self.get_signed(registers::DIG_T3_LSB_REG, registers::DIG_T3_MSB_REG)
    }

    /// Get the first pressure coefficient.
    pub fn get_p1(&mut self) -> (r: Result<u16, AtmosphericSensorI2cError>)
        ensures
            final(self).did(
                old(self),
                reads(seq![registers::DIG_P1_LSB_REG, registers::DIG_P1_MSB_REG]),
            ),
            reports(
                r,
                final(self).since(old(self)),
                u16_of(bytes_read(final(self).since(old(self)))),
            ),
    {
        self.get_unsigned(registers::DIG_P1_LSB_REG, registers::DIG_P1_MSB_REG)
    }

    /// Get the second pressure coefficient.
    pub fn get_p2(&mut self) -> (r: Result<i16, AtmosphericSensorI2cError>)
        ensures
            final(self).did(
                old(self),
                reads(seq![registers::DIG_P2_LSB_REG, registers::DIG_P2_MSB_REG]),
            ),
            reports(
                r,
                final(self).since(old(self)),
                i16_of(bytes_read(final(self).since(old(self)))),
            ),
    {
        self.get_signed(registers::DIG_P2_LSB_REG, registers::DIG_P2_MSB_REG)
    }

    /// Get the third pressure coefficient.
    pub fn get_p3(&mut self) -> (r: Result<i16, AtmosphericSensorI2cError>)
        ensures
            final(self).did(
                old(self),
                reads(seq![registers::DIG_P3_LSB_REG, registers::DIG_P3_MSB_REG]),
            ),
            reports(
                r,
                final(self).since(old(self)),
                i16_of(bytes_read(final(self).since(old(self)))),
            ),
    {
        self.get_signed(registers::DIG_P3_LSB_REG, registers::DIG_P3_MSB_REG)
    }

    /// Get the fourth pressure coefficient.
    pub fn get_p4(&mut self) -> (r: Result<i16, AtmosphericSensorI2cError>)
        ensures
            final(self).did(
                old(self),
                reads(seq![registers::DIG_P4_LSB_REG, registers::DIG_P4_MSB_REG]),
            ),
            reports(
                r,
                final(self).since(old(self)),
                i16_of(bytes_read(final(self).since(old(self)))),
            ),
    {
        self.get_signed(registers::DIG_P4_LSB_REG, registers::DIG_P4_MSB_REG)
    }

    /// Get the fifth pressure coefficient.
    pub fn get_p5(&mut self) -> (r: Result<i16, AtmosphericSensorI2cError>)
        ensures
            final(self).did(
                old(self),
                reads(seq![registers::DIG_P5_LSB_REG, registers::DIG_P5_MSB_REG]),
            ),
            reports(
                r,
                final(self).since(old(self)),
                i16_of(bytes_read(final(self).since(old(self)))),
            ),
    {
        self.get_signed(registers::DIG_P5_LSB_REG, registers::DIG_P5_MSB_REG)
    }

    /// Get the sixth pressure coefficient.
    pub fn get_p6(&mut self) -> (r: Result<i16, AtmosphericSensorI2cError>)
        ensures
            final(self).did(
                old(self),
                reads(seq![registers::DIG_P6_LSB_REG, registers::DIG_P6_MSB_REG]),
            ),
            reports(
                r,
                final(self).since(old(self)),
                i16_of(bytes_read(final(self).since(old(self)))),
            ),
    {
        self.get_signed(registers::DIG_P6_LSB_REG, registers::DIG_P6_MSB_REG)
    }

    /// Get the seventh pressure coefficient.
    pub fn get_p7(&mut self) -> (r: Result<i16, AtmosphericSensorI2cError>)
        ensures
            final(self).did(
                old(self),
                reads(seq![registers::DIG_P7_LSB_REG, registers::DIG_P7_MSB_REG]),
            ),
            reports(
                r,
                final(self).since(old(self)),
                i16_of(bytes_read(final(self).since(old(self)))),
            ),
    {
        self.get_signed(registers::DIG_P7_LSB_REG, registers::DIG_P7_MSB_REG)
    }

    /// Get the eighth pressure coefficient.
    pub fn get_p8(&mut self) -> (r: Result<i16, AtmosphericSensorI2cError>)
        ensures
            final(self).did(
                old(self),
                reads(seq![registers::DIG_P8_LSB_REG, registers::DIG_P8_MSB_REG]),
            ),
            reports(
                r,
                final(self).since(old(self)),
                i16_of(bytes_read(final(self).since(old(self)))),
            ),
    {
        self.get_signed(registers::DIG_P8_LSB_REG, registers::DIG_P8_MSB_REG)
    }

    /// Get the ninth pressure coefficient.
    pub fn get_p9(&mut self) -> (r: Result<i16, AtmosphericSensorI2cError>)
        ensures
            final(self).did(
                old(self),
                reads(seq![registers::DIG_P9_LSB_REG, registers::DIG_P9_MSB_REG]),
            ),
            reports(
                r,
                final(self).since(old(self)),
                i16_of(bytes_read(final(self).since(old(self)))),
            ),
    {
        self.get_signed(registers::DIG_P9_LSB_REG, registers::DIG_P9_MSB_REG)
    }

    /// Get the first humidity coefficient.
    pub fn get_h1(&mut self) -> (r: Result<u8, AtmosphericSensorI2cError>)
        ensures
            final(self).did(old(self), reads(seq![registers::DIG_H1_REG])),
            reports(r, final(self).since(old(self)), bytes_read(final(self).since(old(self)))[0]),
    {
        read_byte(self, registers::DIG_H1_REG)
    }

    /// Get the second humidity coefficient.
    pub fn get_h2(&mut self) -> (r: Result<i16, AtmosphericSensorI2cError>)
        ensures
            final(self).did(
                old(self),
                reads(seq![registers::DIG_H2_LSB_REG, registers::DIG_H2_MSB_REG]),
            ),
            reports(
                r,
                final(self).since(old(self)),
                i16_of(bytes_read(final(self).since(old(self)))),
            ),
    {
        self.get_signed(registers::DIG_H2_LSB_REG, registers::DIG_H2_MSB_REG)
    }

    /// Get the third humidity coefficient.
    pub fn get_h3(&mut self) -> (r: Result<u8, AtmosphericSensorI2cError>)
        ensures
            final(self).did(old(self), reads(seq![registers::DIG_H3_REG])),
            reports(r, final(self).since(old(self)), bytes_read(final(self).since(old(self)))[0]),
    {
        read_byte(self, registers::DIG_H3_REG)
    }

    /// Get the fourth humidity coefficient: its own register, then the register it
    /// shares with the fifth, of which it has the low nibble.
    pub fn get_h4(&mut self) -> (r: Result<i16, AtmosphericSensorI2cError>)
        ensures
            final(self).did(
                old(self),
                reads(seq![registers::DIG_H4_MSB_REG, registers::DIG_H4_LSB_REG]),
            ),
            reports(
                r,
                final(self).since(old(self)),
                h4_of(bytes_read(final(self).since(old(self)))),
            ),
    {
        let registers = [registers::DIG_H4_MSB_REG, registers::DIG_H4_LSB_REG];
        assert(registers@ =~= seq![registers::DIG_H4_MSB_REG, registers::DIG_H4_LSB_REG]);
        match read_multiple_registers(self, registers.as_slice()) {
            Ok(buffer) => Ok(unpack_with_low_nibble(buffer[0], buffer[1])),
            Err(e) => Err(e),
        }
    }

    /// Get the fifth humidity coefficient: its own register, then the register it
    /// shares with the fourth, of which it has the high nibble. The shared register is
    /// read again, not remembered from the fourth.
    pub fn get_h5(&mut self) -> (r: Result<i16, AtmosphericSensorI2cError>)
        ensures
            final(self).did(
                old(self),
                reads(seq![registers::DIG_H5_MSB_REG, registers::DIG_H4_LSB_REG]),
            ),
            reports(
                r,
                final(self).since(old(self)),
                h5_of(bytes_read(final(self).since(old(self)))),
            ),
    {
        let registers = [registers::DIG_H5_MSB_REG, registers::DIG_H4_LSB_REG];
        assert(registers@ =~= seq![registers::DIG_H5_MSB_REG, registers::DIG_H4_LSB_REG]);
        match read_multiple_registers(self, registers.as_slice()) {
            Ok(buffer) => Ok(unpack_with_high_nibble(buffer[0], buffer[1])),
            Err(e) => Err(e),
        }
    }

    /// Get the sixth humidity coefficient.
    pub fn get_h6(&mut self) -> (r: Result<i8, AtmosphericSensorI2cError>)
        ensures
            final(self).did(old(self), reads(seq![registers::DIG_H6_REG])),
            reports(
                r,
                final(self).since(old(self)),
                i8_of(bytes_read(final(self).since(old(self)))),
            ),
    {
        match read_byte(self, registers::DIG_H6_REG) {
            Ok(byte) => Ok(reinterpret_signed(byte)),
            Err(e) => Err(e),
        }
    }
}

/// Get value from a specific register in sensor: selects `register` and fills `buffer`
/// from there on, in one transaction and without a second try.
pub fn read_from_register<I2C: RegisterBus>(
    dev: &mut AtmosphericSensorI2c<I2C>,
    register: u8,
    buffer: &mut [u8],
) -> (r: Result<(), AtmosphericSensorI2cError>)
    ensures
        final(dev).address() == old(dev).address(),
        final(dev).transfers() == old(dev).transfers().push(
            Transfer::Read {
                address: old(dev).address(),
                register,
                asked: old(buffer)@.len(),
                data: if r is Ok {
                    Some(final(buffer)@)
                } else {
                    None
                },
            },
        ),
        r is Err ==> r == Err::<(), AtmosphericSensorI2cError>(AtmosphericSensorI2cError::IOError),
{
    let ghost asked = buffer@.len();
    let write = [register];
    let outcome = dev.i2c.write_read(dev.address, write.as_slice(), buffer);
    proof {
        let data = if outcome is Ok {
            Some(buffer@)
        } else {
            None
        };
        dev.record@ = dev.record@.push(
            Transfer::Read { address: dev.address, register, asked, data },
        );
    }
    match outcome {
        Ok(_) => Ok(()),
        Err(_) => Err(AtmosphericSensorI2cError::IOError),
    }
}

/// Reads the one byte that `register` holds.
fn read_byte<I2C: RegisterBus>(dev: &mut AtmosphericSensorI2c<I2C>, register: u8) -> (r: Result<
    u8,
    AtmosphericSensorI2cError,
>)
    ensures
        final(dev).did(old(dev), reads(seq![register])),
        final(dev).since(old(dev)).len() == 1,
        reports(r, final(dev).since(old(dev)), bytes_read(final(dev).since(old(dev)))[0]),
{
    let ghost before = dev.transfers();
    let mut buffer = [0u8];
    let outcome = read_from_register(dev, register, &mut buffer);
    proof {
        let entry = dev.transfers().last();
        assert(before.push(entry).take(before.len() as int) =~= before);
        assert(news(before, before.push(entry)) =~= seq![entry]);
        assert(reads(seq![register])[0] == Step::Read { register });
        lemma_bytes_read_one(entry);
        reveal_with_fuel(follows, 2);
        assert(seq![entry][0].succeeded() == outcome is Ok);
        assert(buffer@ =~= seq![buffer@[0]]);
    }
    match outcome {
        Ok(_) => Ok(buffer[0]),
        Err(e) => Err(e),
    }
}

/// Set value from a specific register in sensor: sends the register's address and then
/// `bytes`, in one transaction and without a second try.
pub fn write_to_register<I2C: RegisterBus>(
    dev: &mut AtmosphericSensorI2c<I2C>,
    register: u8,
    bytes: &[u8],
) -> (r: Result<(), AtmosphericSensorI2cError>)
    ensures
        final(dev).did(old(dev), seq![Step::Write { register, payload: bytes@ }]),
        final(dev).transfers() == old(dev).transfers().push(
            Transfer::Write {
                address: old(dev).address(),
                bytes: seq![register] + bytes@,
                done: r is Ok,
            },
        ),
        reports(r, final(dev).since(old(dev)), ()),
{
    let mut buffer: Vec<u8> = Vec::new();
    buffer.push(register);
    let mut i: usize = 0;
    while i < bytes.len()
        invariant
            i <= bytes@.len(),
            buffer@ =~= seq![register] + bytes@.take(i as int),
        decreases bytes@.len() - i,
    {
        buffer.push(bytes[i]);
        i = i + 1;
    }
    assert(bytes@.take(i as int) =~= bytes@);
    let outcome = dev.i2c.write(dev.address, buffer.as_slice());
    let ghost done = outcome is Ok;
    proof {
        let entry = Transfer::Write { address: dev.address, bytes: buffer@, done };
        let before = dev.record@;
        dev.record@ = before.push(entry);
        assert(before.push(entry).take(before.len() as int) =~= before);
        assert(news(before, before.push(entry)) =~= seq![entry]);
        reveal_with_fuel(follows, 2);
        assert(seq![entry][0].succeeded() == done);
    }
    match outcome {
        Ok(_) => Ok(()),
        Err(_) => Err(AtmosphericSensorI2cError::IOError),
    }
}

/// Helper function to read multiple registers at once and store value on Vec: one byte
/// from each register, in order. The first read that fails ends the attempt; the bytes
/// read before it are not given out, and no register after it is read.
pub fn read_multiple_registers<I2C: RegisterBus>(
    dev: &mut AtmosphericSensorI2c<I2C>,
    registers: &[u8],
) -> (r: Result<Vec<u8>, AtmosphericSensorI2cError>)
    ensures
        final(dev).did(old(dev), reads(registers@)),
        match r {
            Ok(buffer) => {
                &&& all_succeeded(final(dev).since(old(dev)))
                &&& buffer@ == bytes_read(final(dev).since(old(dev)))
                &&& buffer@.len() == registers@.len()
            },
            Err(e) => {
                &&& !all_succeeded(final(dev).since(old(dev)))
                &&& e == AtmosphericSensorI2cError::IOError
            },
        },
{
    let ghost start = dev.transfers();
    let mut buffer: Vec<u8> = Vec::new();
    let mut i: usize = 0;
    proof {
        assert(start.take(start.len() as int) =~= start);
        assert(news(start, start) =~= Seq::<Transfer>::empty());
        assert(bytes_read(news(start, start)) =~= Seq::<u8>::empty());
    }
    while i < registers.len()
        invariant
            i <= registers@.len(),
            dev.address() == old(dev).address(),
            ran(start, dev.transfers(), reads(registers@.take(i as int))),
            all_succeeded(news(start, dev.transfers())),
            all_with(news(start, dev.transfers()), dev.address()),
            buffer@ == bytes_read(news(start, dev.transfers())),
            buffer@.len() == i,
            start == old(dev).transfers(),
        decreases registers@.len() - i,
    {
        let ghost mid = dev.transfers();
        let register = registers[i];
        let outcome = read_byte(dev, register);
        proof {
            let done = reads(registers@.take(i as int));
            let next = reads(seq![register]);
            let rest = reads(registers@.skip(i + 1));
            lemma_ran_joined(start, mid, dev.transfers(), done, next, rest);
            assert(done + next =~= reads(registers@.take(i + 1)));
            assert(done + next + rest =~= reads(registers@));
            if outcome is Ok {
                lemma_reads_complete(news(mid, dev.transfers()), seq![register]);
            }
        }
        match outcome {
            Ok(byte) => {
                buffer.push(byte);
                assert(bytes_read(news(mid, dev.transfers())) =~= seq![byte]);
            },
            Err(_) => {
                return Err(AtmosphericSensorI2cError::IOError);
            },
        }
        i = i + 1;
    }
    assert(registers@.take(i as int) =~= registers@);
    Ok(buffer)
}

} // verus!
