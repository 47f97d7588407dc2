//! Values as the register map packs them into bytes.

use vstd::prelude::*;
use byteorder::{ByteOrder, LittleEndian};

verus! {

/// The unsigned 16-bit number whose low byte is `low` and whose high byte is `high`.
pub open spec fn little_endian_u16(low: u8, high: u8) -> int {
    low + 256 * high
}

/// The signed 16-bit number, in two's complement, whose low byte is `low` and whose high
/// byte is `high`.
pub open spec fn little_endian_i16(low: u8, high: u8) -> int {
    if high >= 128 {
        low + 256 * high - 65536
    } else {
        low + 256 * high
    }
}

/// The signed 8-bit number, in two's complement, that the byte holds.
pub open spec fn signed_byte(byte: u8) -> int {
    if byte >= 128 {
        byte - 256
    } else {
        byte as int
    }
}

/// A 20-bit sample spread over three registers: eight bits, eight bits, and the high
/// nibble of the third.
pub open spec fn sample_20bit(msb: u8, lsb: u8, xlsb: u8) -> int {
    msb * 4096 + lsb * 16 + xlsb / 16
}

/// A 16-bit sample spread over two registers.
pub open spec fn sample_16bit(msb: u8, lsb: u8) -> int {
    msb * 256 + lsb
}

/// A 12-bit coefficient whose low four bits are the low nibble of a register that it
/// shares with another coefficient.
pub open spec fn packed_with_low_nibble(msb: u8, shared: u8) -> int {
    msb * 16 + shared % 16
}

/// A 12-bit coefficient whose low four bits are the high nibble of a register that it
/// shares with another coefficient.
pub open spec fn packed_with_high_nibble(msb: u8, shared: u8) -> int {
    msb * 16 + shared / 16
}

/// Whether the status byte says that a conversion is running.
pub open spec fn measuring_flag(status: u8) -> bool {
    (status / 4) % 2 == 1
}

/// Whether the status byte says that the sensor is copying its coefficients.
pub open spec fn updating_flag(status: u8) -> bool {
    status % 2 == 1
}

/// Calls `byteorder::LittleEndian::read_u16`, which reads the first two bytes of `buf` as
/// an unsigned number, low byte first, and panics on fewer than two bytes.
#[verifier::external_body]
pub(crate) fn read_u16_le(buf: &[u8]) -> (value: u16)
    requires
        buf@.len() >= 2,
    ensures
        value == little_endian_u16(buf@[0], buf@[1]),
{
    LittleEndian::read_u16(buf)
}

/// Calls `byteorder::LittleEndian::read_i16`, which reads the first two bytes of `buf` as
/// a signed number in two's complement, low byte first, and panics on fewer than two
/// bytes.
#[verifier::external_body]
pub(crate) fn read_i16_le(buf: &[u8]) -> (value: i16)
    requires
        buf@.len() >= 2,
    ensures
        value == little_endian_i16(buf@[0], buf@[1]),
{
    LittleEndian::read_i16(buf)
}

/// Puts a 20-bit sample together from its three registers.
pub fn assemble_20bit(msb: u8, lsb: u8, xlsb: u8) -> (raw: u32)
    ensures
        raw == sample_20bit(msb, lsb, xlsb),
        raw < 0x10_0000,
{
    let raw = ((msb as u32) << 12) | ((lsb as u32) << 4) | (((xlsb as u32) >> 4) & 0x0F);
    assert(raw == msb * 4096 + lsb * 16 + xlsb / 16) by (bit_vector)
        requires
            raw == ((msb as u32) << 12) | ((lsb as u32) << 4) | (((xlsb as u32) >> 4) & 0x0F),
    ;
    raw
}

/// Puts a 16-bit sample together from its two registers.
pub fn assemble_16bit(msb: u8, lsb: u8) -> (raw: u32)
    ensures
        raw == sample_16bit(msb, lsb),
        raw < 0x1_0000,
{
    let raw = ((msb as u32) << 8) | (lsb as u32);
    assert(raw == msb * 256 + lsb) by (bit_vector)
        requires
            raw == ((msb as u32) << 8) | (lsb as u32),
    ;
    raw
}

/// Takes a 12-bit coefficient from its own register and the low nibble of the shared one.
pub fn unpack_with_low_nibble(msb: u8, shared: u8) -> (value: i16)
    ensures
        value == packed_with_low_nibble(msb, shared),
        0 <= value < 4096,
{
    let bits = ((msb as u16) << 4) | ((shared as u16) & 0x0F);
    assert(bits == msb * 16 + shared % 16) by (bit_vector)
        requires
            bits == ((msb as u16) << 4) | ((shared as u16) & 0x0F),
    ;
    bits as i16
}

/// Takes a 12-bit coefficient from its own register and the high nibble of the shared one.
pub fn unpack_with_high_nibble(msb: u8, shared: u8) -> (value: i16)
    ensures
        value == packed_with_high_nibble(msb, shared),
        0 <= value < 4096,
{
    let bits = ((msb as u16) << 4) | (((shared as u16) >> 4) & 0x0F);
    assert(bits == msb * 16 + shared / 16) by (bit_vector)
        requires
            bits == ((msb as u16) << 4) | (((shared as u16) >> 4) & 0x0F),
    ;
    bits as i16
}

/// Reads a byte as a signed number in two's complement.
pub fn reinterpret_signed(byte: u8) -> (value: i8)
    ensures
        value == signed_byte(byte),
{
    assert(byte as i8 == if byte >= 128 {
        byte - 256
    } else {
        byte as int
    }) by (bit_vector);
    byte as i8
}

/// Keeps the bits of `keep` in `old` and sets those of `field`.
pub fn merge(old: u8, keep: u8, field: u8) -> (new: u8)
    ensures
        new == (old & keep) | field,
{
    (old & keep) | field
}

/// A field that lies outside the bits kept is written as it is, and the bits kept stay
/// as they were.
pub proof fn lemma_merge(old: u8, keep: u8, field: u8)
    by (bit_vector)
    requires
        field & keep == 0,
    ensures
        ((old & keep) | field) & keep == old & keep,
        ((old & keep) | field) & !keep == field,
{
}

/// Moves the three lowest bits to the places 4 to 2 of a byte and clears the others.
pub fn at_bit_2(bits: u8) -> (field: u8)
    ensures
        field == (bits % 8) * 4,
        field & 0xE3 == 0,
{
    let field = (bits & 0x07) << 2;
    assert(field == (bits % 8) * 4 && field & 0xE3 == 0) by (bit_vector)
        requires
            field == (bits & 0x07) << 2,
    ;
    field
}

/// Moves the three lowest bits to the places 7 to 5 of a byte.
pub fn at_bit_5(bits: u8) -> (field: u8)
    ensures
        field == (bits % 8) * 32,
        field & 0x1F == 0,
{
    let field = bits << 5;
    assert(field == (bits % 8) * 32 && field & 0x1F == 0) by (bit_vector)
        requires
            field == bits << 5,
    ;
    field
}

/// Tells from the status byte whether a conversion is running.
pub fn measuring(status: u8) -> (flag: bool)
    ensures
        flag == measuring_flag(status),
{
    let bit = (status & 0x04) >> 2;
    assert(bit == (status / 4) % 2) by (bit_vector)
        requires
            bit == (status & 0x04) >> 2,
    ;
    bit == 1
}

/// Tells from the status byte whether the sensor is copying its coefficients.
pub fn updating(status: u8) -> (flag: bool)
    ensures
        flag == updating_flag(status),
{
    let bit = status & 0x01;
    assert(bit == status % 2) by (bit_vector)
        requires
            bit == status & 0x01,
    ;
    bit == 1
}

} // verus!
