use atmospheric_sensor::i2c::fields::{
    assemble_16bit, assemble_20bit, at_bit_2, at_bit_5, measuring, merge, reinterpret_signed,
    unpack_with_high_nibble, unpack_with_low_nibble, updating,
};

#[test]
fn shared_register_gives_its_low_nibble_to_the_fourth_coefficient() {
    assert_eq!(unpack_with_low_nibble(0x12, 0x34), 0x124);
    assert_eq!(unpack_with_low_nibble(19, 40), 312);
    assert_eq!(unpack_with_low_nibble(0xFF, 0xFF), 4095);
    assert_eq!(unpack_with_low_nibble(0, 0xF0), 0);
}

#[test]
fn shared_register_gives_its_high_nibble_to_the_fifth_coefficient() {
    assert_eq!(unpack_with_high_nibble(0x56, 0x34), 0x563);
    assert_eq!(unpack_with_high_nibble(3, 40), 50);
    assert_eq!(unpack_with_high_nibble(0xFF, 0xFF), 4095);
    assert_eq!(unpack_with_high_nibble(0, 0x0F), 0);
}

#[test]
fn twenty_bit_sample_is_put_together_from_three_registers() {
    assert_eq!(assemble_20bit(0x80, 0xBD, 0x00), 0x80BD0);
    assert_eq!(assemble_20bit(0x52, 0x4F, 0x0F), 0x524F0);
    assert_eq!(assemble_20bit(0xFF, 0xFF, 0xFF), 0xFFFFF);
    assert_eq!(assemble_20bit(0, 0, 0x10), 1);
}

#[test]
fn sixteen_bit_sample_is_put_together_from_two_registers() {
    assert_eq!(assemble_16bit(117, 97), 0x7561);
    assert_eq!(assemble_16bit(110, 213), 28373);
    assert_eq!(assemble_16bit(0xFF, 0xFF), 0xFFFF);
}

#[test]
fn byte_is_read_as_a_signed_number() {
    assert_eq!(reinterpret_signed(30), 30);
    assert_eq!(reinterpret_signed(127), 127);
    assert_eq!(reinterpret_signed(128), -128);
    assert_eq!(reinterpret_signed(255), -1);
}

#[test]
fn merge_keeps_and_sets_bits() {
    assert_eq!(merge(0b1010_1010, 0xFC, 0b11), 0b1010_1011);
    assert_eq!(merge(0xFF, 0x1F, at_bit_5(1)), 0b0011_1111);
    assert_eq!(merge(0xFF, 0xE3, at_bit_2(5)), 0b1111_0111);
    assert_eq!(merge(0x00, 0xE3, at_bit_2(7)), 0b0001_1100);
    assert_eq!(at_bit_5(7), 0xE0);
}

#[test]
fn status_flags_are_taken_from_their_bits() {
    assert!(measuring(0x04));
    assert!(!measuring(0x08));
    assert!(!measuring(0xFB));
    assert!(updating(0x01));
    assert!(!updating(0xFE));
}
