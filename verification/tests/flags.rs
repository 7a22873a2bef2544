use sm83::flags::{
    add_words, decrement, increment, rotate_left, rotate_right, Flag, Flags,
};

const CLEAR: Flags = Flags { zero: false, subtract: false, half_carry: false, carry: false };
const ALL: Flags = Flags { zero: true, subtract: true, half_carry: true, carry: true };

#[test]
fn each_flag_has_its_bit() {
    assert_eq!(Flag::Z.mask(), 0b1000_0000);
    assert_eq!(Flag::N.mask(), 0b0100_0000);
    assert_eq!(Flag::H.mask(), 0b0010_0000);
    assert_eq!(Flag::C.mask(), 0b0001_0000);
}

#[test]
fn flags_combine_as_bits() {
    assert_eq!(Flag::Z | Flag::C, 0b1001_0000);
    assert_eq!(Flag::N | Flag::H, 0b0110_0000);
    assert_eq!(Flag::Z & Flag::Z, 0b1000_0000);
    assert_eq!(Flag::Z & Flag::C, 0);
}

#[test]
fn flags_write_as_the_high_nibble() {
    assert_eq!(CLEAR.to_byte(), 0x00);
    assert_eq!(ALL.to_byte(), 0xF0);
    assert_eq!(Flags { zero: true, ..CLEAR }.to_byte(), 0x80);
    assert_eq!(Flags { subtract: true, ..CLEAR }.to_byte(), 0x40);
    assert_eq!(Flags { half_carry: true, ..CLEAR }.to_byte(), 0x20);
    assert_eq!(Flags { carry: true, ..CLEAR }.to_byte(), 0x10);
    assert_eq!(Flags::cleared(), CLEAR);
}

#[test]
fn flags_read_drops_the_low_nibble() {
    assert_eq!(Flags::from_byte(0xFF), ALL);
    assert_eq!(Flags::from_byte(0x0F), CLEAR);
    assert_eq!(Flags::from_byte(0xA5), Flags { zero: true, half_carry: true, ..CLEAR });
    for byte in 0..=255u8 {
        assert_eq!(Flags::from_byte(byte).to_byte(), byte & 0xF0);
    }
}

#[test]
fn assign_moves_one_flag_only() {
    for flag in [Flag::Z, Flag::N, Flag::H, Flag::C] {
        let mut flags = CLEAR;
        flags.assign(flag, true);
        assert_eq!(flags.to_byte(), flag.mask());
        assert!(flags.is_set(flag));
        let mut flags = ALL;
        flags.assign(flag, false);
        assert_eq!(flags.to_byte(), 0xF0 & !flag.mask());
        assert!(!flags.is_set(flag));
    }
}

#[test]
fn increment_of_0x0f_sets_half_carry_and_clears_zero() {
    let (result, flags) = increment(0x0F, ALL);
    assert_eq!(result, 0x10);
    assert_eq!(flags, Flags { zero: false, subtract: false, half_carry: true, carry: true });
}

#[test]
fn increment_of_0xff_wraps_and_sets_zero() {
    let (result, flags) = increment(0xFF, CLEAR);
    assert_eq!(result, 0x00);
    assert_eq!(flags, Flags { zero: true, subtract: false, half_carry: true, carry: false });
}

#[test]
fn increment_without_nibble_carry_clears_half_carry() {
    let (result, flags) = increment(0x10, ALL);
    assert_eq!(result, 0x11);
    assert_eq!(flags, Flags { zero: false, subtract: false, half_carry: false, carry: true });
}

#[test]
fn decrement_of_0x10_sets_half_carry() {
    let (result, flags) = decrement(0x10, CLEAR);
    assert_eq!(result, 0x0F);
    assert_eq!(flags, Flags { zero: false, subtract: true, half_carry: true, carry: false });
}

#[test]
fn decrement_of_0x01_reaches_zero_without_half_carry() {
    let (result, flags) = decrement(0x01, ALL);
    assert_eq!(result, 0x00);
    assert_eq!(flags, Flags { zero: true, subtract: true, half_carry: false, carry: true });
}

#[test]
fn decrement_of_0x00_wraps() {
    let (result, flags) = decrement(0x00, CLEAR);
    assert_eq!(result, 0xFF);
    assert_eq!(flags, Flags { zero: false, subtract: true, half_carry: true, carry: false });
}

#[test]
fn decrement_of_0x02_clears_zero_and_half_carry() {
    let (result, flags) = decrement(0x02, ALL);
    assert_eq!(result, 0x01);
    assert_eq!(flags, Flags { zero: false, subtract: true, half_carry: false, carry: true });
}

#[test]
fn add_words_carries_past_bit_11() {
    let (result, flags) = add_words(0x0FFF, 0x0001, ALL);
    assert_eq!(result, 0x1000);
    assert_eq!(flags, Flags { zero: true, subtract: false, half_carry: true, carry: false });
}

#[test]
fn add_words_carries_past_bit_15() {
    let (result, flags) = add_words(0xF000, 0x1000, CLEAR);
    assert_eq!(result, 0x0000);
    assert_eq!(flags, Flags { zero: false, subtract: false, half_carry: false, carry: true });
}

#[test]
fn add_words_carries_past_both() {
    let (result, flags) = add_words(0xFFFF, 0x0001, CLEAR);
    assert_eq!(result, 0x0000);
    assert_eq!(flags, Flags { zero: false, subtract: false, half_carry: true, carry: true });
    let (result, flags) = add_words(0x8A23, 0x0605, CLEAR);
    assert_eq!(result, 0x9028);
    assert_eq!(flags, Flags { zero: false, subtract: false, half_carry: true, carry: false });
}

#[test]
fn add_words_without_carry() {
    let (result, flags) = add_words(0x1234, 0x0101, ALL);
    assert_eq!(result, 0x1335);
    assert_eq!(flags, Flags { zero: true, subtract: false, half_carry: false, carry: false });
}

#[test]
fn rotate_left_moves_bit_7_to_bit_0_and_carry() {
    assert_eq!(
        rotate_left(0b1100_1100),
        (0b1001_1001, Flags { carry: true, ..CLEAR })
    );
    assert_eq!(rotate_left(0b0100_0001), (0b1000_0010, CLEAR));
    assert_eq!(rotate_left(0x00), (0x00, CLEAR));
    assert_eq!(rotate_left(0xFF), (0xFF, Flags { carry: true, ..CLEAR }));
}

#[test]
fn rotate_right_moves_bit_0_to_bit_7_and_carry() {
    assert_eq!(rotate_right(0b1100_1100), (0b0110_0110, CLEAR));
    assert_eq!(
        rotate_right(0b0000_0011),
        (0b1000_0001, Flags { carry: true, ..CLEAR })
    );
    assert_eq!(rotate_right(0x00), (0x00, CLEAR));
    assert_eq!(rotate_right(0xFF), (0xFF, Flags { carry: true, ..CLEAR }));
}

#[test]
fn rotations_undo_each_other() {
    for byte in 0..=255u8 {
        assert_eq!(rotate_right(rotate_left(byte).0).0, byte);
        assert_eq!(rotate_left(rotate_right(byte).0).0, byte);
        assert_eq!(rotate_left(byte).0, byte.rotate_left(1));
        assert_eq!(rotate_right(byte).0, byte.rotate_right(1));
    }
}
