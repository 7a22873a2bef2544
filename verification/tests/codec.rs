use sm83::codec::{to_u16, to_u8};
use sm83::state::{add_cycles, advance_word, next_word, previous_word};

#[test]
fn pack_puts_the_first_byte_high() {
    assert_eq!(to_u16(0xAB, 0xCD), 0xABCD);
    assert_eq!(to_u16(0x00, 0xFF), 0x00FF);
    assert_eq!(to_u16(0xFF, 0x00), 0xFF00);
    assert_eq!(to_u16(0x00, 0x00), 0x0000);
    assert_eq!(to_u16(0xFF, 0xFF), 0xFFFF);
}

#[test]
fn unpack_gives_the_high_byte_first() {
    assert_eq!(to_u8(0xABCD), (0xAB, 0xCD));
    assert_eq!(to_u8(0x0100), (0x01, 0x00));
    assert_eq!(to_u8(0x00FF), (0x00, 0xFF));
    assert_eq!(to_u8(0x0000), (0x00, 0x00));
    assert_eq!(to_u8(0xFFFF), (0xFF, 0xFF));
}

#[test]
fn unpack_undoes_pack_for_every_pair() {
    for high in 0..=255u8 {
        for low in 0..=255u8 {
            assert_eq!(to_u8(to_u16(high, low)), (high, low));
        }
    }
}

#[test]
fn pack_undoes_unpack_for_every_word() {
    for word in 0..=0xFFFFu16 {
        let (high, low) = to_u8(word);
        assert_eq!(to_u16(high, low), word);
    }
}

#[test]
fn words_step_around_the_ends_of_their_range() {
    assert_eq!(next_word(0x00FF), 0x0100);
    assert_eq!(next_word(0xFFFF), 0x0000);
    assert_eq!(previous_word(0x0100), 0x00FF);
    assert_eq!(previous_word(0x0000), 0xFFFF);
    assert_eq!(advance_word(0xC000, 3), 0xC003);
    assert_eq!(advance_word(0xFFFE, 3), 0x0001);
    assert_eq!(add_cycles(100, 12), 112);
    assert_eq!(add_cycles(u64::MAX, 4), 3);
}
