use tonzoboy::util::{lsb, make_word, msb, rotate_left, rotate_right, swap};

#[test]
fn make_word_puts_the_first_byte_on_top() {
    assert_eq!(make_word(0x12, 0x34), 0x1234);
    assert_eq!(make_word(0xFF, 0x00), 0xFF00);
    assert_eq!(make_word(0x00, 0xFF), 0x00FF);
    assert_eq!(make_word(0x00, 0x00), 0x0000);
    assert_eq!(make_word(0xFF, 0xFF), 0xFFFF);
}

#[test]
fn lsb_and_msb_split_a_word() {
    assert_eq!(lsb(0x1234), 0x34);
    assert_eq!(msb(0x1234), 0x12);
    assert_eq!(lsb(0xFF00), 0x00);
    assert_eq!(msb(0xFF00), 0xFF);
    assert_eq!(lsb(0x00FF), 0xFF);
    assert_eq!(msb(0x00FF), 0x00);
}

#[test]
fn every_word_survives_split_and_join() {
    for word in 0..=u16::MAX {
        assert_eq!(make_word(msb(word), lsb(word)), word);
    }
}

#[test]
fn every_pair_of_bytes_survives_join_and_split() {
    for high in 0..=u8::MAX {
        for low in 0..=u8::MAX {
            let word = make_word(high, low);
            assert_eq!(msb(word), high);
            assert_eq!(lsb(word), low);
        }
    }
}

#[test]
fn swap_exchanges_the_nibbles() {
    assert_eq!(swap(0xAB), 0xBA);
    assert_eq!(swap(0xF0), 0x0F);
    assert_eq!(swap(0x01), 0x10);
    assert_eq!(swap(0x00), 0x00);
    assert_eq!(swap(0xFF), 0xFF);
}

#[test]
fn swap_twice_is_the_identity() {
    for byte in 0..=u8::MAX {
        assert_eq!(swap(swap(byte)), byte);
    }
}

#[test]
fn rotate_left_moves_the_top_bit_to_the_bottom() {
    assert_eq!(rotate_left(0b1000_0001, 1), 0b0000_0011);
    assert_eq!(rotate_left(0b0100_0000, 1), 0b1000_0000);
    assert_eq!(rotate_left(0x12, 4), 0x21);
    assert_eq!(rotate_left(0b0000_0001, 7), 0b1000_0000);
    assert_eq!(rotate_left(0b1100_0000, 3), 0b0000_0110);
}

#[test]
fn rotate_right_moves_the_bottom_bit_to_the_top() {
    assert_eq!(rotate_right(0b1000_0001, 1), 0b1100_0000);
    assert_eq!(rotate_right(0b0000_0010, 1), 0b0000_0001);
    assert_eq!(rotate_right(0x12, 4), 0x21);
    assert_eq!(rotate_right(0b1000_0000, 7), 0b0000_0001);
    assert_eq!(rotate_right(0b0000_0011, 3), 0b0110_0000);
}

#[test]
fn rotation_amounts_count_modulo_eight() {
    assert_eq!(rotate_left(0xA5, 0), 0xA5);
    assert_eq!(rotate_left(0xA5, 8), 0xA5);
    assert_eq!(rotate_left(0x81, 9), 0x03);
    assert_eq!(rotate_left(0x81, 255), 0xC0);
    assert_eq!(rotate_right(0xA5, 0), 0xA5);
    assert_eq!(rotate_right(0xA5, 8), 0xA5);
    assert_eq!(rotate_right(0x81, 9), 0xC0);
    assert_eq!(rotate_right(0x81, 255), 0x03);
}

#[test]
fn rotations_agree_with_the_standard_library() {
    for byte in 0..=u8::MAX {
        for amount in 0..=u8::MAX {
            assert_eq!(rotate_left(byte, amount), byte.rotate_left(amount as u32));
            assert_eq!(rotate_right(byte, amount), byte.rotate_right(amount as u32));
        }
    }
}

#[test]
fn rotate_right_undoes_rotate_left() {
    for byte in 0..=u8::MAX {
        for amount in 0..=u8::MAX {
            assert_eq!(rotate_right(rotate_left(byte, amount), amount), byte);
            assert_eq!(rotate_left(rotate_right(byte, amount), amount), byte);
        }
    }
}
