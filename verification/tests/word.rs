use agc::word::{
    Word, W1, W10, W11, W12, W13, W14, W15, W16, W2, W3, W4, W5, W6, W7, W8, W9,
};

#[test]
fn word_size_mask() {
    assert_eq!(W1::mask(), 0b0000_0000_0000_0001);
    assert_eq!(W2::mask(), 0b0000_0000_0000_0011);
    assert_eq!(W3::mask(), 0b0000_0000_0000_0111);
    assert_eq!(W4::mask(), 0b0000_0000_0000_1111);
    assert_eq!(W5::mask(), 0b0000_0000_0001_1111);
    assert_eq!(W6::mask(), 0b0000_0000_0011_1111);
    assert_eq!(W7::mask(), 0b0000_0000_0111_1111);
    assert_eq!(W8::mask(), 0b0000_0000_1111_1111);
    assert_eq!(W9::mask(), 0b0000_0001_1111_1111);
    assert_eq!(W10::mask(), 0b0000_0011_1111_1111);
    assert_eq!(W11::mask(), 0b0000_0111_1111_1111);
    assert_eq!(W12::mask(), 0b0000_1111_1111_1111);
    assert_eq!(W13::mask(), 0b0001_1111_1111_1111);
    assert_eq!(W14::mask(), 0b0011_1111_1111_1111);
    assert_eq!(W15::mask(), 0b0111_1111_1111_1111);
    assert_eq!(W16::mask(), 0b1111_1111_1111_1111);
}

#[test]
fn conversion_up() {
    let w1 = W1::from(0b1);
    assert_eq!(W2::from_word(w1).as_u16(), w1.as_u16());
    assert_eq!(W3::from_word(w1).as_u16(), w1.as_u16());
    assert_eq!(W4::from_word(w1).as_u16(), w1.as_u16());
    assert_eq!(W5::from_word(w1).as_u16(), w1.as_u16());
    assert_eq!(W6::from_word(w1).as_u16(), w1.as_u16());
    assert_eq!(W7::from_word(w1).as_u16(), w1.as_u16());
    assert_eq!(W8::from_word(w1).as_u16(), w1.as_u16());
    assert_eq!(W9::from_word(w1).as_u16(), w1.as_u16());
    assert_eq!(W10::from_word(w1).as_u16(), w1.as_u16());
    assert_eq!(W11::from_word(w1).as_u16(), w1.as_u16());
    assert_eq!(W12::from_word(w1).as_u16(), w1.as_u16());
    assert_eq!(W13::from_word(w1).as_u16(), w1.as_u16());
    assert_eq!(W14::from_word(w1).as_u16(), w1.as_u16());
    assert_eq!(W15::from_word(w1).as_u16(), w1.as_u16());
    assert_eq!(W16::from_word(w1).as_u16(), w1.as_u16());
}

#[test]
fn conversion_down() {
    let w16 = W16::from(0b1111_1111_1111_1111);
    assert_eq!(W15::from_word(w16).as_u16(), 0b111_1111_1111_1111);
    assert_eq!(W14::from_word(w16).as_u16(), 0b11_1111_1111_1111);
    assert_eq!(W13::from_word(w16).as_u16(), 0b1_1111_1111_1111);
    assert_eq!(W12::from_word(w16).as_u16(), 0b1111_1111_1111);
    assert_eq!(W11::from_word(w16).as_u16(), 0b111_1111_1111);
    assert_eq!(W10::from_word(w16).as_u16(), 0b11_1111_1111);
    assert_eq!(W9::from_word(w16).as_u16(), 0b1_1111_1111);
    assert_eq!(W8::from_word(w16).as_u16(), 0b1111_1111);
    assert_eq!(W7::from_word(w16).as_u16(), 0b111_1111);
    assert_eq!(W6::from_word(w16).as_u16(), 0b11_1111);
    assert_eq!(W5::from_word(w16).as_u16(), 0b1_1111);
    assert_eq!(W4::from_word(w16).as_u16(), 0b1111);
    assert_eq!(W3::from_word(w16).as_u16(), 0b111);
    assert_eq!(W2::from_word(w16).as_u16(), 0b11);
    assert_eq!(W1::from_word(w16).as_u16(), 0b1);
}

#[test]
fn get_set() {
    let mut w10 = W10::from(0);

    assert_eq!(w10.get(5), false);
    assert_eq!(w10.set(5, true), false);
    assert_eq!(w10.get(5), true);
    assert_eq!(w10.set(5, true), true);
    assert_eq!(w10.as_u16(), 0b00_0010_0000);
}

#[test]
fn bit_or() {
    let w10 = W10::from(0b00_0110_0110);

    assert_eq!(w10 | W10::zero(), w10);
    assert_eq!(w10 | W10::full(), W10::full());

    assert_eq!(w10 | 0b0000_0011u8, W10::from(0b00_0110_0111)); // with u8
    assert_eq!(w10 | 0b0000_0000_0000_1000u16, W10::from(0b00_0110_1110)); // with u16
    assert_eq!(w10 | W10::from(0b11_1111_0000), W10::from(0b11_1111_0110)); // with same size
    assert_eq!(
        w10 | W16::from(0b1111_0000_0000_1111),
        W10::from(0b00_0110_1111)
    ); // with bigger size
    assert_eq!(w10 | W4::from(0b0111), W10::from(0b00_0110_0111)); // with smaller size
}

#[test]
fn bit_and() {
    let w10 = W10::from(0b00_0110_0110);

    assert_eq!(w10 & W10::zero(), W10::zero());
    assert_eq!(w10 & W10::full(), w10);

    assert_eq!(w10 & 0b0000_0011u8, W10::from(0b00_000_0010));
    assert_eq!(w10 & 0b1111_0000_1111_0000u16, W10::from(0b00_0110_0000));
    assert_eq!(w10 & W10::from(0b11_1111_0000), W10::from(0b00_0110_0000));
    assert_eq!(
        w10 & W16::from(0b1111_0000_0000_1111),
        W10::from(0b00_0000_0110)
    );
    assert_eq!(w10 & W4::from(0b1111), W10::from(0b00_0000_0110));
}

#[test]
fn bit_shift_left() {
    let w10 = W10::from(0b00_0110_0110);

    assert_eq!(w10 << 3, W10::from(0b11_0011_0000));
    assert_eq!(w10 << 0, w10);
    assert_eq!(w10 << 10, W10::zero());
}

#[test]
fn bit_shift_right() {
    let w10 = W10::from(0b00_0110_0110);

    assert_eq!(w10 >> 3, W10::from(0b00_0000_1100));
    assert_eq!(w10 >> 0, w10);
    assert_eq!(w10 >> 10, W10::zero());
}

#[test]
fn formatting_binary() {
    assert_eq!(W1::from(0b1).to_binary(), "1");
    assert_eq!(W8::from(0b1010_1010).to_binary(), "10101010");
    assert_eq!(W10::from(0b00_0110_0110).to_binary(), "0001100110");
    assert_eq!(
        format!("{:^16}", W10::from(0b00_0110_0110).to_binary()),
        "   0001100110   "
    );
}

#[test]
fn formatting_octal() {
    assert_eq!(W1::from(0b1).to_octal(), "1");
    assert_eq!(W6::from(0b101_010).to_octal(), "52");
    assert_eq!(W10::from(0b0_001_100_110).to_octal(), "0146");
    assert_eq!(
        format!("{:^10}", W10::from(0b0_001_100_110).to_octal()),
        "   0146   "
    );
}

#[test]
fn formatting_lower_hex() {
    assert_eq!(W1::from(0b1).to_lower_hex(), "1");
    assert_eq!(W8::from(0b0101_1010).to_lower_hex(), "5a");
    assert_eq!(W10::from(0b00_1111_0110).to_lower_hex(), "0f6");
    assert_eq!(
        format!("{:^9}", W10::from(0b00_1111_0110).to_lower_hex()),
        "   0f6   "
    );
}

#[test]
fn formatting_upper_hex() {
    assert_eq!(W1::from(0b1).to_upper_hex(), "1");
    assert_eq!(W8::from(0b0101_1010).to_upper_hex(), "5A");
    assert_eq!(W10::from(0b00_1111_0110).to_upper_hex(), "0F6");
    assert_eq!(
        format!("{:^9}", W10::from(0b00_1111_0110).to_upper_hex()),
        "   0F6   "
    );
}

#[test]
fn display() {
    // A word is displayed in octal.
    assert_eq!(W6::from(0b101_010).to_string(), "52");
    assert_eq!(format!("{}", W6::from(0b101_010).to_string()), "52");
}

#[test]
fn words_never_exceed_their_mask() {
    assert_eq!(W3::from(0xFFFF).as_u16(), 0b111);
    assert_eq!(W3::from(0xFFFF).as_u16() & !W3::mask(), 0);
    assert_eq!(W12::from(0o177777).as_u16() & !W12::mask(), 0);
    assert_eq!((W5::from(0b1_0101) << 3).as_u16(), 0b0_1000);
    assert_eq!((!W5::from(0b1_0101)).as_u16(), 0b0_1010);
    let mut w7 = W7::from(0);
    w7 |= 0xFFFFu16;
    assert_eq!(w7.as_u16(), 0x7F);
    w7 &= W3::from(0b101);
    assert_eq!(w7.as_u16(), 0b101);
}

#[test]
fn widening_then_narrowing_gives_the_word_back() {
    let w5 = W5::from(0b1_0110);
    assert_eq!(W5::from_word(W12::from_word(w5)), w5);
    let w1 = W1::from(1);
    assert_eq!(W1::from_word(W16::from_word(w1)), w1);
    let w15 = W15::full();
    assert_eq!(W15::from_word(W16::from_word(w15)), w15);
}

#[test]
fn population_counts() {
    assert_eq!(W10::from(0b00_0110_0110).count_ones(), 4);
    assert_eq!(W10::from(0b00_0110_0110).count_zeros(), 12);
    assert_eq!(W16::full().count_ones(), 16);
    assert_eq!(W16::zero().count_zeros(), 16);
    assert_eq!(W16::from(0x8000).count_ones(), 1);
}

#[test]
fn words_of_unusual_width() {
    assert_eq!(Word::<0>::mask(), 0);
    assert_eq!(Word::<0>::from(0xFFFF).as_u16(), 0);
    assert_eq!(Word::<0>::from(0xFFFF).to_binary(), "0");
    assert_eq!(Word::<20>::mask(), 0xFFFF);
    assert_eq!(Word::<20>::from(0xABCD).to_upper_hex(), "0ABCD");
    assert_eq!(Word::<20>::from(5).to_binary(), "00000000000000000101");
    assert_eq!(W16::from(0o177777).to_octal(), "177777");
    assert_eq!(W16::default(), W16::zero());
    assert_eq!(W4::num_bits(), 4);
}
