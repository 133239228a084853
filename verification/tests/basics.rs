use benchctl::number::{above, at_least, equal, is_finite, is_nan, is_positive, Number};
use benchctl::text::{
    all_lower_hex, chars_of, control, count_text, decimal_text, read_count, read_unsigned,
    same_text, starts_with, trim, white, NumeralFault,
};

const SAMPLES: [f64; 14] = [
    f64::NEG_INFINITY,
    f64::MIN,
    -1.5,
    -f64::MIN_POSITIVE / 2.0,
    -0.0,
    0.0,
    f64::MIN_POSITIVE / 2.0,
    1e-7,
    0.9,
    1.0,
    1.0000000000000002,
    5.0,
    f64::MAX,
    f64::INFINITY,
];

#[test]
fn bits_compare_as_the_numbers_they_spell() {
    let mut samples = SAMPLES.to_vec();
    samples.push(f64::NAN);
    samples.push(-f64::NAN);
    for a in &samples {
        for b in &samples {
            let (x, y) = (a.to_bits(), b.to_bits());
            assert_eq!(equal(x, y), a == b, "{a} == {b}");
            assert_eq!(at_least(x, y), a >= b, "{a} >= {b}");
            assert_eq!(above(x, y), a > b, "{a} > {b}");
        }
        let x = a.to_bits();
        assert_eq!(is_finite(x), a.is_finite(), "{a}");
        assert_eq!(is_nan(x), a.is_nan(), "{a}");
        assert_eq!(is_positive(x), a.is_finite() && *a > 0.0, "{a}");
    }
}

#[test]
fn a_number_keeps_its_texts() {
    let n = Number::constant(0.9f64.to_bits(), "0.9", "0.9");
    let m = n.duplicate();
    assert_eq!((m.bits, m.display.as_str(), m.debug.as_str()), (n.bits, "0.9", "0.9"));
    assert_eq!(Number::zero().bits, 0.0f64.to_bits());
}

#[test]
fn numerals_read_back() {
    for n in [0u64, 7, 10, 4096, u64::MAX] {
        assert_eq!(decimal_text(n), n.to_string());
        assert_eq!(read_unsigned(&decimal_text(n), u64::MAX).unwrap(), n);
    }
    assert_eq!(count_text(15), "15");
    assert_eq!(read_count("+12").unwrap(), 12);
    assert_eq!(read_count("007").unwrap(), 7);
    for text in ["", "+", "-1", "1x", " 1", "18446744073709551616", "1_000", "٣"] {
        assert_eq!(
            read_unsigned(text, u64::MAX).is_ok(),
            text.parse::<u64>().is_ok(),
            "{text:?}"
        );
    }
    assert!(matches!(
        read_unsigned("", 10),
        Err(NumeralFault::Empty)
    ));
    assert!(matches!(
        read_unsigned("x", 10),
        Err(NumeralFault::InvalidDigit)
    ));
    assert!(matches!(
        read_unsigned("11", 10),
        Err(NumeralFault::TooLarge)
    ));
}

#[test]
fn white_space_and_control_are_those_of_the_characters() {
    for code in (0u32..0x3100).chain([0xfeff, 0x1f600]) {
        if let Some(c) = char::from_u32(code) {
            assert_eq!(white(c), c.is_whitespace(), "{code:x}");
            assert_eq!(control(c), c.is_control(), "{code:x}");
        }
    }
    for text in ["", "  ", " a b ", "\u{3000}x\u{a0}", "\n\ttail", "plain"] {
        assert_eq!(trim(text), text.trim());
    }
}

#[test]
fn texts_compare_by_their_characters() {
    assert!(same_text("añb", "añb") && !same_text("a", "b") && !same_text("a", "ab"));
    assert!(starts_with("abc", "ab") && starts_with("abc", "") && !starts_with("ab", "abc"));
    assert!(all_lower_hex("0af9") && !all_lower_hex("0aF9") && all_lower_hex(""));
    assert_eq!(chars_of("añ"), vec!['a', 'ñ']);
}
