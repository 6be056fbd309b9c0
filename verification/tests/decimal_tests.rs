use textutils::decimal::{append_decimal, decimal_width, parse_usize, to_decimal};

#[test]
fn parse_usize_reads_plain_digits() {
    assert_eq!(parse_usize("0"), Some(0));
    assert_eq!(parse_usize("7"), Some(7));
    assert_eq!(parse_usize("42"), Some(42));
    assert_eq!(parse_usize("1234567890"), Some(1234567890));
}

#[test]
fn parse_usize_agrees_with_the_standard_parser() {
    let largest = usize::MAX.to_string();
    let beyond = format!("{}1", &largest[..largest.len() - 1]);
    let much_beyond = format!("{}000", largest);
    let samples = [
        "", "+", "-", "+0", "-0", "+12", "-12", "++1", "+-1", "0", "00", "000123", "9", "10", "99",
        "100", "12a", "a12", "1 2", " 12", "12 ", "\t5", "5\n", "1_0", "1e3", "0x1f", "１２", "٣",
        "1.0", "+00000000000000000000000000000000000001", "4294967295", "4294967296",
        "18446744073709551615", "18446744073709551616", "99999999999999999999",
        "340282366920938463463374607431768211456", largest.as_str(), beyond.as_str(),
        much_beyond.as_str(),
    ];
    for text in samples {
        assert_eq!(parse_usize(text), text.parse::<usize>().ok(), "reading {:?}", text);
    }
}

#[test]
fn to_decimal_writes_numbers_as_the_standard_formatter_does() {
    let samples = [
        0usize, 1, 9, 10, 11, 99, 100, 101, 999, 1000, 12345, 99999, 100000, 999999, 1000000,
        4294967295, usize::MAX - 1, usize::MAX,
    ];
    for n in samples {
        assert_eq!(to_decimal(n), n.to_string());
        assert_eq!(decimal_width(n), n.to_string().len());
    }
    assert_eq!(to_decimal(0), "0");
    assert_eq!(to_decimal(4096), "4096");
    assert_eq!(decimal_width(4096), 4);
}

#[test]
fn append_decimal_keeps_what_is_there() {
    let mut text = "line ".to_string();
    append_decimal(&mut text, 305);
    assert_eq!(text, "line 305");
    append_decimal(&mut text, 0);
    assert_eq!(text, "line 3050");
}

#[test]
fn written_numbers_read_back() {
    for n in [0usize, 5, 10, 123, 65535, 1000000007, usize::MAX] {
        assert_eq!(parse_usize(&to_decimal(n)), Some(n));
    }
}
