use trello_canvas::text::{parse_u16, u16_to_decimal};

#[test]
fn decimal_of_zero_is_one_digit() {
    assert_eq!(u16_to_decimal(0), "0");
}

#[test]
fn decimal_of_single_digits() {
    assert_eq!(u16_to_decimal(7), "7");
    assert_eq!(u16_to_decimal(9), "9");
}

#[test]
fn decimal_of_several_digits() {
    assert_eq!(u16_to_decimal(10), "10");
    assert_eq!(u16_to_decimal(9000), "9000");
    assert_eq!(u16_to_decimal(8080), "8080");
    assert_eq!(u16_to_decimal(65535), "65535");
}

#[test]
fn decimal_agrees_with_the_standard_library() {
    let mut n: u16 = 0;
    loop {
        assert_eq!(u16_to_decimal(n), n.to_string());
        if n == u16::MAX {
            break;
        }
        n += 1;
    }
}

#[test]
fn parse_reads_plain_numbers() {
    assert_eq!(parse_u16("0"), Some(0));
    assert_eq!(parse_u16("9000"), Some(9000));
    assert_eq!(parse_u16("65535"), Some(65535));
}

#[test]
fn parse_takes_a_plus_sign_and_leading_zeros() {
    assert_eq!(parse_u16("+80"), Some(80));
    assert_eq!(parse_u16("007"), Some(7));
    assert_eq!(parse_u16("+000065535"), Some(65535));
}

#[test]
fn parse_refuses_what_is_no_number() {
    assert_eq!(parse_u16(""), None);
    assert_eq!(parse_u16("+"), None);
    assert_eq!(parse_u16("-1"), None);
    assert_eq!(parse_u16("++1"), None);
    assert_eq!(parse_u16("12a"), None);
    assert_eq!(parse_u16(" 12"), None);
    assert_eq!(parse_u16("12 "), None);
    assert_eq!(parse_u16("1_000"), None);
    assert_eq!(parse_u16("９０"), None);
}

#[test]
fn parse_refuses_what_does_not_fit() {
    assert_eq!(parse_u16("65536"), None);
    assert_eq!(parse_u16("70000"), None);
    assert_eq!(parse_u16("99999999999999999999999999"), None);
}

#[test]
fn parse_agrees_with_the_standard_library() {
    let samples = [
        "", "+", "-", "0", "00", "+0", "-0", "1", "65535", "65536", "065535", "+65535", "655350",
        "abc", "1e3", "0x10", " 1", "1 ", "4294967296", "18446744073709551616",
    ];
    for text in samples {
        assert_eq!(parse_u16(text), text.parse::<u16>().ok(), "{:?}", text);
    }
    let mut n: u16 = 0;
    loop {
        assert_eq!(parse_u16(&n.to_string()), Some(n));
        if n == u16::MAX {
            break;
        }
        n += 1;
    }
}

#[test]
fn parse_undoes_decimal() {
    for n in [0u16, 1, 9, 10, 99, 100, 443, 8080, 9000, 65535] {
        assert_eq!(parse_u16(&u16_to_decimal(n)), Some(n));
    }
}
