use node_dashboard::decimal::parse_unsigned;

#[test]
fn reads_plain_numbers() {
    assert_eq!(parse_unsigned("0"), Some(0));
    assert_eq!(parse_unsigned("7"), Some(7));
    assert_eq!(parse_unsigned("700000"), Some(700_000));
    assert_eq!(parse_unsigned("1234567890"), Some(1_234_567_890));
}

#[test]
fn reads_leading_zeros_and_plus_sign() {
    assert_eq!(parse_unsigned("007"), Some(7));
    assert_eq!(parse_unsigned("+7"), Some(7));
    assert_eq!(parse_unsigned("+0042"), Some(42));
    assert_eq!(parse_unsigned("00000000000000000000000000000000000001"), Some(1));
}

#[test]
fn reads_up_to_the_largest_value() {
    assert_eq!(parse_unsigned("18446744073709551615"), Some(u64::MAX));
    assert_eq!(parse_unsigned("+18446744073709551615"), Some(u64::MAX));
    assert_eq!(parse_unsigned("18446744073709551614"), Some(u64::MAX - 1));
    assert_eq!(parse_unsigned("18446744073709551616"), None);
    assert_eq!(parse_unsigned("18446744073709551620"), None);
    assert_eq!(parse_unsigned("99999999999999999999"), None);
    assert_eq!(parse_unsigned("184467440737095516150"), None);
}

#[test]
fn rejects_what_is_not_a_number() {
    assert_eq!(parse_unsigned(""), None);
    assert_eq!(parse_unsigned("+"), None);
    assert_eq!(parse_unsigned("-"), None);
    assert_eq!(parse_unsigned("-1"), None);
    assert_eq!(parse_unsigned("-0"), None);
    assert_eq!(parse_unsigned("++1"), None);
    assert_eq!(parse_unsigned("1+"), None);
    assert_eq!(parse_unsigned(" 1"), None);
    assert_eq!(parse_unsigned("1 "), None);
    assert_eq!(parse_unsigned("1_000"), None);
    assert_eq!(parse_unsigned("0x10"), None);
    assert_eq!(parse_unsigned("12a"), None);
    assert_eq!(parse_unsigned("a12"), None);
    assert_eq!(parse_unsigned("1.5"), None);
    assert_eq!(parse_unsigned("1e3"), None);
    assert_eq!(parse_unsigned("/"), None);
    assert_eq!(parse_unsigned(":"), None);
}

#[test]
fn rejects_text_outside_ascii() {
    assert_eq!(parse_unsigned("١٢٣"), None);
    assert_eq!(parse_unsigned("12é"), None);
    assert_eq!(parse_unsigned("+é"), None);
    assert_eq!(parse_unsigned("１２"), None);
}

#[test]
fn agrees_with_the_standard_reading_of_u64() {
    let samples = [
        "", "+", "-", "0", "00", "+0", "-0", "1", "+1", "-1", "10", "010", "2016", "700000",
        "18446744073709551615", "18446744073709551616", "018446744073709551615",
        "28446744073709551615", "1844674407370955161", "1a", "a1", " 1", "1 ", "+-1", "+ 1",
        "٣", "1٣", "9223372036854775808", "4294967296", "0000000000000000000000", "1\n",
        "\t5", "5\0", "+00018446744073709551615", "+00018446744073709551616",
    ];
    for text in samples {
        assert_eq!(parse_unsigned(text), text.parse::<u64>().ok(), "{:?}", text);
    }
    let mut n: u64 = 1;
    for _ in 0..64 {
        for candidate in [n - 1, n, n + 1] {
            let text = format!("{}", candidate);
            assert_eq!(parse_unsigned(&text), Some(candidate));
        }
        n = n.wrapping_mul(2);
        if n == 0 {
            break;
        }
    }
}
