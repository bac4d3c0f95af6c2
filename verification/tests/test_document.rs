use dilbert_viewer::document::parse_i32;

#[test]
fn test_parse_i32_reads_plain_numbers() {
    assert_eq!(parse_i32("0"), Some(0));
    assert_eq!(parse_i32("7"), Some(7));
    assert_eq!(parse_i32("900"), Some(900));
    assert_eq!(parse_i32("266"), Some(266));
    assert_eq!(parse_i32("280"), Some(280));
    assert_eq!(parse_i32("0012"), Some(12));
}

#[test]
fn test_parse_i32_reads_signs() {
    assert_eq!(parse_i32("+5"), Some(5));
    assert_eq!(parse_i32("-5"), Some(-5));
    assert_eq!(parse_i32("-0"), Some(0));
    assert_eq!(parse_i32("+0"), Some(0));
    assert_eq!(parse_i32("-0005"), Some(-5));
}

#[test]
fn test_parse_i32_at_the_ends_of_the_range() {
    assert_eq!(parse_i32("2147483647"), Some(i32::MAX));
    assert_eq!(parse_i32("+2147483647"), Some(i32::MAX));
    assert_eq!(parse_i32("-2147483648"), Some(i32::MIN));
    assert_eq!(parse_i32("2147483648"), None);
    assert_eq!(parse_i32("+2147483648"), None);
    assert_eq!(parse_i32("-2147483649"), None);
    assert_eq!(parse_i32("99999999999999999999999999"), None);
    assert_eq!(parse_i32("-99999999999999999999999999"), None);
    assert_eq!(parse_i32("00000000000000000000002147483647"), Some(i32::MAX));
}

#[test]
fn test_parse_i32_refuses_what_is_no_number() {
    for text in [
        "", "+", "-", "--5", "+-5", "-+5", "5-", "5+", " 5", "5 ", "1 000", "1_000", "1,000",
        "1.0", "0x10", "abc", "12a", "a12", "٣", "１２", "1\u{0}", "\u{e9}", "-\u{e9}", "9\u{fe0f}",
        "+\u{1f600}", "1e3", "\t1", "1\n",
    ] {
        assert_eq!(parse_i32(text), None, "{text:?} is no number");
    }
}

#[test]
fn test_parse_i32_agrees_with_std() {
    let texts = [
        "0", "1", "-1", "+1", "10", "-10", "2147483647", "2147483648", "-2147483648",
        "-2147483649", "21474836470", "", "+", "-", "++1", "1+", "01", "-01", "+01", " 1", "1 ",
        "1_0", "１", "a", "4294967296", "-4294967296", "000", "-000", "2147483646", "-2147483647",
        "3000000000", "-3000000000", "\u{e9}1", "1\u{e9}",
    ];
    for text in texts {
        assert_eq!(parse_i32(text), text.parse::<i32>().ok(), "on {text:?}");
    }
    for number in [-1_000_001, -65_536, -255, -1, 0, 1, 9, 10, 99, 100, 4_096, 123_456_789] {
        let text = format!("{number}");
        assert_eq!(parse_i32(&text), Some(number));
    }
}
