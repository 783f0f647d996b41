use ttywrite::decimal::{format_decimal, parse_decimal, push_decimal};

#[test]
fn parse_decimal_reads_digits() {
    assert_eq!(parse_decimal("0"), Some(0));
    assert_eq!(parse_decimal("7"), Some(7));
    assert_eq!(parse_decimal("115200"), Some(115200));
    assert_eq!(parse_decimal("000"), Some(0));
    assert_eq!(parse_decimal("0042"), Some(42));
}

#[test]
fn parse_decimal_takes_nothing_but_digits() {
    for text in ["", "+1", "-1", " 1", "1 ", "1e3", "0x10", "1_000", "١٢٣", "12a"] {
        assert_eq!(parse_decimal(text), None);
    }
}

#[test]
fn parse_decimal_stops_at_the_machine_word() {
    let max = usize::MAX.to_string();
    assert_eq!(parse_decimal(&max), Some(usize::MAX));
    let mut over = max.clone();
    over.push('0');
    assert_eq!(parse_decimal(&over), None);
    assert_eq!(parse_decimal("18446744073709551616"), None);
    assert_eq!(parse_decimal("99999999999999999999999999999999"), None);
}

#[test]
fn format_decimal_writes_digits() {
    assert_eq!(format_decimal(0), "0");
    assert_eq!(format_decimal(9), "9");
    assert_eq!(format_decimal(10), "10");
    assert_eq!(format_decimal(1234567890), "1234567890");
    assert_eq!(format_decimal(u64::MAX), "18446744073709551615");
}

#[test]
fn push_decimal_appends() {
    let mut text = String::from("n=");
    push_decimal(&mut text, 305);
    assert_eq!(text, "n=305");
    push_decimal(&mut text, 0);
    assert_eq!(text, "n=3050");
}

#[test]
fn what_is_written_is_read_back() {
    for number in [0u64, 1, 9, 10, 99, 100, 128, 65535, 115200, 4294967295] {
        assert_eq!(parse_decimal(&format_decimal(number)), Some(number as usize));
    }
}
