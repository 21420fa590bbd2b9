use clicker::decimal::{count_leading, i64_to_decimal, parse_i32, parse_usize};

#[test]
fn formats_integers_like_display() {
    for x in [0i64, 7, 10, 42, -1, -105, 1_700_000_000, i64::MAX, i64::MIN] {
        assert_eq!(i64_to_decimal(x), x.to_string());
    }
}

#[test]
fn parses_usize_like_from_str() {
    assert_eq!(parse_usize("12"), Some(12));
    assert_eq!(parse_usize("+12"), Some(12));
    assert_eq!(parse_usize("007"), Some(7));
    assert_eq!(parse_usize(""), None);
    assert_eq!(parse_usize("+"), None);
    assert_eq!(parse_usize("-1"), None);
    assert_eq!(parse_usize("1 "), None);
    assert_eq!(parse_usize("++1"), None);
    assert_eq!(parse_usize("18446744073709551615"), Some(usize::MAX));
    assert_eq!(parse_usize("18446744073709551616"), None);
    for s in ["0", "15", "+99", "x", "", "-0", "99999999999999999999999"] {
        assert_eq!(parse_usize(s), s.parse::<usize>().ok(), "input {:?}", s);
    }
}

#[test]
fn parses_i32_like_from_str() {
    assert_eq!(parse_i32("30"), Some(30));
    assert_eq!(parse_i32("-7"), Some(-7));
    assert_eq!(parse_i32("-2147483648"), Some(i32::MIN));
    assert_eq!(parse_i32("2147483647"), Some(i32::MAX));
    assert_eq!(parse_i32("2147483648"), None);
    assert_eq!(parse_i32("-2147483649"), None);
    assert_eq!(parse_i32("-"), None);
    assert_eq!(parse_i32("abc"), None);
    for s in ["+5", "-0", "0", "12a", " 1", "", "--1"] {
        assert_eq!(parse_i32(s), s.parse::<i32>().ok(), "input {:?}", s);
    }
}

#[test]
fn decimal_text_reads_back() {
    for x in [0i32, 1, -1, 30, i32::MIN, i32::MAX, 123_456] {
        assert_eq!(parse_i32(&i64_to_decimal(x as i64)), Some(x));
    }
    for x in [0usize, 9, 10, 15, 4_000_000_000] {
        assert_eq!(parse_usize(&i64_to_decimal(x as i64)), Some(x));
    }
}

#[test]
fn counts_leading_characters() {
    assert_eq!(count_leading("::20", ':'), 2);
    assert_eq!(count_leading("20", ':'), 0);
    assert_eq!(count_leading(":::", ':'), 3);
    assert_eq!(count_leading("", ':'), 0);
}
