use ssedge::text::{parse_centi, parse_digits, split_str, split_whitespace_str, trim};

#[test]
fn trim_strips_both_ends_only() {
    assert_eq!(trim("  a b \n"), "a b");
    assert_eq!(trim(""), "");
    assert_eq!(trim(" \t\r\n "), "");
    assert_eq!(trim("x"), "x");
}

#[test]
fn split_keeps_empty_fields() {
    let parts = split_str("a|b|c", '|');
    assert_eq!(parts, vec!["a", "b", "c"]);
    assert_eq!(split_str("||", '|'), vec!["", "", ""]);
    assert_eq!(split_str("", '|'), vec![""]);
    assert_eq!(split_str("no-sep", '|'), vec!["no-sep"]);
}

#[test]
fn whitespace_split_collapses_runs() {
    assert_eq!(split_whitespace_str("a  b\t c "), vec!["a", "b", "c"]);
    assert_eq!(split_whitespace_str("   "), Vec::<String>::new());
    assert_eq!(split_whitespace_str("one"), vec!["one"]);
}

#[test]
fn parse_digits_is_exact_and_bounded() {
    assert_eq!(parse_digits("3600", u64::MAX), Some(3600));
    assert_eq!(parse_digits("0", u64::MAX), Some(0));
    assert_eq!(parse_digits("", u64::MAX), None);
    assert_eq!(parse_digits("12a", u64::MAX), None);
    assert_eq!(parse_digits("101", 100), None);
    assert_eq!(parse_digits("100", 100), Some(100));
    assert_eq!(parse_digits("18446744073709551615", u64::MAX), Some(u64::MAX));
    assert_eq!(parse_digits("18446744073709551616", u64::MAX), None);
}

#[test]
fn parse_centi_reads_hundredths() {
    assert_eq!(parse_centi("12.5", 0), 1250);
    assert_eq!(parse_centi("50.00", 0), 5000);
    assert_eq!(parse_centi("7", 0), 700);
    assert_eq!(parse_centi("-0.5", 0), -50);
    assert_eq!(parse_centi("+2.25", 0), 225);
    assert_eq!(parse_centi("0.07", 0), 7);
    assert_eq!(parse_centi("1.239", 0), 123);
}

#[test]
fn parse_centi_falls_back_on_bad_shapes() {
    assert_eq!(parse_centi("", 42), 42);
    assert_eq!(parse_centi("abc", 42), 42);
    assert_eq!(parse_centi(".5", 42), 42);
    assert_eq!(parse_centi("5.", 42), 42);
    assert_eq!(parse_centi("1.2.3", 42), 42);
    assert_eq!(parse_centi("--1", 42), 42);
    assert_eq!(parse_centi("1 2", 42), 42);
    assert_eq!(parse_centi("92233720368547758.07", 0), 9223372036854775807);
    assert_eq!(parse_centi("92233720368547758.08", 42), 42);
    assert_eq!(parse_centi("99999999999999999999", 42), 42);
}
