use expl_compiler::parserlib::{parse_int, parse_string, parse_usize};
use expl_compiler::strs::{i64_to_string, usize_to_string};

#[test]
fn parse_int_reads_signed_decimals() {
    assert_eq!(parse_int("42"), Ok(42));
    assert_eq!(parse_int("-17"), Ok(-17));
    assert_eq!(parse_int("+5"), Ok(5));
    assert_eq!(parse_int("007"), Ok(7));
    assert_eq!(parse_int("9223372036854775807"), Ok(i64::MAX));
    assert_eq!(parse_int("-9223372036854775808"), Ok(i64::MIN));
}

#[test]
fn parse_int_rejects_other_text() {
    assert_eq!(parse_int(""), Err(()));
    assert_eq!(parse_int("-"), Err(()));
    assert_eq!(parse_int("+"), Err(()));
    assert_eq!(parse_int("12a"), Err(()));
    assert_eq!(parse_int(" 1"), Err(()));
    assert_eq!(parse_int("9223372036854775808"), Err(()));
    assert_eq!(parse_int("-9223372036854775809"), Err(()));
    assert_eq!(parse_int("99999999999999999999999"), Err(()));
}

#[test]
fn parse_usize_reads_counts() {
    assert_eq!(parse_usize("0"), Ok(0));
    assert_eq!(parse_usize("+12"), Ok(12));
    assert_eq!(parse_usize("-1"), Err(()));
    assert_eq!(parse_usize("-0"), Err(()));
    assert_eq!(parse_usize(""), Err(()));
    assert_eq!(parse_usize("18446744073709551615"), Ok(usize::MAX));
    assert_eq!(parse_usize("18446744073709551616"), Err(()));
}

#[test]
fn parse_string_keeps_text() {
    assert_eq!(parse_string("\"hi\""), Ok("\"hi\"".to_string()));
}

#[test]
fn numerals_read_back() {
    for v in [0i64, 7, -7, 10, 4096, -123456789, i64::MAX, i64::MIN] {
        assert_eq!(parse_int(i64_to_string(v).as_str()), Ok(v));
    }
    for n in [0usize, 9, 10, 2056, usize::MAX] {
        assert_eq!(parse_usize(usize_to_string(n).as_str()), Ok(n));
    }
    assert_eq!(i64_to_string(-45), "-45");
    assert_eq!(usize_to_string(2060), "2060");
}
