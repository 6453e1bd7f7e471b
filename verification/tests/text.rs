use opendal_core::text::format_i64;
use opendal_core::text::format_u64;
use opendal_core::text::parse_i64;
use opendal_core::text::parse_u64;
use opendal_core::text::percent_encode_path;
use opendal_core::text::push_query_pair;
use opendal_core::text::str_contains_char;

#[test]
fn parse_u64_reads_decimals() {
    assert_eq!(parse_u64("0"), Some(0));
    assert_eq!(parse_u64("1048576"), Some(1048576));
    assert_eq!(parse_u64("18446744073709551615"), Some(u64::MAX));
}

#[test]
fn parse_u64_rejects_junk() {
    assert_eq!(parse_u64(""), None);
    assert_eq!(parse_u64("12a"), None);
    assert_eq!(parse_u64("-3"), None);
    assert_eq!(parse_u64("18446744073709551616"), None);
}

#[test]
fn parse_i64_reads_signed_decimals() {
    assert_eq!(parse_i64("1748359276"), Some(1748359276));
    assert_eq!(parse_i64("-12"), Some(-12));
    assert_eq!(parse_i64("-"), None);
    assert_eq!(parse_i64(""), None);
}

#[test]
fn format_u64_round_trips() {
    assert_eq!(format_u64(0), "0");
    assert_eq!(format_u64(907), "907");
    assert_eq!(format_u64(u64::MAX), "18446744073709551615");
    assert_eq!(parse_u64(&format_u64(123456789)), Some(123456789));
}

#[test]
fn format_i64_carries_the_sign() {
    assert_eq!(format_i64(42), "42");
    assert_eq!(format_i64(-42), "-42");
    assert_eq!(format_i64(i64::MIN), "-9223372036854775808");
}

#[test]
fn query_pairs_choose_their_separator() {
    let u = push_query_pair("https://host/a", "k", "v");
    assert_eq!(u, "https://host/a?k=v");
    let u2 = push_query_pair(&u, "x", "y");
    assert_eq!(u2, "https://host/a?k=v&x=y");
    assert!(str_contains_char(&u2, '?'));
    assert!(!str_contains_char("abc", '?'));
}

#[test]
fn percent_encoding_escapes_reserved_bytes() {
    assert_eq!(
        percent_encode_path("/accounts/ab c/query").as_deref(),
        Some("/accounts/ab%20c/query")
    );
    assert_eq!(percent_encode_path("AZaz09-_.~/").as_deref(), Some("AZaz09-_.~/"));
    assert_eq!(percent_encode_path("a?b=c").as_deref(), Some("a%3Fb%3Dc"));
    assert_eq!(percent_encode_path("caf\u{e9}"), None);
}
