use twilight_interaction::text::{is_valid_option_name, parse_u64, to_kebab_case};

#[test]
fn parse_u64_plain_number() {
    assert_eq!(parse_u64("123"), Some(123));
    assert_eq!(parse_u64("0"), Some(0));
    assert_eq!(parse_u64("007"), Some(7));
}

#[test]
fn parse_u64_leading_plus() {
    assert_eq!(parse_u64("+5"), Some(5));
    assert_eq!(parse_u64("+0"), Some(0));
}

#[test]
fn parse_u64_rejects_empty_and_bare_sign() {
    assert_eq!(parse_u64(""), None);
    assert_eq!(parse_u64("+"), None);
}

#[test]
fn parse_u64_rejects_non_digits() {
    assert_eq!(parse_u64("abc"), None);
    assert_eq!(parse_u64("12a"), None);
    assert_eq!(parse_u64("-3"), None);
    assert_eq!(parse_u64("1 2"), None);
}

#[test]
fn parse_u64_boundary() {
    assert_eq!(parse_u64("18446744073709551615"), Some(u64::MAX));
    assert_eq!(parse_u64("18446744073709551616"), None);
    assert_eq!(parse_u64("99999999999999999999999"), None);
}

#[test]
fn parse_u64_matches_std() {
    for s in ["42", "+42", "", "+", "007", "18446744073709551615", "18446744073709551616", "x1"] {
        assert_eq!(parse_u64(s), s.parse::<u64>().ok(), "input {:?}", s);
    }
}

#[test]
fn kebab_replaces_underscores() {
    assert_eq!(to_kebab_case("say_hello_there"), "say-hello-there");
    assert_eq!(to_kebab_case("plain"), "plain");
    assert_eq!(to_kebab_case(""), "");
    assert_eq!(to_kebab_case("_"), "-");
}

#[test]
fn option_name_rule() {
    assert!(is_valid_option_name("say-hello"));
    assert!(is_valid_option_name(""));
    assert!(!is_valid_option_name("Say-hello"));
    assert!(!is_valid_option_name("say_hello"));
    assert!(!is_valid_option_name("say hello"));
    assert!(!is_valid_option_name("nine9"));
}
