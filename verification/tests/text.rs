use forty_five_bot::text::{
    milli_to_string, normalize_login, parse_u64, parse_usize, replace_all, str_eq, strip_at,
    u64_to_string,
};

#[test]
fn renders_integers() {
    assert_eq!(u64_to_string(0), "0");
    assert_eq!(u64_to_string(7), "7");
    assert_eq!(u64_to_string(45), "45");
    assert_eq!(u64_to_string(18000), "18000");
    assert_eq!(u64_to_string(u64::MAX), "18446744073709551615");
}

#[test]
fn renders_milli_values() {
    assert_eq!(milli_to_string(45000), "45.000");
    assert_eq!(milli_to_string(0), "0.000");
    assert_eq!(milli_to_string(5), "0.005");
    assert_eq!(milli_to_string(90000), "90.000");
    assert_eq!(milli_to_string(615), "0.615");
    assert_eq!(milli_to_string(45005), "45.005");
}

#[test]
fn replaces_every_occurrence() {
    assert_eq!(replace_all("a@b@c", "@", "-"), "a-b-c");
    assert_eq!(replace_all("hello", "l", "L"), "heLLo");
    assert_eq!(replace_all("aaa", "aa", "X"), "Xa");
    assert_eq!(replace_all("none here", "@", "-"), "none here");
    assert_eq!(replace_all("", "@", "-"), "");
    assert_eq!(
        replace_all("{{ chatter_user_name }} wins", "{{ chatter_user_name }}", "Bob"),
        "Bob wins"
    );
}

#[test]
fn strips_and_normalizes_logins() {
    assert_eq!(strip_at("@Bob"), "Bob");
    assert_eq!(strip_at("Bo@b@"), "Bob");
    assert_eq!(normalize_login("@Bob"), "bob");
    assert_eq!(normalize_login("ALICE"), "alice");
}

#[test]
fn parses_unsigned_integers() {
    assert_eq!(parse_u64("0"), Some(0));
    assert_eq!(parse_u64("300"), Some(300));
    assert_eq!(parse_u64("+12"), Some(12));
    assert_eq!(parse_u64("18446744073709551615"), Some(u64::MAX));
    assert_eq!(parse_u64("18446744073709551616"), None);
    assert_eq!(parse_u64(""), None);
    assert_eq!(parse_u64("+"), None);
    assert_eq!(parse_u64("12a"), None);
    assert_eq!(parse_u64("-5"), None);
    assert_eq!(parse_usize("42"), Some(42));
    assert_eq!(parse_usize("x"), None);
}

#[test]
fn compares_strings() {
    assert!(str_eq("abc", "abc"));
    assert!(!str_eq("abc", "abd"));
    assert!(!str_eq("abc", "ab"));
    assert!(str_eq("", ""));
}
