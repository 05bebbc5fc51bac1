use jidori_kun::text::{
    eq_ignore_ascii_case, is_blank, path_is, push_decimal, same_text, second_field_of, starts_with, trim,
};

#[test]
fn trim_removes_ascii_and_unicode_white_space() {
    assert_eq!(trim("  Bearer abc \t\r\n"), "Bearer abc");
    assert_eq!(trim("\u{3000}x y\u{a0}\u{2028}"), "x y");
    assert_eq!(trim(""), "");
    assert_eq!(trim(" \t "), "");
    for s in ["  a  ", "\u{85}b\u{205f}", "c", "\u{1680} d e \u{200a}"] {
        assert_eq!(trim(s), s.trim());
    }
}

#[test]
fn blank_lines_are_only_white_space() {
    assert!(is_blank(""));
    assert!(is_blank(" \t\r"));
    assert!(!is_blank(" {} "));
}

#[test]
fn prefixes_and_equality() {
    assert!(starts_with("notifications/initialized", "notifications/"));
    assert!(!starts_with("notification", "notifications/"));
    assert!(starts_with("abc", ""));
    assert!(same_text("snap", "snap"));
    assert!(!same_text("snap", "Snap"));
}

#[test]
fn header_names_compare_without_case() {
    assert!(eq_ignore_ascii_case("authorization", "Authorization"));
    assert!(eq_ignore_ascii_case("AUTHORIZATION", "Authorization"));
    assert!(!eq_ignore_ascii_case("Authorisation", "Authorization"));
    assert!(!eq_ignore_ascii_case("Authorization ", "Authorization"));
}

#[test]
fn second_field_follows_split_nth_one() {
    assert_eq!(second_field_of("data:image/png;base64,QUJD"), "QUJD");
    assert_eq!(second_field_of("a,b,c"), "b");
    assert_eq!(second_field_of("no comma"), "");
    assert_eq!(second_field_of("trailing,"), "");
    for s in ["x,y", ",", ",,", "a,,b", "data:,é,ü"] {
        assert_eq!(second_field_of(s), s.split(',').nth(1).unwrap_or(""));
    }
}

#[test]
fn decimal_notation() {
    for n in [0u64, 7, 10, 8790, 65535, u64::MAX] {
        let mut s = String::from("n=");
        push_decimal(&mut s, n);
        assert_eq!(s, format!("n={}", n));
    }
}

#[test]
fn request_paths_ignore_the_query() {
    assert!(path_is("/mcp", "/mcp"));
    assert!(path_is("/mcp?a=b?c", "/mcp"));
    assert!(!path_is("/mcpx", "/mcp"));
    assert!(!path_is("/mc", "/mcp"));
    assert!(!path_is("", "/mcp"));
    assert!(path_is("?x", ""));
}
