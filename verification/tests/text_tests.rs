use wofi_power_menu::text::{format_usize, parse_usize, split_words};

#[test]
fn parse_accepts_plain_digit_strings() {
    assert_eq!(parse_usize("0"), Some(0));
    assert_eq!(parse_usize("2"), Some(2));
    assert_eq!(parse_usize("0042"), Some(42));
    assert_eq!(parse_usize("18446744073709551615"), Some(usize::MAX));
}

#[test]
fn parse_rejects_signs_blanks_and_letters() {
    assert_eq!(parse_usize(""), None);
    assert_eq!(parse_usize("+2"), None);
    assert_eq!(parse_usize("-2"), None);
    assert_eq!(parse_usize("2 "), None);
    assert_eq!(parse_usize("1a"), None);
}

#[test]
fn parse_rejects_values_past_the_machine_limit() {
    assert_eq!(parse_usize("18446744073709551616"), None);
    assert_eq!(parse_usize("999999999999999999999999"), None);
}

#[test]
fn format_renders_decimal_digits() {
    assert_eq!(format_usize(0), "0");
    assert_eq!(format_usize(7), "7");
    assert_eq!(format_usize(12345), "12345");
    assert_eq!(format_usize(usize::MAX), "18446744073709551615");
}

#[test]
fn formatting_and_parsing_round_trip() {
    for n in [0usize, 1, 9, 10, 99, 100, 4096, usize::MAX] {
        assert_eq!(parse_usize(&format_usize(n)), Some(n));
    }
}

#[test]
fn words_split_on_runs_of_whitespace() {
    assert_eq!(split_words("systemctl poweroff"), vec!["systemctl", "poweroff"]);
    assert_eq!(split_words("  a \t b\nc  "), vec!["a", "b", "c"]);
    assert_eq!(split_words(""), Vec::<String>::new());
    assert_eq!(split_words(" \t\n "), Vec::<String>::new());
}

#[test]
fn words_split_on_unicode_whitespace_too() {
    assert_eq!(split_words("a\u{a0}b\u{2003}c"), vec!["a", "b", "c"]);
}
