use typing_speed::config::{parse_duration, parse_seconds, DEFAULT_DURATION, REFERENCE_TEXT};
use typing_speed::text::chars_of;

fn args(list: &[&str]) -> Vec<String> {
    list.iter().map(|s| s.to_string()).collect()
}

#[test]
fn default_duration_is_15() {
    assert_eq!(DEFAULT_DURATION, 15);
}

#[test]
fn reference_text_is_words_separated_by_spaces() {
    assert_eq!(REFERENCE_TEXT.len(), 97);
    assert!(REFERENCE_TEXT.starts_with("Lorem ipsum"));
    assert!(REFERENCE_TEXT.ends_with("labore"));
    assert!(REFERENCE_TEXT.chars().all(|c| c == ' ' || c.is_ascii_alphabetic()));
}

#[test]
fn chars_of_gives_every_character() {
    assert_eq!(chars_of(""), Vec::<char>::new());
    assert_eq!(chars_of("a b"), vec!['a', ' ', 'b']);
    assert_eq!(chars_of("é✓"), vec!['é', '✓']);
}

#[test]
fn parse_seconds_reads_decimal_digits() {
    assert_eq!(parse_seconds("0"), Some(0));
    assert_eq!(parse_seconds("7"), Some(7));
    assert_eq!(parse_seconds("30"), Some(30));
    assert_eq!(parse_seconds("0015"), Some(15));
    assert_eq!(parse_seconds("+42"), Some(42));
    assert_eq!(parse_seconds("18446744073709551615"), Some(u64::MAX));
    assert_eq!(parse_seconds("000018446744073709551615"), Some(u64::MAX));
}

#[test]
fn parse_seconds_refuses_everything_else() {
    for text in [
        "", "+", "-", "-5", "-0", "++5", "+-5", "5+", "1.5", "1e3", " 5", "5 ", "5s", "abc",
        "1_000", "0x10", "٣", "１２", "18446744073709551616", "99999999999999999999999",
        "184467440737095516150",
    ] {
        assert_eq!(parse_seconds(text), None, "{:?}", text);
    }
}

#[test]
fn parse_seconds_agrees_with_std() {
    for text in [
        "", "0", "1", "+1", "-1", "+", "007", "15", "60", "4294967296", "18446744073709551615",
        "18446744073709551616", "18446744073709551625", "28446744073709551615", "12a", "a12",
        "1 2", "+0", "+-1", "١٥", "15\n", "\t15", "1,000",
    ] {
        assert_eq!(parse_seconds(text), text.parse::<u64>().ok(), "{:?}", text);
    }
}

#[test]
fn duration_defaults_without_flag() {
    assert_eq!(parse_duration(&args(&[])), 15);
    assert_eq!(parse_duration(&args(&["typing"])), 15);
    assert_eq!(parse_duration(&args(&["typing", "30"])), 15);
    assert_eq!(parse_duration(&args(&["typing", "-T", "30"])), 15);
    assert_eq!(parse_duration(&args(&["typing", "--t", "30"])), 15);
    assert_eq!(parse_duration(&args(&["typing", "-t30"])), 15);
}

#[test]
fn duration_follows_flag() {
    assert_eq!(parse_duration(&args(&["typing", "-t", "30"])), 30);
    assert_eq!(parse_duration(&args(&["typing", "-t", "1"])), 1);
    assert_eq!(parse_duration(&args(&["typing", "x", "-t", "60", "y"])), 60);
    assert_eq!(parse_duration(&args(&["-t", "45"])), 45);
    assert_eq!(
        parse_duration(&args(&["typing", "-t", "18446744073709551615"])),
        u64::MAX
    );
}

#[test]
fn duration_defaults_when_value_is_zero() {
    assert_eq!(parse_duration(&args(&["typing", "-t", "0"])), 15);
    assert_eq!(parse_duration(&args(&["typing", "-t", "000"])), 15);
    assert_eq!(parse_duration(&args(&["typing", "-t", "+0"])), 15);
    assert_eq!(parse_duration(&args(&["typing", "-t", "0", "-t", "40"])), 15);
}

#[test]
fn duration_is_never_zero() {
    for list in [
        vec![],
        vec!["typing"],
        vec!["typing", "-t"],
        vec!["typing", "-t", "0"],
        vec!["typing", "-t", "1"],
        vec!["typing", "-t", "-1"],
        vec!["typing", "-t", "x"],
        vec!["-t", "0", "0"],
        vec!["0", "-t", "00"],
    ] {
        assert!(parse_duration(&args(&list)) >= 1, "{:?}", list);
    }
}

#[test]
fn duration_defaults_when_value_is_missing_or_malformed() {
    assert_eq!(parse_duration(&args(&["typing", "-t"])), 15);
    assert_eq!(parse_duration(&args(&["typing", "-t", "abc"])), 15);
    assert_eq!(parse_duration(&args(&["typing", "-t", "-5"])), 15);
    assert_eq!(parse_duration(&args(&["typing", "-t", ""])), 15);
    assert_eq!(parse_duration(&args(&["typing", "-t", "1.5"])), 15);
    assert_eq!(
        parse_duration(&args(&["typing", "-t", "18446744073709551616"])),
        15
    );
}

#[test]
fn only_first_flag_counts() {
    assert_eq!(parse_duration(&args(&["typing", "-t", "20", "-t", "40"])), 20);
    assert_eq!(parse_duration(&args(&["typing", "-t", "bad", "-t", "40"])), 15);
    assert_eq!(parse_duration(&args(&["typing", "-t", "-t", "40"])), 15);
}
