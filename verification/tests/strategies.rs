use tagtidy::strategy::{
    Erase, FormatNumber, FormatText, FormatYear, SetGenre, SetYear, Strategy, TransformError,
};

#[test]
fn number_strips_leading_zeros() {
    assert_eq!(FormatNumber.transform("007"), Ok("7".to_string()));
    assert_eq!(FormatNumber.transform("0012"), Ok("12".to_string()));
    assert_eq!(FormatNumber.transform("0"), Ok("0".to_string()));
}

#[test]
fn number_strips_whitespace_and_sign() {
    assert_eq!(FormatNumber.transform("  12 "), Ok("12".to_string()));
    assert_eq!(FormatNumber.transform("+0012"), Ok("12".to_string()));
}

#[test]
fn number_is_idempotent_and_reparses() {
    let once = FormatNumber.transform("007").unwrap();
    let twice = FormatNumber.transform(&once).unwrap();
    assert_eq!(once, twice);
    assert_eq!(once.parse::<u32>().unwrap(), 7);
}

#[test]
fn number_rejects_what_does_not_parse() {
    assert_eq!(FormatNumber.transform("abc"), Err(TransformError::NotANumber));
    assert_eq!(FormatNumber.transform(""), Err(TransformError::NotANumber));
    assert_eq!(FormatNumber.transform("-3"), Err(TransformError::NotANumber));
    assert_eq!(FormatNumber.transform("4294967296"), Err(TransformError::NotANumber));
}

#[test]
fn number_change_is_exact_string_difference() {
    assert!(FormatNumber.changed("007", "7"));
    assert!(!FormatNumber.changed("7", "7"));
}

#[test]
fn text_title_cases_and_tidies() {
    assert_eq!(FormatText.transform("the bends"), Ok("The Bends".to_string()));
    assert_eq!(FormatText.transform("  hello   world  "), Ok("Hello World".to_string()));
}

#[test]
fn text_is_idempotent_under_its_equivalence() {
    for input in ["the bends", "  a  sample   title  ", "iPhone of the YEAR", ""] {
        let once = FormatText.transform(input).unwrap();
        let twice = FormatText.transform(&once).unwrap();
        assert!(!FormatText.changed(&once, &twice));
    }
}

#[test]
fn text_equivalence_ignores_decomposition() {
    // Precomposed e-acute against 'e' plus combining acute accent.
    assert!(!FormatText.changed("caf\u{00e9}", "cafe\u{0301}"));
    assert!(FormatText.changed("cafe", "caff"));
}

#[test]
fn year_extracts_first_four_digit_run() {
    assert_eq!(FormatYear.transform("Copyright 1998 Some Label"), Ok("1998".to_string()));
    assert_eq!(FormatYear.transform("2003-06-14"), Ok("2003".to_string()));
}

#[test]
fn year_passes_through_without_a_match() {
    assert_eq!(FormatYear.transform("no year here"), Ok("no year here".to_string()));
    assert_eq!(FormatYear.transform("123"), Ok("123".to_string()));
}

#[test]
fn set_genre_ignores_the_old_value() {
    let s = SetGenre { genre: "Rock".to_string() };
    assert_eq!(s.transform("whatever"), Ok("Rock".to_string()));
    assert!(s.changed("Pop", "Rock"));
    assert!(!s.changed("Rock", "Rock"));
}

#[test]
fn set_year_writes_canonical_decimal() {
    let s = SetYear { year: 1998 };
    assert_eq!(s.transform("anything"), Ok("1998".to_string()));
    assert!(s.changed("1997", "1998"));
    assert!(!s.changed("1998", "1998"));
}

#[test]
fn erase_changes_exactly_the_non_empty() {
    assert_eq!(Erase.transform("some text"), Ok(String::new()));
    assert!(Erase.changed("some text", ""));
    assert!(!Erase.changed("", ""));
}
