use learner::format::{arrange_title, format_title};

#[test]
fn test_format_title() {
    assert_eq!(format_title("Hello World", None), "hello_world");
    assert_eq!(
        format_title("This Is A Very Long Title Indeed", None),
        "this_is_a_very_long_title_indeed"
    );
    assert_eq!(
        format_title("This Is A Very Long Title Indeed", Some(20)),
        "this_is_a_very_long"
    );
    assert_eq!(
        format_title("This Is A Very Long Title Indeed", Some(30)),
        "this_is_a_very_long_title"
    );
    assert_eq!(format_title("short", None), "short");
    assert_eq!(format_title("UPPERCASE TEXT", None), "uppercase_text");
    assert_eq!(format_title("No    Extra    Spaces", None), "no_extra_spaces");
}

#[test]
fn test_format_title_default_limit() {
    let title = "This Is A Very Long Document Title";
    assert_eq!(format_title(title, None), "this_is_a_very_long_document_title");
    assert_eq!(format_title(title, Some(20)), "this_is_a_very_long");
}

#[test]
fn test_format_title_first_word_too_long() {
    assert_eq!(format_title("Incomprehensibilities abound", Some(10)), "");
}

#[test]
fn test_format_title_whitespace_variants() {
    assert_eq!(format_title("tabs\tand\nnewlines", None), "tabs_and_newlines");
    assert_eq!(format_title("   leading and trailing   ", None), "leading_and_trailing");
    assert_eq!(format_title("", None), "");
    assert_eq!(format_title("   ", None), "");
}

#[test]
fn test_format_title_exact_boundary() {
    // "ab_cd" is five bytes: it fits a limit of five exactly.
    assert_eq!(format_title("AB CD", Some(5)), "ab_cd");
    assert_eq!(format_title("AB CD", Some(4)), "ab");
}

#[test]
fn test_arrange_title_on_lowered_text() {
    assert_eq!(arrange_title("already lower case", 50), "already_lower_case");
    assert_eq!(arrange_title("already lower case", 13), "already_lower");
    assert_eq!(arrange_title("already lower case", 12), "already");
}
