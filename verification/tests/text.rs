use learner::text::{
    chars_of, contains_vec, eq_ignore_case, lower_chars, replace_all, rfind_char,
    starts_with_exec, str_eq, string_from_chars, subvec,
};

#[test]
fn test_replace_all_basic() {
    let v = chars_of("http://arxiv.org/abs/2301.07041");
    let replaced = string_from_chars(&replace_all(&v, "/abs/", "/pdf/"));
    assert_eq!(replaced, "http://arxiv.org/pdf/2301.07041");
}

#[test]
fn test_replace_all_non_overlapping() {
    let v = chars_of("aaa");
    assert_eq!(string_from_chars(&replace_all(&v, "aa", "b")), "ba");
    let v = chars_of("dc:dc:dc:");
    assert_eq!(string_from_chars(&replace_all(&v, "dc:", "")), "");
    let v = chars_of("no match here");
    assert_eq!(string_from_chars(&replace_all(&v, "zzz", "y")), "no match here");
}

#[test]
fn test_string_round_trips_through_chars() {
    for s in ["", "plain", "späces ünd mörē", "数学"] {
        assert_eq!(string_from_chars(&chars_of(s)), s);
    }
}

#[test]
fn test_eq_ignore_case_and_str_eq() {
    assert!(eq_ignore_case("ArXiv", "arxiv"));
    assert!(eq_ignore_case("DOI", "doi"));
    assert!(!eq_ignore_case("doi", "dois"));
    assert!(!eq_ignore_case("d0i", "doi"));
    assert!(str_eq("same", "same"));
    assert!(!str_eq("same", "sam"));
}

#[test]
fn test_lower_chars_is_ascii_only() {
    assert_eq!(string_from_chars(&lower_chars("MiXeD Case 123")), "mixed case 123");
    // Non-ASCII letters are kept as they are.
    assert_eq!(string_from_chars(&lower_chars("ÉCOLE")), "École");
}

#[test]
fn test_contains_and_prefix_search() {
    let hay = chars_of("the quick brown fox");
    assert!(contains_vec(&hay, &chars_of("quick")));
    assert!(contains_vec(&hay, &chars_of("")));
    assert!(!contains_vec(&hay, &chars_of("quicker")));
    assert!(starts_with_exec(&hay, "the q"));
    assert!(!starts_with_exec(&hay, "quick"));
}

#[test]
fn test_rfind_and_subvec() {
    let v = chars_of("/abs/math/0601001");
    assert_eq!(rfind_char(&v, '/'), Some(9));
    assert_eq!(rfind_char(&v, 'z'), None);
    assert_eq!(string_from_chars(&subvec(&v, 10, v.len())), "0601001");
}
