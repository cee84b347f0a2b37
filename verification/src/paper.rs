//! The common paper record, its source tag, and the classifier that maps a
//! raw input string to a source and a canonical identifier.

use vstd::prelude::*;

use crate::datetime::Timestamp;
use crate::errors::LearnerError;
use crate::format::{lower_of, lowercase};
use crate::text::{chars_of, eq_ignore_case, eq_seq_ic, is_alpha, is_digit, string_from_chars};

verus! {

/// The repository or registry a paper originates from.
#[derive(Clone, Copy, Debug, PartialEq, Eq, Structural)]
pub enum Source {
    /// Papers from arxiv.org, with new-style (2301.07041) or old-style
    /// (math.AG/0601001) identifiers.
    Arxiv,
    /// Papers from the IACR Cryptology ePrint Archive (eprint.iacr.org).
    IACR,
    /// Papers identified by a Digital Object Identifier.
    DOI,
}

/// The fixed-case canonical string of a source.
pub open spec fn canonical_source_str(s: Source) -> Seq<char> {
    match s {
        Source::Arxiv => "Arxiv"@,
        Source::IACR => "IACR"@,
        Source::DOI => "DOI"@,
    }
}

/// The source a string parses to, compared without regard to ASCII case;
/// `None` when it matches no source.
pub open spec fn parse_source_spec(s: Seq<char>) -> Option<Source> {
    if eq_seq_ic(s, "arxiv"@) {
        Some(Source::Arxiv)
    } else if eq_seq_ic(s, "iacr"@) {
        Some(Source::IACR)
    } else if eq_seq_ic(s, "doi"@) {
        Some(Source::DOI)
    } else {
        None
    }
}

impl Source {
    /// The canonical, fixed-case string of this source.
    pub fn to_str(&self) -> (r: String)
        ensures
            r@ == canonical_source_str(*self),
    {
        match self {
            Source::Arxiv => String::from_str("Arxiv"),
            Source::IACR => String::from_str("IACR"),
            Source::DOI => String::from_str("DOI"),
        }
    }

    /// Parses a source string, ignoring ASCII case; an unrecognized string is
    /// rejected with [`LearnerError::InvalidSource`] carrying the lowercased
    /// input.
    pub fn from_str(s: &str) -> (r: Result<Source, LearnerError>)
        ensures
            parse_source_spec(s@) matches Some(src) ==> r == Ok::<Source, LearnerError>(src),
            parse_source_spec(s@) is None ==> (r matches Err(e) && e matches
                LearnerError::InvalidSource(t) && t@ == lower_of(s@)),
    {
        if eq_ignore_case(s, "arxiv") {
            Ok(Source::Arxiv)
        } else if eq_ignore_case(s, "iacr") {
            Ok(Source::IACR)
        } else if eq_ignore_case(s, "doi") {
            Ok(Source::DOI)
        } else {
            Err(LearnerError::InvalidSource(lowercase(s)))
        }
    }
}

/// Round trip: formatting any source to its canonical string and parsing the
/// result back yields the same source.
pub proof fn lemma_source_round_trip(s: Source)
    ensures
        parse_source_spec(canonical_source_str(s)) == Some(s),
{
    reveal_strlit("Arxiv");
    reveal_strlit("arxiv");
    reveal_strlit("IACR");
    reveal_strlit("iacr");
    reveal_strlit("DOI");
    reveal_strlit("doi");
    match s {
        Source::Arxiv => {
            assert(eq_seq_ic("Arxiv"@, "arxiv"@));
        },
        Source::IACR => {
            assert(eq_seq_ic("IACR"@, "iacr"@));
        },
        Source::DOI => {
            assert(!eq_seq_ic("DOI"@, "arxiv"@));
            assert(!eq_seq_ic("DOI"@, "iacr"@));
            assert(eq_seq_ic("DOI"@, "doi"@));
        },
    }
}

/// An author of a paper.
#[derive(Clone, Debug)]
pub struct Author {
    /// The author's full display name.
    pub name: String,
    /// The author's institutional affiliation, if the source lists one.
    pub affiliation: Option<String>,
    /// The author's email address; no current source populates it.
    pub email: Option<String>,
}

/// A paper record in the common shape all sources are mapped to.
#[derive(Clone, Debug)]
pub struct Paper {
    /// The paper's title.
    pub title: String,
    /// The paper's authors, in the order the source lists them.
    pub authors: Vec<Author>,
    /// The paper's abstract; empty when the source has none.
    pub abstract_text: String,
    /// The single resolved publication timestamp, with UTC semantics.
    pub publication_date: Timestamp,
    /// The source the paper was fetched from.
    pub source: Source,
    /// The canonical identifier the paper was fetched under; the pair
    /// (source, source_identifier) identifies a paper in the store.
    pub source_identifier: String,
    /// A direct-download link for the PDF, if one is known.
    pub pdf_url: Option<String>,
    /// The paper's DOI, when the source supplies one.
    pub doi: Option<String>,
}


// ------------------------------------------------------------------
// Identifier patterns for bare (non-URL) inputs
// ------------------------------------------------------------------

/// The arXiv new-style identifier pattern: four digits, '.', then four or
/// five digits.
pub open spec fn arxiv_new_pattern(s: Seq<char>) -> bool {
    9 <= s.len() <= 10 && (forall|i: int| 0 <= i < 4 ==> is_digit(s[i])) && s[4] == '.' && (forall|
        i: int,
    | 5 <= i < s.len() ==> is_digit(s[i]))
}

/// The arXiv old-style identifier pattern: one or more letters or hyphens,
/// '/', then exactly seven digits.
pub open spec fn arxiv_old_pattern(s: Seq<char>) -> bool {
    s.len() >= 9 && (forall|i: int| 0 <= i < s.len() - 8 ==> is_alpha(s[i]) || s[i] == '-') && s[
        s.len() - 8
    ] == '/' && (forall|i: int| s.len() - 7 <= i < s.len() ==> is_digit(s[i]))
}

/// The IACR identifier pattern: four digits, '/', then one or more digits.
pub open spec fn iacr_pattern(s: Seq<char>) -> bool {
    s.len() >= 6 && (forall|i: int| 0 <= i < 4 ==> is_digit(s[i])) && s[4] == '/' && (forall|
        i: int,
    | 5 <= i < s.len() ==> is_digit(s[i]))
}

/// A character a DOI suffix may contain.
pub open spec fn is_doi_char(c: char) -> bool {
    is_digit(c) || is_alpha(c) || c == '-' || c == '.' || c == '_' || c == ';' || c == '(' || c
        == ')' || c == '/' || c == ':'
}

/// `k` is the position of the slash separating a DOI's "10." prefix (with
/// four to nine registrant digits) from its non-empty suffix.
pub open spec fn doi_split_at(s: Seq<char>, k: int) -> bool {
    7 <= k <= 12 && k < s.len() - 1 && s[0] == '1' && s[1] == '0' && s[2] == '.' && (forall|i: int|
        3 <= i < k ==> is_digit(s[i])) && s[k] == '/' && (forall|i: int|
        k < i < s.len() ==> is_doi_char(s[i]))
}

/// The DOI pattern: "10.", four to nine digits, '/', then one or more
/// characters of the DOI suffix alphabet.
pub open spec fn doi_pattern(s: Seq<char>) -> bool {
    exists|k: int| doi_split_at(s, k)
}

/// Whether `c` is an ASCII decimal digit.
pub fn digit_exec(c: char) -> (r: bool)
    ensures
        r == is_digit(c),
{
    let u = c as u32;
    48 <= u && u <= 57
}

/// Whether `c` is an ASCII letter.
pub fn alpha_exec(c: char) -> (r: bool)
    ensures
        r == is_alpha(c),
{
    let u = c as u32;
    (65 <= u && u <= 90) || (97 <= u && u <= 122)
}

/// Whether `c` may appear in a DOI suffix.
pub fn doi_char_exec(c: char) -> (r: bool)
    ensures
        r == is_doi_char(c),
{
    digit_exec(c) || alpha_exec(c) || c == '-' || c == '.' || c == '_' || c == ';' || c == '(' || c
        == ')' || c == '/' || c == ':'
}

/// Whether every character of `v` in `[a, b)` is a digit.
pub fn all_digits(v: &Vec<char>, a: usize, b: usize) -> (r: bool)
    requires
        a <= b <= v@.len(),
    ensures
        r == (forall|i: int| a <= i < b ==> is_digit(v@[i])),
{
    let mut j: usize = a;
    while j < b
        invariant
            a <= j <= b <= v@.len(),
            forall|i: int| a <= i < j ==> is_digit(v@[i]),
        decreases b - j,
    {
        if !digit_exec(v[j]) {
            return false;
        }
        j += 1;
    }
    true
}

/// Whether every character of `v` in `[a, b)` is a letter or a hyphen.
pub fn all_alpha_hyphen(v: &Vec<char>, a: usize, b: usize) -> (r: bool)
    requires
        a <= b <= v@.len(),
    ensures
        r == (forall|i: int| a <= i < b ==> is_alpha(v@[i]) || v@[i] == '-'),
{
    let mut j: usize = a;
    while j < b
        invariant
            a <= j <= b <= v@.len(),
            forall|i: int| a <= i < j ==> is_alpha(v@[i]) || v@[i] == '-',
        decreases b - j,
    {
        if !alpha_exec(v[j]) && v[j] != '-' {
            return false;
        }
        j += 1;
    }
    true
}

/// Whether every character of `v` in `[a, b)` is a DOI suffix character.
pub fn all_doi_chars(v: &Vec<char>, a: usize, b: usize) -> (r: bool)
    requires
        a <= b <= v@.len(),
    ensures
        r == (forall|i: int| a <= i < b ==> is_doi_char(v@[i])),
{
    let mut j: usize = a;
    while j < b
        invariant
            a <= j <= b <= v@.len(),
            forall|i: int| a <= i < j ==> is_doi_char(v@[i]),
        decreases b - j,
    {
        if !doi_char_exec(v[j]) {
            return false;
        }
        j += 1;
    }
    true
}

/// Whether `v` matches the arXiv new-style pattern.
pub fn is_arxiv_new_id(v: &Vec<char>) -> (r: bool)
    ensures
        r == arxiv_new_pattern(v@),
{
    let n = v.len();
    if n < 9 || n > 10 {
        return false;
    }
    if !all_digits(v, 0, 4) {
        return false;
    }
    if v[4] != '.' {
        return false;
    }
    all_digits(v, 5, n)
}

/// Whether `v` matches the arXiv old-style pattern.
pub fn is_arxiv_old_id(v: &Vec<char>) -> (r: bool)
    ensures
        r == arxiv_old_pattern(v@),
{
    let n = v.len();
    if n < 9 {
        return false;
    }
    if !all_alpha_hyphen(v, 0, n - 8) {
        return false;
    }
    if v[n - 8] != '/' {
        return false;
    }
    all_digits(v, n - 7, n)
}

/// Whether `v` matches the IACR pattern.
pub fn is_iacr_id(v: &Vec<char>) -> (r: bool)
    ensures
        r == iacr_pattern(v@),
{
    let n = v.len();
    if n < 6 {
        return false;
    }
    if !all_digits(v, 0, 4) {
        return false;
    }
    if v[4] != '/' {
        return false;
    }
    all_digits(v, 5, n)
}

/// The first position at or after `a` that does not hold a digit, or the
/// length of `v` when digits run to the end.
pub fn first_non_digit_from(v: &Vec<char>, a: usize) -> (k: usize)
    requires
        a <= v@.len(),
    ensures
        a <= k <= v@.len(),
        forall|i: int| a <= i < k ==> is_digit(v@[i]),
        k < v@.len() ==> !is_digit(v@[k as int]),
{
    let n = v.len();
    let mut k: usize = a;
    while k < n
        invariant
            a <= k <= n,
            n == v@.len(),
            forall|i: int| a <= i < k ==> is_digit(v@[i]),
        decreases n - k,
    {
        if !digit_exec(v[k]) {
            return k;
        }
        k += 1;
    }
    k
}

/// Whether `v` matches the DOI pattern.
pub fn is_doi_id(v: &Vec<char>) -> (r: bool)
    ensures
        r == doi_pattern(v@),
{
    let n = v.len();
    if n < 9 {
        proof {
            assert(forall|k: int| !doi_split_at(v@, k));
        }
        return false;
    }
    if v[0] != '1' || v[1] != '0' || v[2] != '.' {
        proof {
            assert(forall|k: int| !doi_split_at(v@, k));
        }
        return false;
    }
    // The slash ending the registrant digits is the first non-digit after
    // position 3, so that position decides the whole match.
    let k = first_non_digit_from(v, 3);
    proof {
        assert forall|k2: int| doi_split_at(v@, k2) implies (k2 == k as int) by {
            if k2 < k {
                assert(is_digit(v@[k2]));
                assert(v@[k2] == '/');
                assert(false);
            } else if k2 > k {
                assert(k < n);
                assert(!is_digit(v@[k as int]));
                assert(is_digit(v@[k as int]));
                assert(false);
            }
        }
    }
    if k < 7 || k > 12 || k >= n - 1 {
        return false;
    }
    if v[k] != '/' {
        return false;
    }
    let r = all_doi_chars(v, k + 1, n);
    proof {
        if r {
            assert(doi_split_at(v@, k as int));
        }
    }
    r
}


// ------------------------------------------------------------------
// URL classification
// ------------------------------------------------------------------

/// Whether `s` parses as an absolute URL.
pub uninterp spec fn url_ok(s: Seq<char>) -> bool;

/// The host string of the URL `s` parses to, when it parses and has a host.
pub uninterp spec fn url_host(s: Seq<char>) -> Option<Seq<char>>;

/// The path of the URL `s` parses to, when it parses.
pub uninterp spec fn url_path(s: Seq<char>) -> Seq<char>;

/// The host and path of a parsed URL.
pub struct UrlParts {
    /// The URL's host, if it has one.
    pub host: Option<String>,
    /// The URL's path.
    pub path: String,
}

/// Relies on `url::Url::parse` (with `Url::host_str` and `Url::path`):
/// whether a string parses as an absolute URL, and the host and path it then
/// carries, are functions of its characters alone. The URL standard demands a
/// scheme — an ASCII letter followed by letters, digits, '+', '-' or '.',
/// then ':' — at the front of the input once ASCII whitespace and control
/// characters (all at or below U+0020) are removed, so an input with no colon
/// at all, or one that keeps every character above U+0020 yet does not open
/// with a letter, is refused.
#[verifier::external_body]
fn parse_url(s: &str) -> (r: Option<UrlParts>)
    ensures
        r is Some <==> url_ok(s@),
        r matches Some(p) ==> (p.path@ == url_path(s@) && (match p.host {
            Some(h) => url_host(s@) == Some(h@),
            None => url_host(s@) is None,
        })),
        (forall|i: int| 0 <= i < s@.len() ==> s@[i] != ':') ==> r is None,
        (s@.len() == 0 || (!is_alpha(s@[0]) && forall|i: int|
            0 <= i < s@.len() ==> s@[i] as u32 > 32)) ==> r is None,
{
    match url::Url::parse(s) {
        Ok(u) => Some(
            UrlParts {
                host: u.host_str().map(|h| h.to_string()),
                path: u.path().to_string(),
            },
        ),
        Err(_) => None,
    }
}

/// The arXiv identifier carried by an abs-page URL path: the final path
/// segment when it is non-empty, slash-free and preceded by "abs/".
pub open spec fn arxiv_abs_id(path: Seq<char>) -> Option<Seq<char>> {
    let j = crate::text::find_last(path, '/');
    if 3 <= j && j + 1 < path.len() && path.subrange(j - 3, j + 1) == "abs/"@ {
        Some(path.skip(j + 1))
    } else {
        None
    }
}

/// The IACR identifier carried by a URL path: a trailing
/// `<four digits>/<digits>` group.
pub open spec fn iacr_tail_id(path: Seq<char>) -> Option<Seq<char>> {
    let j = crate::text::find_last(path, '/');
    if 4 <= j && j + 1 < path.len() && (forall|i: int| j - 4 <= i < j ==> is_digit(path[i]))
        && (forall|i: int| j < i < path.len() ==> is_digit(path[i])) {
        Some(path.skip(j - 4))
    } else {
        None
    }
}

/// The DOI carried by a doi.org URL path: the path with its leading slash
/// removed.
pub open spec fn doi_path_id(path: Seq<char>) -> Option<Seq<char>> {
    if path.len() >= 1 && path[0] == '/' {
        Some(path.skip(1))
    } else {
        None
    }
}

/// Extracts the arXiv identifier from an abs-page URL path such as
/// "/abs/2301.07041".
pub fn extract_arxiv_id(path: &str) -> (r: Result<String, LearnerError>)
    ensures
        match arxiv_abs_id(path@) {
            Some(id) => r matches Ok(s) && s@ == id,
            None => r matches Err(e) && e is InvalidIdentifier,
        },
{
    let v = chars_of(path);
    let n = v.len();
    proof {
        reveal_strlit("abs/");
        crate::text::lemma_find_last(v@, '/');
    }
    match crate::text::rfind_char(&v, '/') {
        Some(j) => {
            if j >= 3 && j + 1 < n && crate::text::occurs_at_exec(&v, "abs/", j - 3) {
                proof {
                    assert(v@.subrange(j - 3, j + 1 as int) =~= v@.subrange(
                        j - 3,
                        j - 3 + "abs/"@.len(),
                    ));
                    assert(v@.skip(j + 1 as int) =~= v@.subrange(j + 1 as int, n as int));
                }
                let id = crate::text::subvec(&v, j + 1, n);
                Ok(string_from_chars(&id))
            } else {
                proof {
                    if j >= 3 && j + 1 < n {
                        assert(v@.subrange(j - 3, j + 1 as int) =~= v@.subrange(
                            j - 3,
                            j - 3 + "abs/"@.len(),
                        ));
                    }
                }
                Err(LearnerError::InvalidIdentifier)
            }
        },
        None => Err(LearnerError::InvalidIdentifier),
    }
}

/// Extracts the IACR identifier from a URL path such as "/2016/260".
pub fn extract_iacr_id(path: &str) -> (r: Result<String, LearnerError>)
    ensures
        match iacr_tail_id(path@) {
            Some(id) => r matches Ok(s) && s@ == id,
            None => r matches Err(e) && e is InvalidIdentifier,
        },
{
    let v = chars_of(path);
    let n = v.len();
    proof {
        crate::text::lemma_find_last(v@, '/');
    }
    match crate::text::rfind_char(&v, '/') {
        Some(j) => {
            if j >= 4 && j + 1 < n && all_digits(&v, j - 4, j) && all_digits(&v, j + 1, n) {
                proof {
                    assert(v@.skip(j - 4) =~= v@.subrange(j - 4, n as int));
                }
                let id = crate::text::subvec(&v, j - 4, n);
                Ok(string_from_chars(&id))
            } else {
                Err(LearnerError::InvalidIdentifier)
            }
        },
        None => Err(LearnerError::InvalidIdentifier),
    }
}

/// Extracts the DOI from a doi.org URL path by stripping the leading slash.
pub fn extract_doi(path: &str) -> (r: Result<String, LearnerError>)
    ensures
        match doi_path_id(path@) {
            Some(id) => r matches Ok(s) && s@ == id,
            None => r matches Err(e) && e is InvalidIdentifier,
        },
{
    let v = chars_of(path);
    let n = v.len();
    if n >= 1 && v[0] == '/' {
        proof {
            assert(v@.skip(1) =~= v@.subrange(1, n as int));
        }
        let id = crate::text::subvec(&v, 1, n);
        Ok(string_from_chars(&id))
    } else {
        Err(LearnerError::InvalidIdentifier)
    }
}

// ------------------------------------------------------------------
// The classifier
// ------------------------------------------------------------------

/// A classified input: the source it belongs to and the canonical identifier
/// extracted from it.
#[derive(Clone, Debug)]
pub struct SourceIdentifier {
    /// The source the input designates.
    pub source: Source,
    /// The canonical source-specific identifier.
    pub identifier: String,
}

/// How a bare (non-URL) input is classified: the literal patterns are tried
/// in a fixed order and the identifier is the input itself.
pub open spec fn classify_pattern(s: Seq<char>) -> Option<(Source, Seq<char>)> {
    if arxiv_new_pattern(s) || arxiv_old_pattern(s) {
        Some((Source::Arxiv, s))
    } else if iacr_pattern(s) {
        Some((Source::IACR, s))
    } else if doi_pattern(s) {
        Some((Source::DOI, s))
    } else {
        None
    }
}

/// How a URL input is classified: purely on its host, with the identifier
/// extracted from the path.
pub open spec fn classify_url_spec(s: Seq<char>) -> Option<(Source, Seq<char>)> {
    match url_host(s) {
        Some(h) => {
            if h == "arxiv.org"@ {
                match arxiv_abs_id(url_path(s)) {
                    Some(id) => Some((Source::Arxiv, id)),
                    None => None,
                }
            } else if h == "eprint.iacr.org"@ {
                match iacr_tail_id(url_path(s)) {
                    Some(id) => Some((Source::IACR, id)),
                    None => None,
                }
            } else if h == "doi.org"@ {
                match doi_path_id(url_path(s)) {
                    Some(id) => Some((Source::DOI, id)),
                    None => None,
                }
            } else {
                None
            }
        },
        None => None,
    }
}

/// How any input is classified: URL parsing is attempted first and decides
/// alone when it succeeds; otherwise the literal patterns decide.
pub open spec fn classify_spec(s: Seq<char>) -> Option<(Source, Seq<char>)> {
    if url_ok(s) {
        classify_url_spec(s)
    } else {
        classify_pattern(s)
    }
}

/// Maps a raw input string — a URL, a bare identifier or a DOI — to the
/// source it belongs to and the canonical identifier to fetch it by.
///
/// An input matching either arXiv identifier pattern is always classified as
/// arXiv with the identifier equal to the input itself: such inputs hold no
/// colon, so they can never parse as a URL.
pub fn classify(input: &str) -> (r: Result<SourceIdentifier, LearnerError>)
    ensures
        match classify_spec(input@) {
            Some(p) => r matches Ok(si) && si.source == p.0 && si.identifier@ == p.1,
            None => r matches Err(e) && e is InvalidIdentifier,
        },
        arxiv_new_pattern(input@) || arxiv_old_pattern(input@) ==> (r matches Ok(si) && si.source
            == Source::Arxiv && si.identifier@ == input@),
        (iacr_pattern(input@) && !arxiv_new_pattern(input@) && !arxiv_old_pattern(input@)) ==> (
        r matches Ok(si) && si.source == Source::IACR && si.identifier@ == input@),
        (doi_pattern(input@) && !arxiv_new_pattern(input@) && !arxiv_old_pattern(input@)
            && !iacr_pattern(input@)) ==> (r matches Ok(si) && si.source == Source::DOI
            && si.identifier@ == input@),
{
    match parse_url(input) {
        Some(parts) => {
            proof {
                if arxiv_new_pattern(input@) || arxiv_old_pattern(input@) || iacr_pattern(
                    input@,
                ) {
                    assert forall|i: int| 0 <= i < input@.len() implies input@[i] != ':' by {
                        lemma_bare_patterns_have_no_colon(input@, i);
                    }
                    assert(false);
                }
                if doi_pattern(input@) {
                    assert forall|i: int| 0 <= i < input@.len() implies input@[i] as u32 > 32 by {
                        lemma_doi_pattern_chars_printable(input@, i);
                    }
                    assert(input@[0] == '1');
                    assert(!is_alpha(input@[0]));
                    assert(false);
                }
            }
            match parts.host {
                Some(h) => {
                    if h == String::from_str("arxiv.org") {
                        match extract_arxiv_id(parts.path.as_str()) {
                            Ok(id) => Ok(
                                SourceIdentifier { source: Source::Arxiv, identifier: id },
                            ),
                            Err(e) => Err(e),
                        }
                    } else if h == String::from_str("eprint.iacr.org") {
                        match extract_iacr_id(parts.path.as_str()) {
                            Ok(id) => Ok(SourceIdentifier { source: Source::IACR, identifier: id }),
                            Err(e) => Err(e),
                        }
                    } else if h == String::from_str("doi.org") {
                        match extract_doi(parts.path.as_str()) {
                            Ok(id) => Ok(SourceIdentifier { source: Source::DOI, identifier: id }),
                            Err(e) => Err(e),
                        }
                    } else {
                        Err(LearnerError::InvalidIdentifier)
                    }
                },
                None => Err(LearnerError::InvalidIdentifier),
            }
        },
        None => {
            let v = chars_of(input);
            if is_arxiv_new_id(&v) || is_arxiv_old_id(&v) {
                Ok(SourceIdentifier { source: Source::Arxiv, identifier: input.to_owned() })
            } else if is_iacr_id(&v) {
                Ok(SourceIdentifier { source: Source::IACR, identifier: input.to_owned() })
            } else if is_doi_id(&v) {
                Ok(SourceIdentifier { source: Source::DOI, identifier: input.to_owned() })
            } else {
                Err(LearnerError::InvalidIdentifier)
            }
        },
    }
}

/// No character of an input matching an arXiv or IACR pattern is a colon:
/// every position holds a digit, a letter, '.', '-' or '/'.
pub proof fn lemma_bare_patterns_have_no_colon(s: Seq<char>, i: int)
    requires
        arxiv_new_pattern(s) || arxiv_old_pattern(s) || iacr_pattern(s),
        0 <= i < s.len(),
    ensures
        s[i] != ':',
{
    if arxiv_new_pattern(s) {
        if i < 4 {
            assert(is_digit(s[i]));
        } else if i == 4 {
            assert(s[i] == '.');
        } else {
            assert(is_digit(s[i]));
        }
    } else if arxiv_old_pattern(s) {
        if i < s.len() - 8 {
            assert(is_alpha(s[i]) || s[i] == '-');
        } else if i == s.len() - 8 {
            assert(s[i] == '/');
        } else {
            assert(is_digit(s[i]));
        }
    } else {
        if i < 4 {
            assert(is_digit(s[i]));
        } else if i == 4 {
            assert(s[i] == '/');
        } else {
            assert(is_digit(s[i]));
        }
    }
    assert(':' as u32 == 58);
}

/// Every character of an input matching the DOI pattern sits above U+0020:
/// the prefix holds digits and '.', and the suffix alphabet starts at '('.
pub proof fn lemma_doi_pattern_chars_printable(s: Seq<char>, i: int)
    requires
        doi_pattern(s),
        0 <= i < s.len(),
    ensures
        s[i] as u32 > 32,
{
    let k = choose|k: int| doi_split_at(s, k);
    if i < 3 {
        assert(s[0] == '1' && s[1] == '0' && s[2] == '.');
    } else if i < k {
        assert(is_digit(s[i]));
    } else if i == k {
        assert(s[i] == '/');
    } else {
        assert(is_doi_char(s[i]));
    }
}

/// The abs-page URL path "/abs/<id>" of an arXiv new-style identifier yields
/// exactly that identifier back.
///
/// (For an old-style identifier, which itself contains a slash, the
/// final path segment is only the numeric part, so the corresponding URL is
/// recognized; the bare-identifier half of the claim is part of `classify`'s
/// contract.)
pub proof fn lemma_arxiv_url_matches_bare(id: Seq<char>, path: Seq<char>)
    requires
        arxiv_new_pattern(id),
        path == "/abs/"@ + id,
    ensures
        arxiv_abs_id(path) == Some(id),
{
    reveal_strlit("/abs/");
    reveal_strlit("abs/");
    crate::text::lemma_find_last(path, '/');
    assert(path.len() == 5 + id.len());
    assert(path[4] == '/');
    assert forall|i: int| 5 <= i < path.len() implies path[i] != '/' by {
        assert(path[i] == id[i - 5]);
        if i - 5 < 4 {
            assert(is_digit(id[i - 5]));
        } else if i - 5 == 4 {
            assert(id[i - 5] == '.');
        } else {
            assert(is_digit(id[i - 5]));
        }
        assert('/' as u32 == 47);
    }
    let j = crate::text::find_last(path, '/');
    if j < 4 {
        assert(path[4] != '/');
        assert(false);
    }
    if j > 4 {
        assert(path[j] != '/');
        assert(false);
    }
    assert(path.subrange(1, 5) =~= "abs/"@);
    assert(path.skip(5) =~= id);
}

/// Classifying the abs-page URL of an arXiv new-style identifier gives the
/// same answer as classifying the bare identifier: Source::Arxiv with that
/// identifier.
pub proof fn lemma_arxiv_url_classified(u: Seq<char>, id: Seq<char>)
    requires
        arxiv_new_pattern(id),
        url_ok(u),
        url_host(u) == Some("arxiv.org"@),
        url_path(u) == "/abs/"@ + id,
    ensures
        classify_spec(u) == Some((Source::Arxiv, id)),
{
    lemma_arxiv_url_matches_bare(id, url_path(u));
}



/// The four literal identifier formats do not overlap: no input matches two
/// of them, so the order in which a bare input is tried against the patterns
/// never makes the classification ambiguous.
pub proof fn lemma_patterns_do_not_overlap(s: Seq<char>)
    ensures
        !(arxiv_new_pattern(s) && arxiv_old_pattern(s)),
        !(arxiv_new_pattern(s) && iacr_pattern(s)),
        !(arxiv_new_pattern(s) && doi_pattern(s)),
        !(arxiv_old_pattern(s) && iacr_pattern(s)),
        !(arxiv_old_pattern(s) && doi_pattern(s)),
        !(iacr_pattern(s) && doi_pattern(s)),
{
    if doi_pattern(s) {
        let k = choose|k: int| doi_split_at(s, k);
        assert(s.len() > 3 && s[0] == '1' && s[2] == '.');
    }
    if arxiv_old_pattern(s) {
        assert(is_alpha(s[0]) || s[0] == '-');
    }
    if arxiv_new_pattern(s) && arxiv_old_pattern(s) {
        if 4 < s.len() - 8 {
            assert(is_alpha(s[4]) || s[4] == '-');
        } else if 4 == s.len() - 8 {
            assert(s[4] == '/');
        } else {
            assert(is_digit(s[4]));
        }
        assert(s[4] == '.');
        assert(false);
    }
}

/// `b` holds the same author data as `a`, field by field.
pub open spec fn author_matches(a: Author, b: Author) -> bool {
    a.name@ == b.name@ && a.affiliation.deep_view() == b.affiliation.deep_view()
        && a.email.deep_view() == b.email.deep_view()
}

/// `b` holds the same paper data as `a`, field by field.
pub open spec fn paper_matches(a: Paper, b: Paper) -> bool {
    a.title@ == b.title@ && a.authors@.len() == b.authors@.len() && (forall|i: int|
        0 <= i < a.authors@.len() ==> author_matches(#[trigger] a.authors@[i], b.authors@[i]))
        && a.abstract_text@ == b.abstract_text@ && a.publication_date == b.publication_date
        && a.source == b.source && a.source_identifier@ == b.source_identifier@
        && a.pdf_url.deep_view() == b.pdf_url.deep_view() && a.doi.deep_view() == b.doi.deep_view()
}

/// Copies an optional string.
pub(crate) fn copy_opt_string(o: &Option<String>) -> (r: Option<String>)
    ensures
        r.deep_view() == o.deep_view(),
{
    match o {
        Some(s) => Some(s.clone()),
        None => None,
    }
}

impl Author {
    /// A field-by-field copy of this author.
    pub fn duplicate(&self) -> (r: Author)
        ensures
            author_matches(*self, r),
    {
        Author {
            name: self.name.clone(),
            affiliation: copy_opt_string(&self.affiliation),
            email: copy_opt_string(&self.email),
        }
    }
}

impl Paper {
    /// A field-by-field copy of this paper.
    pub fn duplicate(&self) -> (r: Paper)
        ensures
            paper_matches(*self, r),
    {
        let mut authors: Vec<Author> = Vec::new();
        let mut i: usize = 0;
        while i < self.authors.len()
            invariant
                i <= self.authors@.len(),
                authors@.len() == i,
                forall|k: int|
                    0 <= k < i ==> author_matches(#[trigger] self.authors@[k], authors@[k]),
            decreases self.authors@.len() - i,
        {
            authors.push(self.authors[i].duplicate());
            i += 1;
        }
        Paper {
            title: self.title.clone(),
            authors,
            abstract_text: self.abstract_text.clone(),
            publication_date: self.publication_date,
            source: self.source,
            source_identifier: self.source_identifier.clone(),
            pdf_url: copy_opt_string(&self.pdf_url),
            doi: copy_opt_string(&self.doi),
        }
    }
}


} // verus!
