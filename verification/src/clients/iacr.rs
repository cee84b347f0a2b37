//! Mapping of IACR ePrint OAI-PMH responses to the common paper shape:
//! identifier validation, the namespace-stripping preprocessing, protocol
//! error detection, DOI selection among the Dublin Core identifiers, and the
//! derived PDF link.
//!
//! The HTTP request and the XML decoding happen outside the library; this
//! module prepares the raw text for a namespace-unaware decode and receives
//! the decoded record as plain values.

use vstd::prelude::*;
use vstd::string::StringExecFns;

use crate::datetime::{parse_rfc3339_utc, rfc3339_utc_parts, ts_has_parts};
use crate::errors::LearnerError;
use crate::paper::{Author, Paper, Source};
use crate::text::{
    chars_of, find_last, lemma_find_last, replace_all, replace_all_spec, rfind_char,
    starts_with_exec, starts_with_seq, string_from_chars,
};

verus! {

/// The error element of an OAI-PMH response.
pub struct OaiError {
    /// The standard OAI-PMH error code.
    pub code: String,
    /// The human-readable error message.
    pub message: String,
}

/// The Dublin Core fields of an ePrint record.
pub struct DublinCore {
    /// The paper's title.
    pub title: String,
    /// The creators (author names); may be empty.
    pub creators: Vec<String>,
    /// The paper's abstract.
    pub description: String,
    /// The record's dates; the first is the creation date.
    pub dates: Vec<String>,
    /// The record's identifiers: URLs, DOIs and similar strings.
    pub identifiers: Vec<String>,
}

/// An OAI-PMH GetRecord response: either an error element or a record.
pub struct OaiPmhResponse {
    /// The requested record's Dublin Core metadata, if one was returned.
    pub record: Option<DublinCore>,
    /// The protocol-level error element, if the request failed.
    pub error: Option<OaiError>,
}

/// `s` holds exactly one '/' (the shape `<year>/<number>` has, whatever the
/// parts hold).
pub open spec fn one_slash(s: Seq<char>) -> bool {
    find_last(s, '/') >= 0 && forall|i: int| 0 <= i < find_last(s, '/') ==> s[i] != '/'
}

/// Whether `v` holds exactly one '/'.
pub fn exactly_one_slash(v: &Vec<char>) -> (r: bool)
    ensures
        r == one_slash(v@),
{
    proof {
        lemma_find_last(v@, '/');
    }
    match rfind_char(v, '/') {
        Some(j) => {
            let mut i: usize = 0;
            while i < j
                invariant
                    i <= j < v@.len(),
                    j as int == find_last(v@, '/'),
                    forall|k: int| 0 <= k < i ==> v@[k] != '/',
                decreases j - i,
            {
                if v[i] == '/' {
                    return false;
                }
                i += 1;
            }
            true
        },
        None => false,
    }
}

/// The first sequence in `ids` that starts with `pre`, if any.
pub open spec fn first_with_prefix(ids: Seq<Seq<char>>, pre: Seq<char>) -> Option<Seq<char>>
    decreases ids.len(),
{
    if ids.len() == 0 {
        None
    } else if starts_with_seq(ids[0], pre) {
        Some(ids[0])
    } else {
        first_with_prefix(ids.skip(1), pre)
    }
}

/// When no sequence before position `i` starts with `pre`, the first match
/// overall is the first match at or after `i`.
proof fn lemma_first_with_prefix(ids: Seq<Seq<char>>, pre: Seq<char>, i: int)
    requires
        0 <= i <= ids.len(),
        forall|k: int| 0 <= k < i ==> !starts_with_seq(ids[k], pre),
    ensures
        first_with_prefix(ids, pre) == first_with_prefix(ids.skip(i), pre),
    decreases i,
{
    if i == 0 {
        assert(ids.skip(0) =~= ids);
    } else {
        assert(!starts_with_seq(ids[0], pre));
        lemma_first_with_prefix(ids.skip(1), pre, i - 1);
        assert(ids.skip(1).skip(i - 1) =~= ids.skip(i));
    }
}

/// The archive's own URL prefix, which marks the identifier value taken as
/// the record's DOI-like link.
pub open spec fn eprint_url_prefix() -> Seq<char> {
    "https://eprint.iacr.org/"@
}

/// The first identifier value that looks like a full ePrint URL, if any.
fn find_eprint_identifier(ids: &Vec<String>) -> (r: Option<String>)
    ensures
        match first_with_prefix(ids.deep_view(), eprint_url_prefix()) {
            Some(d) => r matches Some(s) && s@ == d,
            None => r is None,
        },
{
    let n = ids.len();
    let mut i: usize = 0;
    while i < n
        invariant
            i <= n,
            n == ids@.len(),
            forall|k: int| 0 <= k < i ==> !starts_with_seq(ids.deep_view()[k], eprint_url_prefix()),
        decreases n - i,
    {
        let v = chars_of(ids[i].as_str());
        proof {
            assert(ids.deep_view()[i as int] == ids@[i as int]@);
        }
        if starts_with_exec(&v, "https://eprint.iacr.org/") {
            proof {
                lemma_first_with_prefix(ids.deep_view(), eprint_url_prefix(), i as int);
                assert(ids.deep_view().skip(i as int)[0] == ids.deep_view()[i as int]);
            }
            return Some(ids[i].clone());
        }
        i += 1;
    }
    proof {
        lemma_first_with_prefix(ids.deep_view(), eprint_url_prefix(), n as int);
        assert(ids.deep_view().skip(n as int) =~= Seq::<Seq<char>>::empty());
    }
    None
}

/// The raw response text after removing the namespace declarations and the
/// element-name prefixes that a namespace-unaware decode cannot digest.
pub open spec fn strip_oai_spec(s: Seq<char>) -> Seq<char> {
    let s1 = replace_all_spec(
        s,
        "xmlns:oai_dc=\"http://www.openarchives.org/OAI/2.0/oai_dc/\""@,
        ""@,
    );
    let s2 = replace_all_spec(s1, "xmlns:dc=\"http://purl.org/dc/elements/1.1/\""@, ""@);
    let s3 = replace_all_spec(s2, "xmlns:xsi=\"http://www.w3.org/2001/XMLSchema-instance\""@, ""@);
    let s4 = replace_all_spec(
        s3,
        "xsi:schemaLocation=\"http://www.openarchives.org/OAI/2.0/oai_dc/ http://www.openarchives.org/OAI/2.0/oai_dc.xsd\""@,
        ""@,
    );
    let s5 = replace_all_spec(s4, "oai_dc:"@, ""@);
    replace_all_spec(s5, "dc:"@, ""@)
}

/// Removes the known namespace declarations and the `oai_dc:` / `dc:`
/// element-name prefixes from a raw OAI-PMH response, so that a
/// namespace-unaware structural decode sees plain element names.
pub fn strip_oai_namespaces(text: &str) -> (r: String)
    ensures
        r@ == strip_oai_spec(text@),
{
    proof {
        reveal_strlit("xmlns:oai_dc=\"http://www.openarchives.org/OAI/2.0/oai_dc/\"");
        reveal_strlit("xmlns:dc=\"http://purl.org/dc/elements/1.1/\"");
        reveal_strlit("xmlns:xsi=\"http://www.w3.org/2001/XMLSchema-instance\"");
        reveal_strlit(
            "xsi:schemaLocation=\"http://www.openarchives.org/OAI/2.0/oai_dc/ http://www.openarchives.org/OAI/2.0/oai_dc.xsd\"",
        );
        reveal_strlit("oai_dc:");
        reveal_strlit("dc:");
    }
    let v = chars_of(text);
    let v = replace_all(&v, "xmlns:oai_dc=\"http://www.openarchives.org/OAI/2.0/oai_dc/\"", "");
    let v = replace_all(&v, "xmlns:dc=\"http://purl.org/dc/elements/1.1/\"", "");
    let v = replace_all(&v, "xmlns:xsi=\"http://www.w3.org/2001/XMLSchema-instance\"", "");
    let v = replace_all(
        &v,
        "xsi:schemaLocation=\"http://www.openarchives.org/OAI/2.0/oai_dc/ http://www.openarchives.org/OAI/2.0/oai_dc.xsd\"",
        "",
    );
    let v = replace_all(&v, "oai_dc:", "");
    let v = replace_all(&v, "dc:", "");
    string_from_chars(&v)
}

/// The authors are exactly the creators, name-only and in order.
pub open spec fn creators_mapped(creators: Seq<Seq<char>>, authors: Seq<Author>) -> bool {
    authors.len() == creators.len() && forall|i: int|
        0 <= i < creators.len() ==> (#[trigger] authors[i]).name@ == creators[i]
            && authors[i].affiliation is None && authors[i].email is None
}

/// Maps an OAI-PMH GetRecord response to the common paper shape.
///
/// The identifier must have the `<year>/<number>` shape. A protocol error
/// element is surfaced as an API error with its code and message, before any
/// record is read; a missing record, and a missing or non-RFC 3339 first
/// date, are API errors as well. The DOI field takes the first identifier
/// value that is a full ePrint URL, and the PDF link is derived from the
/// identifier, not read from the response.
pub fn response_to_paper(resp: &OaiPmhResponse, identifier: &str) -> (r: Result<
    Paper,
    LearnerError,
>)
    ensures
        !one_slash(identifier@) ==> (r matches Err(e) && e is InvalidIdentifier),
        one_slash(identifier@) ==> (resp.error matches Some(err) ==> (r matches Err(e) && e matches
            LearnerError::ApiError(m) && m@ == "OAI-PMH error: "@ + err.code@ + " - "@
            + err.message@)),
        (one_slash(identifier@) && resp.error is None && resp.record is None) ==> (r matches Err(e)
            && e matches LearnerError::ApiError(m) && m@ == "No record found"@),
        (one_slash(identifier@) && resp.error is None) ==> (resp.record matches Some(dc) ==> (if (
        dc.dates@.len() == 0 || rfc3339_utc_parts(dc.dates@[0]@).len() != 6) {
            r matches Err(e) && e matches LearnerError::ApiError(m) && m@
                == "Invalid date format"@
        } else {
            r matches Ok(p) && {
                &&& p.title@ == dc.title@
                &&& creators_mapped(dc.creators.deep_view(), p.authors@)
                &&& p.abstract_text@ == dc.description@
                &&& ts_has_parts(p.publication_date, rfc3339_utc_parts(dc.dates@[0]@))
                &&& p.source == Source::IACR
                &&& p.source_identifier@ == identifier@
                &&& (p.pdf_url matches Some(u) && u@ == eprint_url_prefix() + identifier@
                    + ".pdf"@)
                &&& (match first_with_prefix(dc.identifiers.deep_view(), eprint_url_prefix()) {
                    Some(d) => p.doi matches Some(pd) && pd@ == d,
                    None => p.doi is None,
                })
            }
        })),
{
    let idv = chars_of(identifier);
    if !exactly_one_slash(&idv) {
        return Err(LearnerError::InvalidIdentifier);
    }
    if let Some(err) = &resp.error {
        let mut m = String::from_str("OAI-PMH error: ");
        m.append(err.code.as_str());
        m.append(" - ");
        m.append(err.message.as_str());
        return Err(LearnerError::ApiError(m));
    }
    let dc = match &resp.record {
        Some(dc) => dc,
        None => {
            return Err(LearnerError::ApiError(String::from_str("No record found")));
        },
    };
    if dc.dates.len() == 0 {
        return Err(LearnerError::ApiError(String::from_str("Invalid date format")));
    }
    let publication_date = match parse_rfc3339_utc(dc.dates[0].as_str()) {
        Some(t) => t,
        None => {
            return Err(LearnerError::ApiError(String::from_str("Invalid date format")));
        },
    };

    let doi = find_eprint_identifier(&dc.identifiers);

    let mut authors: Vec<Author> = Vec::new();
    let mut i: usize = 0;
    while i < dc.creators.len()
        invariant
            i <= dc.creators@.len(),
            authors@.len() == i,
            forall|k: int|
                0 <= k < i ==> (#[trigger] authors@[k]).name@ == dc.creators.deep_view()[k]
                    && authors@[k].affiliation is None && authors@[k].email is None,
        decreases dc.creators@.len() - i,
    {
        authors.push(Author { name: dc.creators[i].clone(), affiliation: None, email: None });
        i += 1;
    }

    let mut pdf_url = String::from_str("https://eprint.iacr.org/");
    pdf_url.append(identifier);
    pdf_url.append(".pdf");

    Ok(
        Paper {
            title: dc.title.clone(),
            authors,
            abstract_text: dc.description.clone(),
            publication_date,
            source: Source::IACR,
            source_identifier: identifier.to_owned(),
            pdf_url: Some(pdf_url),
            doi,
        },
    )
}

/// The OAI-PMH GetRecord query URL for an identifier of the
/// `<year>/<number>` shape; an identifier of any other shape is rejected
/// before any request is made.
pub fn iacr_query_url(identifier: &str) -> (r: Result<String, LearnerError>)
    ensures
        one_slash(identifier@) ==> (r matches Ok(u) && u@
            == "https://eprint.iacr.org/oai?verb=GetRecord&identifier=oai:eprint.iacr.org:"@
            + identifier@ + "&metadataPrefix=oai_dc"@),
        !one_slash(identifier@) ==> (r matches Err(e) && e is InvalidIdentifier),
{
    let idv = chars_of(identifier);
    if !exactly_one_slash(&idv) {
        return Err(LearnerError::InvalidIdentifier);
    }
    let mut s = String::from_str(
        "https://eprint.iacr.org/oai?verb=GetRecord&identifier=oai:eprint.iacr.org:",
    );
    s.append(identifier);
    s.append("&metadataPrefix=oai_dc");
    Ok(s)
}

} // verus!
