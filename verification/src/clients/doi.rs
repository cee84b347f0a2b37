//! Mapping of Crossref work records to the common paper shape: title and
//! author selection, the print → online → created date fallback, and the
//! fields that are passed through as they came.
//!
//! The network request and the JSON decoding around it happen outside the
//! library; this module receives the decoded work record as plain values.

use vstd::prelude::*;
use vstd::string::StringExecFns;

use crate::datetime::Timestamp;
use crate::errors::LearnerError;
use crate::paper::{Author, Paper, Source};

verus! {

/// A "date-parts" date of a Crossref work: a list of component lists, the
/// first of which holds year, month and day, later components optional.
pub struct CrossrefDate {
    /// The date's component lists.
    pub date_parts: Vec<Vec<i32>>,
}

/// One listed affiliation of a Crossref author.
pub struct CrossrefAffiliation {
    /// The institution's name, if given.
    pub name: Option<String>,
}

/// One author entry of a Crossref work.
pub struct CrossrefAuthor {
    /// The author's given name, if present.
    pub given: Option<String>,
    /// The author's family name, if present.
    pub family: Option<String>,
    /// The author's affiliations, possibly empty.
    pub affiliation: Vec<CrossrefAffiliation>,
}

/// The fields of a Crossref work record that the mapping reads.
pub struct CrossrefWork {
    /// The work's titles; the first is used, and an empty list is an error.
    pub title: Vec<String>,
    /// The work's authors.
    pub author: Vec<CrossrefAuthor>,
    /// The work's abstract, if present.
    pub abstract_text: Option<String>,
    /// The print publication date, if present.
    pub published_print: Option<CrossrefDate>,
    /// The online publication date, if present.
    pub published_online: Option<CrossrefDate>,
    /// The work's landing URL; passed through as the PDF link even though it
    /// need not point at a PDF.
    pub url: Option<String>,
    /// The work's own DOI, as the response carries it.
    pub doi: String,
    /// The record-creation date in Crossref's system, if present.
    pub created: Option<CrossrefDate>,
}

/// The timestamp a "date-parts" date denotes: year from the first component,
/// month and day defaulting to 1, at midnight; `None` when there are no
/// components or the date is not a valid calendar date.
pub open spec fn parse_date_spec(d: CrossrefDate) -> Option<Timestamp> {
    let parts = d.date_parts.deep_view();
    if parts.len() == 0 || parts[0].len() == 0 {
        None
    } else {
        let p0 = parts[0];
        let y = p0[0] as int;
        let m: int = if p0.len() >= 2 {
            p0[1] as int
        } else {
            1
        };
        let dd: int = if p0.len() >= 3 {
            p0[2] as int
        } else {
            1
        };
        if crate::datetime::valid_ymd(y, m, dd) {
            Some(
                Timestamp {
                    year: p0[0],
                    month: m as u8,
                    day: dd as u8,
                    hour: 0,
                    minute: 0,
                    second: 0,
                },
            )
        } else {
            None
        }
    }
}

/// The publication date a work resolves to, with the fallback precedence
/// print date, then online date, then record-creation date; a candidate is
/// skipped only when absent or unparseable, and `None` means none resolved.
pub open spec fn resolve_date_spec(w: CrossrefWork) -> Option<Timestamp> {
    let from_print = match w.published_print {
        Some(d) => parse_date_spec(d),
        None => None,
    };
    let from_online = match w.published_online {
        Some(d) => parse_date_spec(d),
        None => None,
    };
    let from_created = match w.created {
        Some(d) => parse_date_spec(d),
        None => None,
    };
    if from_print is Some {
        from_print
    } else if from_online is Some {
        from_online
    } else {
        from_created
    }
}

/// The display name built from an author's given and family names: both
/// joined by a space, else whichever is present, else "Unknown".
pub open spec fn author_name_spec(given: Option<Seq<char>>, family: Option<Seq<char>>) -> Seq<
    char,
> {
    match (given, family) {
        (Some(g), Some(f)) => g + " "@ + f,
        (Some(g), None) => g,
        (None, Some(f)) => f,
        (None, None) => "Unknown"@,
    }
}

/// `out` is the common author record built from the Crossref entry `a`: the
/// display name from the name parts, the first listed affiliation's name if
/// any, and no email.
pub open spec fn author_from_crossref(a: CrossrefAuthor, out: Author) -> bool {
    out.name@ == author_name_spec(a.given.deep_view(), a.family.deep_view()) && out.affiliation.deep_view()
        == (if a.affiliation@.len() > 0 {
        a.affiliation@[0].name.deep_view()
    } else {
        None::<Seq<char>>
    }) && out.email is None
}

/// Parses a "date-parts" date into a timestamp at midnight, with month and
/// day defaulting to 1; `None` when components are missing or invalid.
pub fn parse_date(d: &CrossrefDate) -> (r: Option<Timestamp>)
    ensures
        r == parse_date_spec(*d),
{
    if d.date_parts.len() == 0 {
        return None;
    }
    let p0 = &d.date_parts[0];
    if p0.len() == 0 {
        return None;
    }
    let y = p0[0];
    let m: i32 = if p0.len() >= 2 {
        p0[1]
    } else {
        1
    };
    let dd: i32 = if p0.len() >= 3 {
        p0[2]
    } else {
        1
    };
    Timestamp::from_ymd(y, m, dd)
}

/// Builds an author's display name from the optional given and family names.
pub fn author_name(given: &Option<String>, family: &Option<String>) -> (r: String)
    ensures
        r@ == author_name_spec(given.deep_view(), family.deep_view()),
{
    match (given, family) {
        (Some(g), Some(f)) => {
            let mut s = g.clone();
            s.append(" ");
            s.append(f.as_str());
            s
        },
        (Some(g), None) => g.clone(),
        (None, Some(f)) => f.clone(),
        (None, None) => String::from_str("Unknown"),
    }
}

/// Copies an optional string.
fn clone_opt_string(o: &Option<String>) -> (r: Option<String>)
    ensures
        r.deep_view() == o.deep_view(),
{
    match o {
        Some(s) => Some(s.clone()),
        None => None,
    }
}

/// Maps a Crossref work record to the common paper shape.
///
/// Succeeds exactly when the work has at least one title and one of its three
/// date candidates resolves; a missing title and an unresolvable date are
/// each reported as an API error, never defaulted.
pub fn work_to_paper(work: CrossrefWork, doi: &str) -> (r: Result<Paper, LearnerError>)
    ensures
        r is Ok <==> (work.title@.len() > 0 && resolve_date_spec(work) is Some),
        r matches Ok(p) ==> {
            &&& p.title@ == work.title@[0]@
            &&& p.authors@.len() == work.author@.len()
            &&& (forall|i: int|
                0 <= i < work.author@.len() ==> author_from_crossref(
                    work.author@[i],
                    #[trigger] p.authors@[i],
                ))
            &&& p.abstract_text@ == (match work.abstract_text {
                Some(a) => a@,
                None => Seq::<char>::empty(),
            })
            &&& Some(p.publication_date) == resolve_date_spec(work)
            &&& p.source == Source::DOI
            &&& p.source_identifier@ == doi@
            &&& p.pdf_url.deep_view() == work.url.deep_view()
            &&& (p.doi matches Some(d) && d@ == work.doi@)
        },
        work.title@.len() == 0 ==> (r matches Err(e) && e matches LearnerError::ApiError(m)
            && m@ == "No title found"@),
        work.title@.len() > 0 && resolve_date_spec(work) is None ==> (r matches Err(e) && e matches
            LearnerError::ApiError(m) && m@ == "No valid publication date found"@),
{
    if work.title.len() == 0 {
        return Err(LearnerError::ApiError(String::from_str("No title found")));
    }
    let title = work.title[0].clone();

    let publication_date_opt = match &work.published_print {
        Some(d) => parse_date(d),
        None => None,
    };
    let publication_date_opt = match publication_date_opt {
        Some(t) => Some(t),
        None => match &work.published_online {
            Some(d) => parse_date(d),
            None => None,
        },
    };
    let publication_date_opt = match publication_date_opt {
        Some(t) => Some(t),
        None => match &work.created {
            Some(d) => parse_date(d),
            None => None,
        },
    };
    let publication_date = match publication_date_opt {
        Some(t) => t,
        None => {
            return Err(
                LearnerError::ApiError(String::from_str("No valid publication date found")),
            );
        },
    };

    let mut authors: Vec<Author> = Vec::new();
    let mut i: usize = 0;
    while i < work.author.len()
        invariant
            i <= work.author@.len(),
            authors@.len() == i,
            forall|k: int|
                0 <= k < i ==> author_from_crossref(work.author@[k], #[trigger] authors@[k]),
        decreases work.author@.len() - i,
    {
        let a = &work.author[i];
        let name = author_name(&a.given, &a.family);
        let affiliation: Option<String> = if a.affiliation.len() > 0 {
            clone_opt_string(&a.affiliation[0].name)
        } else {
            None
        };
        authors.push(Author { name, affiliation, email: None });
        i += 1;
    }

    let abstract_text = match &work.abstract_text {
        Some(a) => a.clone(),
        None => String::new(),
    };

    Ok(
        Paper {
            title,
            authors,
            abstract_text,
            publication_date,
            source: Source::DOI,
            source_identifier: doi.to_owned(),
            pdf_url: clone_opt_string(&work.url),
            doi: Some(work.doi.clone()),
        },
    )
}

/// The Crossref query URL for a DOI.
pub fn crossref_query_url(doi: &str) -> (r: String)
    ensures
        r@ == "https://api.crossref.org/works/"@ + doi@,
{
    let mut s = String::from_str("https://api.crossref.org/works/");
    s.append(doi);
    s
}

/// Date fallback: without a print date a parseable online date decides;
/// without either, a parseable record-creation date decides; with no
/// candidate present at all, no date resolves.
pub proof fn lemma_crossref_date_fallback(w: CrossrefWork)
    ensures
        w.published_print is None ==> (w.published_online matches Some(d) ==> (parse_date_spec(d)
            is Some ==> resolve_date_spec(w) == parse_date_spec(d))),
        (w.published_print is None && w.published_online is None) ==> (w.created matches Some(c)
            ==> (parse_date_spec(c) is Some ==> resolve_date_spec(w) == parse_date_spec(c))),
        (w.published_print is None && w.published_online is None && w.created is None)
            ==> resolve_date_spec(w) is None,
{
}

} // verus!
