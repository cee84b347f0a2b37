//! Mapping of arXiv Atom feed entries to the common paper shape.
//!
//! The HTTP request and the XML decoding happen outside the library; this
//! module receives the decoded feed as plain values, takes its first entry,
//! and derives the PDF link from the abstract-page URL by a pure string
//! transform.

use vstd::prelude::*;
use vstd::string::StringExecFns;

use crate::datetime::Timestamp;
use crate::errors::LearnerError;
use crate::paper::{Author, Paper, Source};
use crate::text::{chars_of, push_str_chars, replace_all, replace_all_spec, string_from_chars};

verus! {

/// One entry of an arXiv Atom feed.
pub struct ArxivEntry {
    /// The paper's title.
    pub title: String,
    /// The authors' names, in feed order; arXiv carries names only.
    pub authors: Vec<String>,
    /// The paper's abstract.
    pub summary: String,
    /// The publication (or last-update) timestamp of the entry.
    pub published: Timestamp,
    /// The entry's abstract-page URL, such as
    /// "http://arxiv.org/abs/2301.07041v2".
    pub arxiv_url: String,
}

/// An arXiv Atom feed: the list of entries the query returned.
pub struct ArxivFeed {
    /// The feed's entries.
    pub entries: Vec<ArxivEntry>,
}

/// The PDF link derived from an abstract-page URL: "/abs/" replaced by
/// "/pdf/" and ".pdf" appended.
pub open spec fn arxiv_pdf_url_spec(abs_url: Seq<char>) -> Seq<char> {
    replace_all_spec(abs_url, "/abs/"@, "/pdf/"@) + ".pdf"@
}

/// Derives the PDF link from an entry's abstract-page URL.
pub fn arxiv_pdf_url(abs_url: &str) -> (r: String)
    ensures
        r@ == arxiv_pdf_url_spec(abs_url@),
{
    proof {
        reveal_strlit("/abs/");
    }
    let v = chars_of(abs_url);
    let mut w = replace_all(&v, "/abs/", "/pdf/");
    push_str_chars(&mut w, ".pdf");
    string_from_chars(&w)
}

/// Maps an arXiv feed to the common paper shape, using its first entry.
///
/// A feed with no entries means the identifier has no record: that is
/// reported as [`LearnerError::NotFound`], distinct from transport and parse
/// failures, and no paper is produced.
pub fn feed_to_paper(feed: &ArxivFeed, identifier: &str) -> (r: Result<Paper, LearnerError>)
    ensures
        r is Ok <==> feed.entries@.len() > 0,
        feed.entries@.len() == 0 ==> (r matches Err(e) && e is NotFound),
        r matches Ok(p) ==> {
            let entry = feed.entries@[0];
            &&& p.title@ == entry.title@
            &&& p.authors@.len() == entry.authors@.len()
            &&& (forall|i: int|
                0 <= i < entry.authors@.len() ==> (#[trigger] p.authors@[i]).name@
                    == entry.authors@[i]@ && p.authors@[i].affiliation is None
                    && p.authors@[i].email is None)
            &&& p.abstract_text@ == entry.summary@
            &&& p.publication_date == entry.published
            &&& p.source == Source::Arxiv
            &&& p.source_identifier@ == identifier@
            &&& (p.pdf_url matches Some(u) && u@ == arxiv_pdf_url_spec(entry.arxiv_url@))
            &&& p.doi is None
        },
{
    if feed.entries.len() == 0 {
        return Err(LearnerError::NotFound);
    }
    let entry = &feed.entries[0];

    let mut authors: Vec<Author> = Vec::new();
    let mut i: usize = 0;
    while i < entry.authors.len()
        invariant
            i <= entry.authors@.len(),
            authors@.len() == i,
            forall|k: int|
                0 <= k < i ==> (#[trigger] authors@[k]).name@ == entry.authors@[k]@
                    && authors@[k].affiliation is None && authors@[k].email is None,
        decreases entry.authors@.len() - i,
    {
        authors.push(
            Author { name: entry.authors[i].clone(), affiliation: None, email: None },
        );
        i += 1;
    }

    let pdf_url = arxiv_pdf_url(entry.arxiv_url.as_str());

    Ok(
        Paper {
            title: entry.title.clone(),
            authors,
            abstract_text: entry.summary.clone(),
            publication_date: entry.published,
            source: Source::Arxiv,
            source_identifier: identifier.to_owned(),
            pdf_url: Some(pdf_url),
            doi: None,
        },
    )
}

/// The arXiv query URL for an identifier: one result is requested for
/// exactly that identifier.
pub fn arxiv_query_url(identifier: &str) -> (r: String)
    ensures
        r@ == "http://export.arxiv.org/api/query?id_list="@ + identifier@ + "&max_results=1"@,
{
    let mut s = String::from_str("http://export.arxiv.org/api/query?id_list=");
    s.append(identifier);
    s.append("&max_results=1");
    s
}

} // verus!
