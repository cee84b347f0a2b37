//! An in-memory model of the paper store's save/lookup/search interface.
//!
//! The store's contract is what the rest of the system relies on: the pair
//! (source, source_identifier) is unique, saving a duplicate pair is rejected
//! with a distinguishable error, lookup finds exactly the stored record, and
//! search walks titles and abstracts. The SQL persistence that implements
//! this contract on disk lives outside the library.

use vstd::prelude::*;

use crate::errors::LearnerError;
use crate::paper::{copy_opt_string, paper_matches, Paper, Source};
use crate::text::{contains_seq, contains_vec, lower_chars, lower_seq};

verus! {

/// The key that identifies paper `p` in the store is `(source, id)`.
pub open spec fn has_key(papers: Seq<Paper>, source: Source, id: Seq<char>) -> bool {
    exists|i: int|
        0 <= i < papers.len() && (#[trigger] papers[i]).source == source
            && papers[i].source_identifier@ == id
}

/// `b` is the search projection of the stored record `a`: every persisted
/// field carried over, with the author list left empty, as the store's
/// search delivers its results.
pub open spec fn search_hit_matches(a: Paper, b: Paper) -> bool {
    b.title@ == a.title@ && b.authors@.len() == 0 && b.abstract_text@ == a.abstract_text@
        && b.publication_date == a.publication_date && b.source == a.source
        && b.source_identifier@ == a.source_identifier@ && b.pdf_url.deep_view()
        == a.pdf_url.deep_view() && b.doi.deep_view() == a.doi.deep_view()
}

/// The search projection of a stored record: its persisted fields with no
/// authors.
fn search_result_of(p: &Paper) -> (r: Paper)
    ensures
        search_hit_matches(*p, r),
{
    Paper {
        title: p.title.clone(),
        authors: Vec::new(),
        abstract_text: p.abstract_text.clone(),
        publication_date: p.publication_date,
        source: p.source,
        source_identifier: p.source_identifier.clone(),
        pdf_url: copy_opt_string(&p.pdf_url),
        doi: copy_opt_string(&p.doi),
    }
}

/// `q` matches `p` when the lowercased query occurs in the lowercased title
/// or abstract.
pub open spec fn query_matches(p: Paper, q: Seq<char>) -> bool {
    contains_seq(lower_seq(p.title@), lower_seq(q)) || contains_seq(
        lower_seq(p.abstract_text@),
        lower_seq(q),
    )
}

/// The paper store: a table of papers with unique (source, identifier) keys,
/// in insertion order; the id of the paper at position `i` is `i + 1`.
pub struct Database {
    papers: Vec<Paper>,
}

impl Database {
    /// The stored papers, in insertion order.
    pub closed spec fn papers(self) -> Seq<Paper> {
        self.papers@
    }

    /// No two stored papers share a (source, identifier) key.
    pub closed spec fn wf(self) -> bool {
        forall|i: int, j: int|
            0 <= i < j < self.papers@.len() ==> !((#[trigger] self.papers@[i]).source == (
            #[trigger] self.papers@[j]).source && self.papers@[i].source_identifier@
                == self.papers@[j].source_identifier@)
    }

    /// An empty store.
    pub fn new() -> (r: Database)
        ensures
            r.papers() == Seq::<Paper>::empty(),
            r.wf(),
    {
        Database { papers: Vec::new() }
    }

    /// Saves a paper and returns its positive id.
    ///
    /// A paper whose (source, identifier) pair is already stored is rejected
    /// with [`LearnerError::Duplicate`], and the store is left unchanged;
    /// otherwise the paper is appended and its id — its one-based position —
    /// is returned.
    pub fn save_paper(&mut self, paper: &Paper) -> (r: Result<i64, LearnerError>)
        requires
            old(self).wf(),
            old(self).papers().len() < 0x7fff_ffff_ffff_ffff,
        ensures
            final(self).wf(),
            has_key(old(self).papers(), paper.source, paper.source_identifier@) ==> (r matches
                Err(e) && e is Duplicate && final(self).papers() == old(self).papers()),
            !has_key(old(self).papers(), paper.source, paper.source_identifier@) ==> (r matches
                Ok(id) && id > 0 && id == old(self).papers().len() + 1
                && final(self).papers().len() == old(self).papers().len() + 1
                && paper_matches(*paper, final(self).papers().last()) && (forall|i: int|
                0 <= i < old(self).papers().len() ==> final(self).papers()[i] == old(
                    self,
                ).papers()[i])),
    {
        let n = self.papers.len();
        let mut i: usize = 0;
        while i < n
            invariant
                i <= n,
                n == self.papers@.len(),
                *self == *old(self),
                old(self).wf(),
                forall|k: int|
                    0 <= k < i ==> !((#[trigger] self.papers@[k]).source == paper.source
                        && self.papers@[k].source_identifier@ == paper.source_identifier@),
            decreases n - i,
        {
            let stored = &self.papers[i];
            if stored.source == paper.source && stored.source_identifier
                == paper.source_identifier {
                return Err(LearnerError::Duplicate);
            }
            i += 1;
        }
        let id = (n as i64) + 1;
        self.papers.push(paper.duplicate());
        Ok(id)
    }

    /// Looks a paper up by its source and identifier; the result is a copy of
    /// the stored record when the pair is present, and `None` when it is not.
    pub fn get_paper_by_source_id(&self, source: &Source, source_id: &str) -> (r: Result<
        Option<Paper>,
        LearnerError,
    >)
        ensures
            r matches Ok(o) && (match o {
                Some(p) => exists|i: int|
                    0 <= i < self.papers().len() && (#[trigger] self.papers()[i]).source == *source
                        && self.papers()[i].source_identifier@ == source_id@ && paper_matches(
                        self.papers()[i],
                        p,
                    ),
                None => !has_key(self.papers(), *source, source_id@),
            }),
    {
        let n = self.papers.len();
        let mut i: usize = 0;
        while i < n
            invariant
                i <= n,
                n == self.papers@.len(),
                forall|k: int|
                    0 <= k < i ==> !((#[trigger] self.papers@[k]).source == *source
                        && self.papers@[k].source_identifier@ == source_id@),
        decreases n - i,
        {
            let stored = &self.papers[i];
            if stored.source == *source && crate::text::str_eq(
                stored.source_identifier.as_str(),
                source_id,
            ) {
                proof {
                    assert((#[trigger] self.papers()[i as int]).source == *source
                        && self.papers()[i as int].source_identifier@ == source_id@);
                }
                return Ok(Some(stored.duplicate()));
            }
            i += 1;
        }
        Ok(None)
    }

    /// Full-text search: returns the stored papers whose lowercased title or
    /// abstract contains the lowercased query, in insertion order; each
    /// result carries the paper's persisted fields with an empty author
    /// list, which is what the store's search delivers.
    ///
    /// (Relevance ranking is the backing store's concern and is not part of
    /// this model.)
    pub fn search_papers(&self, query: &str) -> (r: Result<Vec<Paper>, LearnerError>)
        ensures
            r matches Ok(v) && {
                let hits = self.papers().filter(|p: Paper| query_matches(p, query@));
                v@.len() == hits.len() && (forall|i: int|
                    0 <= i < hits.len() ==> search_hit_matches(hits[i], #[trigger] v@[i]))
            },
    {
        let ghost pred = |p: Paper| query_matches(p, query@);
        let q = lower_chars(query);
        let n = self.papers.len();
        let mut out: Vec<Paper> = Vec::new();
        let mut i: usize = 0;
        proof {
            assert(self.papers@.take(0) =~= Seq::<Paper>::empty());
            reveal(Seq::filter);
        }
        while i < n
            invariant
                i <= n,
                n == self.papers@.len(),
                q@ == lower_seq(query@),
                out@.len() == self.papers@.take(i as int).filter(pred).len(),
                forall|k: int|
                    0 <= k < out@.len() ==> search_hit_matches(
                        self.papers@.take(i as int).filter(pred)[k],
                        #[trigger] out@[k],
                    ),
                pred == (|p: Paper| query_matches(p, query@)),
            decreases n - i,
        {
            let stored = &self.papers[i];
            let title_low = lower_chars(stored.title.as_str());
            let abs_low = lower_chars(stored.abstract_text.as_str());
            let hit = contains_vec(&title_low, &q) || contains_vec(&abs_low, &q);
            proof {
                reveal(Seq::filter);
                assert(self.papers@.take(i + 1 as int).drop_last() =~= self.papers@.take(i as int));
                assert(self.papers@.take(i + 1 as int).last() == self.papers@[i as int]);
                assert(hit == pred(self.papers@[i as int]));
            }
            if hit {
                out.push(search_result_of(stored));
            }
            i += 1;
        }
        proof {
            assert(self.papers@.take(n as int) =~= self.papers@);
        }
        Ok(out)
    }
}

impl Paper {
    /// Saves this paper into the store; same contract as
    /// [`Database::save_paper`].
    pub fn save(&self, db: &mut Database) -> (r: Result<i64, LearnerError>)
        requires
            old(db).wf(),
            old(db).papers().len() < 0x7fff_ffff_ffff_ffff,
        ensures
            final(db).wf(),
            has_key(old(db).papers(), self.source, self.source_identifier@) ==> (r matches Err(e)
                && e is Duplicate && final(db).papers() == old(db).papers()),
            !has_key(old(db).papers(), self.source, self.source_identifier@) ==> (r matches Ok(id)
                && id > 0 && id == old(db).papers().len() + 1 && final(db).papers().len() == old(
                db,
            ).papers().len() + 1 && paper_matches(*self, final(db).papers().last())),
    {
        db.save_paper(self)
    }
}

/// After a successful save of paper `p`, any paper `q` carrying the same
/// (source, identifier) key finds that key present, so a second save of the
/// pair is rejected as a duplicate by `save_paper`'s contract.
pub proof fn lemma_second_save_is_duplicate(
    before: Seq<Paper>,
    after: Seq<Paper>,
    p: Paper,
    q: Paper,
)
    requires
        after.len() == before.len() + 1,
        paper_matches(p, after.last()),
        q.source == p.source,
        q.source_identifier@ == p.source_identifier@,
    ensures
        has_key(after, q.source, q.source_identifier@),
{
    assert(after[after.len() - 1].source == q.source && after[after.len() - 1].source_identifier@
        == q.source_identifier@);
}

} // verus!
