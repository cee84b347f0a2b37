//! Title formatting for filenames: lowercase the text, join its words with
//! underscores, and truncate at a word boundary to a length limit.

use vstd::prelude::*;

use crate::text::{chars_of, string_from_chars};

verus! {

/// `c` is a whitespace character (the Unicode `White_Space` set).
pub open spec fn is_space_char(c: char) -> bool {
    c == ' ' || c == '\t' || c == '\n' || c == '\r' || c as u32 == 0x0b || c as u32 == 0x0c
        || c as u32 == 0x85 || c as u32 == 0xa0 || c as u32 == 0x1680 || (0x2000 <= c as u32 && c
        as u32 <= 0x200a) || c as u32 == 0x2028 || c as u32 == 0x2029 || c as u32 == 0x202f || c
        as u32 == 0x205f || c as u32 == 0x3000
}

/// Whether `c` is a whitespace character.
pub fn space_exec(c: char) -> (r: bool)
    ensures
        r == is_space_char(c),
{
    let u = c as u32;
    u == 32 || u == 9 || u == 10 || u == 13 || u == 0x0b || u == 0x0c || u == 0x85 || u == 0xa0
        || u == 0x1680 || (0x2000 <= u && u <= 0x200a) || u == 0x2028 || u == 0x2029 || u == 0x202f
        || u == 0x205f || u == 0x3000
}

/// The full (Unicode) lowercase of a string, as `str::to_lowercase` computes
/// it: a function of the characters alone.
pub uninterp spec fn lower_of(s: Seq<char>) -> Seq<char>;

/// Relies on `str::to_lowercase`: the result depends on the characters alone.
#[verifier::external_body]
pub(crate) fn lowercase(s: &str) -> (r: String)
    ensures
        r@ == lower_of(s@),
{
    s.to_lowercase()
}

/// The words of `s`: its maximal runs of non-whitespace characters, in order.
pub open spec fn words_of(s: Seq<char>) -> Seq<Seq<char>>
    decreases s.len(),
    via words_of_decreases
{
    if s.len() == 0 {
        Seq::empty()
    } else if is_space_char(s[0]) {
        words_of(s.skip(1))
    } else {
        let w = word_at(s);
        seq![w] + words_of(s.skip(w.len() as int))
    }
}

#[via_fn]
proof fn words_of_decreases(s: Seq<char>) {
    lemma_word_at_len(s);
}

/// The leading word is never empty at a non-space start and never longer
/// than the text.
pub proof fn lemma_word_at_len(s: Seq<char>)
    ensures
        word_at(s).len() <= s.len(),
        (s.len() > 0 && !is_space_char(s[0])) ==> word_at(s).len() >= 1,
    decreases s.len(),
{
    if s.len() > 0 && !is_space_char(s[0]) {
        lemma_word_at_len(s.skip(1));
    }
}

/// The non-whitespace run at the start of `s`.
pub open spec fn word_at(s: Seq<char>) -> Seq<char>
    decreases s.len(),
{
    if s.len() == 0 || is_space_char(s[0]) {
        Seq::empty()
    } else {
        seq![s[0]] + word_at(s.skip(1))
    }
}

/// The words joined by single underscores.
pub open spec fn join_underscore(ws: Seq<Seq<char>>) -> Seq<char>
    decreases ws.len(),
{
    if ws.len() == 0 {
        Seq::empty()
    } else if ws.len() == 1 {
        ws[0]
    } else {
        ws[0] + seq!['_'] + join_underscore(ws.skip(1))
    }
}

/// The UTF-8 encoding length of one character.
pub open spec fn utf8_len_char(c: char) -> nat {
    if (c as u32) < 0x80 {
        1
    } else if (c as u32) < 0x800 {
        2
    } else if (c as u32) < 0x10000 {
        3
    } else {
        4
    }
}

/// The UTF-8 encoding length of a string; lengths and limits below are byte
/// lengths, as the formatting measures them.
pub open spec fn utf8_len(s: Seq<char>) -> nat
    decreases s.len(),
{
    if s.len() == 0 {
        0
    } else {
        utf8_len_char(s[0]) + utf8_len(s.skip(1))
    }
}

/// The longest prefix of the joined words that fits in `max` bytes without
/// cutting a word: words are added left to right, each after its separating
/// underscore, and the first word or underscore-plus-word that would push the
/// length past `max` stops the build.
pub open spec fn truncate_words(ws: Seq<Seq<char>>, max: int) -> Seq<char>
    decreases ws.len(),
{
    if ws.len() == 0 {
        Seq::empty()
    } else if utf8_len(ws[0]) > max {
        Seq::empty()
    } else {
        ws[0] + truncate_rest(ws.skip(1), max - utf8_len(ws[0]))
    }
}

/// Adds each further word after an underscore while the remaining byte budget
/// allows; the first word that does not fit stops the build.
pub open spec fn truncate_rest(ws: Seq<Seq<char>>, budget: int) -> Seq<char>
    decreases ws.len(),
{
    if ws.len() == 0 {
        Seq::empty()
    } else if utf8_len(ws[0]) + 1 > budget {
        Seq::empty()
    } else {
        seq!['_'] + ws[0] + truncate_rest(ws.skip(1), budget - utf8_len(ws[0]) - 1)
    }
}

/// What formatting already-lowercased text does: its words joined by
/// underscores, whole when its byte length fits in `max`, else truncated at
/// a word boundary.
pub open spec fn arrange_title_spec(lowered: Seq<char>, max: int) -> Seq<char> {
    let ws = words_of(lowered);
    let joined = join_underscore(ws);
    if utf8_len(joined) <= max {
        joined
    } else {
        truncate_words(ws, max)
    }
}

/// What `format_title` returns: the lowercased title, arranged.
pub open spec fn format_title_spec(title: Seq<char>, max: int) -> Seq<char> {
    arrange_title_spec(lower_of(title), max)
}


/// The leading word is exactly the first `k` characters when those are
/// non-whitespace and the text ends or a whitespace character follows.
pub proof fn lemma_word_at_take(s: Seq<char>, k: int)
    requires
        0 <= k <= s.len(),
        forall|i: int| 0 <= i < k ==> !is_space_char(s[i]),
        k == s.len() || is_space_char(s[k]),
    ensures
        word_at(s) == s.take(k),
    decreases k,
{
    if k == 0 {
        assert(s.take(0) =~= word_at(s));
    } else {
        lemma_word_at_take(s.skip(1), k - 1);
        assert(word_at(s) == seq![s[0]] + s.skip(1).take(k - 1));
        assert(seq![s[0]] + s.skip(1).take(k - 1) =~= s.take(k));
    }
}

/// Appending one character adds its encoding length.
pub proof fn lemma_utf8_len_push(s: Seq<char>, c: char)
    ensures
        utf8_len(s.push(c)) == utf8_len(s) + utf8_len_char(c),
    decreases s.len(),
{
    if s.len() == 0 {
        assert(s.push(c)[0] == c);
        assert(s.push(c).skip(1) =~= Seq::<char>::empty());
        assert(utf8_len(Seq::<char>::empty()) == 0);
        assert(utf8_len(s.push(c)) == utf8_len_char(c) + utf8_len(Seq::<char>::empty()));
        assert(utf8_len(s) == 0);
    } else {
        assert(s.push(c)[0] == s[0]);
        assert(s.push(c).skip(1) =~= s.skip(1).push(c));
        lemma_utf8_len_push(s.skip(1), c);
        assert(utf8_len(s.push(c)) == utf8_len_char(s[0]) + utf8_len(s.skip(1).push(c)));
        assert(utf8_len(s) == utf8_len_char(s[0]) + utf8_len(s.skip(1)));
    }
}

/// Appending one word extends the joined text by an underscore and the word
/// (by the word alone when it is the first).
pub proof fn lemma_join_push(ws: Seq<Seq<char>>, w: Seq<char>)
    ensures
        ws.len() == 0 ==> join_underscore(ws.push(w)) == w,
        ws.len() > 0 ==> join_underscore(ws.push(w)) == join_underscore(ws) + seq!['_'] + w,
    decreases ws.len(),
{
    if ws.len() == 0 {
        assert(ws.push(w)[0] == w);
    } else if ws.len() == 1 {
        assert(ws.push(w)[0] == ws[0]);
        assert(ws.push(w).skip(1) =~= seq![w]);
        assert(join_underscore(seq![w]) == w);
        assert(join_underscore(ws) == ws[0]);
    } else {
        assert(ws.push(w)[0] == ws[0]);
        assert(ws.push(w).skip(1) =~= ws.skip(1).push(w));
        lemma_join_push(ws.skip(1), w);
        assert(ws[0] + seq!['_'] + (join_underscore(ws.skip(1)) + seq!['_'] + w) =~= (ws[0]
            + seq!['_'] + join_underscore(ws.skip(1))) + seq!['_'] + w);
    }
}

/// The encoding length of one character.
pub fn char_utf8_len(c: char) -> (r: u8)
    ensures
        r as nat == utf8_len_char(c),
{
    let u = c as u32;
    if u < 0x80 {
        1
    } else if u < 0x800 {
        2
    } else if u < 0x10000 {
        3
    } else {
        4
    }
}

/// The UTF-8 byte length of the characters of `v`.
pub fn vec_utf8_len(v: &Vec<char>) -> (r: u128)
    ensures
        r as nat == utf8_len(v@),
        r <= 4 * v@.len(),
{
    let n = v.len();
    let mut sum: u128 = 0;
    let mut i: usize = 0;
    proof {
        assert(v@.take(0) =~= Seq::<char>::empty());
    }
    while i < n
        invariant
            i <= n,
            n == v@.len(),
            sum as nat == utf8_len(v@.take(i as int)),
            sum <= 4 * i,
        decreases n - i,
    {
        let c = char_utf8_len(v[i]);
        proof {
            lemma_utf8_len_push(v@.take(i as int), v@[i as int]);
            assert(v@.take(i as int).push(v@[i as int]) =~= v@.take(i + 1 as int));
        }
        sum = sum + (c as u128);
        i += 1;
    }
    proof {
        assert(v@.take(n as int) =~= v@);
    }
    sum
}

/// The first position at or after `a` that holds a whitespace character, or
/// the length of `v` when none follows.
fn first_space_from(v: &Vec<char>, a: usize) -> (e: usize)
    requires
        a <= v@.len(),
    ensures
        a <= e <= v@.len(),
        forall|i: int| a <= i < e ==> !is_space_char(v@[i]),
        e < v@.len() ==> is_space_char(v@[e as int]),
    decreases v@.len() - a,
{
    let n = v.len();
    let mut e: usize = a;
    while e < n
        invariant
            a <= e <= n,
            n == v@.len(),
            forall|i: int| a <= i < e ==> !is_space_char(v@[i]),
        decreases n - e,
    {
        if space_exec(v[e]) {
            return e;
        }
        e += 1;
    }
    e
}

/// Splits `v` into its maximal runs of non-whitespace characters.
fn split_words(v: &Vec<char>) -> (ws: Vec<Vec<char>>)
    ensures
        ws.deep_view() == words_of(v@),
{
    let n = v.len();
    let mut ws: Vec<Vec<char>> = Vec::new();
    let mut pos: usize = 0;
    proof {
        assert(v@.skip(0) =~= v@);
        assert(ws.deep_view() + words_of(v@) =~= words_of(v@));
    }
    while pos < n
        invariant
            pos <= n,
            n == v@.len(),
            words_of(v@) == ws.deep_view() + words_of(v@.skip(pos as int)),
        decreases n - pos,
    {
        let ghost tail = v@.skip(pos as int);
        if space_exec(v[pos]) {
            proof {
                assert(tail[0] == v@[pos as int]);
                assert(tail.skip(1) =~= v@.skip(pos + 1));
            }
            pos += 1;
        } else {
            let e = first_space_from(v, pos);
            let w = crate::text::subvec(v, pos, e);
            let ghost pre = ws.deep_view();
            proof {
                assert(tail[0] == v@[pos as int]);
                assert forall|i: int| 0 <= i < e - pos implies !is_space_char(tail[i]) by {
                    assert(tail[i] == v@[pos + i]);
                }
                if e < n {
                    assert(tail[e - pos] == v@[e as int]);
                }
                lemma_word_at_take(tail, e - pos);
                assert(tail.take(e - pos) =~= v@.subrange(pos as int, e as int));
                assert(word_at(tail).len() == e - pos);
                assert(tail.skip(e - pos) =~= v@.skip(e as int));
                assert(words_of(tail) == seq![w@] + words_of(v@.skip(e as int)));
            }
            ws.push(w);
            proof {
                assert(ws.deep_view() =~~= pre + seq![w@]);
                assert(pre + (seq![w@] + words_of(v@.skip(e as int))) =~= (pre + seq![w@])
                    + words_of(v@.skip(e as int)));
            }
            pos = e;
        }
    }
    proof {
        assert(v@.skip(n as int) =~= Seq::<char>::empty());
        assert(ws.deep_view() + words_of(v@.skip(n as int)) =~= ws.deep_view());
    }
    ws
}



/// Joins the words with single underscores.
fn join_words(ws: &Vec<Vec<char>>) -> (r: Vec<char>)
    ensures
        r@ == join_underscore(ws.deep_view()),
{
    let ghost dv = ws.deep_view();
    let n = ws.len();
    let mut r: Vec<char> = Vec::new();
    let mut i: usize = 0;
    proof {
        assert(dv.take(0) =~= Seq::<Seq<char>>::empty());
        assert(join_underscore(dv.take(0)) =~= Seq::<char>::empty());
    }
    while i < n
        invariant
            i <= n,
            n == dv.len(),
            dv == ws.deep_view(),
            r@ == join_underscore(dv.take(i as int)),
        decreases n - i,
    {
        proof {
            lemma_join_push(dv.take(i as int), dv[i as int]);
            assert(dv.take(i as int).push(dv[i as int]) =~= dv.take(i + 1 as int));
            assert(dv[i as int] =~= ws@[i as int]@);
        }
        if i > 0 {
            r.push('_');
        }
        crate::text::push_vec_chars(&mut r, &ws[i]);
        proof {
            if i > 0 {
                assert(r@ =~= join_underscore(dv.take(i as int)) + seq!['_'] + dv[i as int]);
            }
        }
        i += 1;
    }
    proof {
        assert(dv.take(n as int) =~= dv);
    }
    r
}

/// Builds the truncated form: words are added left to right while the byte
/// budget allows, each after its separating underscore.
fn build_truncated(ws: &Vec<Vec<char>>, max: usize) -> (r: Vec<char>)
    ensures
        r@ == truncate_words(ws.deep_view(), max as int),
{
    let ghost dv = ws.deep_view();
    let n = ws.len();
    if n == 0 {
        return Vec::new();
    }
    proof {
        assert(dv[0] =~= ws@[0]@);
    }
    let b0 = vec_utf8_len(&ws[0]);
    if b0 > max as u128 {
        return Vec::new();
    }
    let mut r: Vec<char> = Vec::new();
    crate::text::push_vec_chars(&mut r, &ws[0]);
    let mut used: u128 = b0;
    let mut i: usize = 1;
    proof {
        assert(r@ =~= Seq::<char>::empty() + dv[0]);
        assert(r@ =~= dv[0]);
    }
    while i < n
        invariant
            1 <= i <= n,
            n == dv.len(),
            dv == ws.deep_view(),
            used <= max as u128,
            truncate_words(dv, max as int) == r@ + truncate_rest(
                dv.skip(i as int),
                max - used as int,
            ),
        decreases n - i,
    {
        let ghost rest = dv.skip(i as int);
        proof {
            assert(dv[i as int] =~= ws@[i as int]@);
            assert(rest[0] == dv[i as int]);
            assert(rest.skip(1) =~= dv.skip(i + 1));
        }
        let wlen = ws[i].len();
        let bw = vec_utf8_len(&ws[i]);
        proof {
            assert(bw <= 4 * (wlen as u128));
        }
        if used + 1 + bw > max as u128 {
            proof {
                assert(truncate_rest(rest, max - used as int) =~= Seq::<char>::empty());
                assert(r@ + Seq::<char>::empty() =~= r@);
            }
            return r;
        }
        r.push('_');
        crate::text::push_vec_chars(&mut r, &ws[i]);
        proof {
            assert(truncate_rest(rest, max - used as int) == seq!['_'] + dv[i as int]
                + truncate_rest(dv.skip(i + 1), max - used as int - utf8_len(dv[i as int]) - 1));
        }
        used = used + 1 + bw;
        i += 1;
    }
    proof {
        assert(dv.skip(n as int) =~= Seq::<Seq<char>>::empty());
        assert(truncate_rest(dv.skip(n as int), max - used as int) =~= Seq::<char>::empty());
        assert(r@ + Seq::<char>::empty() =~= r@);
    }
    r
}

/// Arranges already-lowercased text: joins its words with underscores and
/// truncates at a word boundary so the result's byte length stays within
/// `max`.
pub fn arrange_title(lowered: &str, max: usize) -> (r: String)
    ensures
        r@ == arrange_title_spec(lowered@, max as int),
{
    let chars = crate::text::chars_of(lowered);
    let ws = split_words(&chars);
    let joined = join_words(&ws);
    let jb = vec_utf8_len(&joined);
    if jb <= max as u128 {
        string_from_chars(&joined)
    } else {
        let t = build_truncated(&ws, max);
        string_from_chars(&t)
    }
}

/// Formats a title for use as a filename: lowercases it, joins its words
/// with underscores, and truncates at a word boundary so the result's byte
/// length stays within `max_length` (50 when none is given).
pub fn format_title(title: &str, max_length: Option<usize>) -> (r: String)
    ensures
        r@ == format_title_spec(
            title@,
            match max_length {
                Some(m) => m as int,
                None => 50,
            },
        ),
{
    let max: usize = match max_length {
        Some(m) => m,
        None => 50,
    };
    let low = lowercase(title);
    arrange_title(low.as_str(), max)
}


} // verus!
