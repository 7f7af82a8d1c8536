//! The search box: turning what was typed into a full-text query, ranking the
//! hits, and one-line previews of clips.

use vstd::prelude::*;
use fuzzy_matcher::FuzzyMatcher;
use crate::store::ListRow;
use crate::text::{
    ascii_lowered, char_is_alphanumeric, char_is_whitespace, chars_of, eq_ignore_ascii_case,
    is_ascii_alnum, is_unicode_alphanumeric, is_white_space, push_char, string_from_range, trim_bounds, trim_spec,
    trim_string,
};

verus! {

/// Whether `char::is_alphanumeric` holds: ASCII letters and digits among
/// the ASCII characters, the Unicode `Alphabetic` or `Numeric` characters
/// beyond them.
pub open spec fn is_alphanumeric(c: char) -> bool {
    if (c as u32) < 128 {
        is_ascii_alnum(c)
    } else {
        is_unicode_alphanumeric(c)
    }
}

/// Characters kept in a full-text search term: letters, digits, `_`, `-`
/// and `.`.
pub open spec fn is_term_char(c: char) -> bool {
    is_alphanumeric(c) || c == '_' || c == '-' || c == '.'
}

/// Reading `s` left to right: the cleaned words completed so far (those with
/// at least one kept character), and the kept characters of the word being read.
pub open spec fn term_scan(s: Seq<char>) -> (Seq<Seq<char>>, Seq<char>)
    decreases s.len(),
{
    if s.len() == 0 {
        (Seq::empty(), Seq::empty())
    } else {
        let (done, cur) = term_scan(s.drop_last());
        let c = s.last();
        if is_white_space(c) {
            if cur.len() > 0 {
                (done.push(cur), Seq::empty())
            } else {
                (done, Seq::empty())
            }
        } else if is_term_char(c) {
            (done, cur.push(c))
        } else {
            (done, cur)
        }
    }
}

/// The search terms of `s`: each whitespace-separated word with every
/// character other than letters, digits, `_`, `-` and `.` removed; words left
/// empty are dropped.
pub open spec fn search_terms(s: Seq<char>) -> Seq<Seq<char>> {
    let (done, cur) = term_scan(s);
    if cur.len() > 0 {
        done.push(cur)
    } else {
        done
    }
}

/// The words of `words`, each followed by `*`, separated by single spaces.
pub open spec fn join_prefix_terms(words: Seq<Seq<char>>) -> Seq<char>
    decreases words.len(),
{
    if words.len() == 0 {
        Seq::empty()
    } else if words.len() == 1 {
        words[0].push('*')
    } else {
        join_prefix_terms(words.drop_last()).push(' ') + words.last().push('*')
    }
}

/// The full-text query for what was typed: every search term as a prefix
/// match (`term*`), or nothing when no term is left.
pub open spec fn fts_query_spec(raw: Seq<char>) -> Option<Seq<char>> {
    let terms = search_terms(raw);
    if terms.len() == 0 {
        None
    } else {
        Some(join_prefix_terms(terms))
    }
}

/// ASCII letters and digits, `_`, `-` and `.`.
pub open spec fn is_ascii_word_char(c: char) -> bool {
    ||| ('a' <= c && c <= 'z')
    ||| ('A' <= c && c <= 'Z')
    ||| ('0' <= c && c <= '9')
    ||| c == '_' || c == '-' || c == '.'
}

/// Among ASCII characters, a search term keeps exactly the letters, the
/// digits, `_`, `-` and `.`.
pub proof fn lemma_ascii_term_chars(c: char)
    requires
        (c as u32) < 128,
    ensures
        is_term_char(c) <==> is_ascii_word_char(c),
{
}

/// Reading a run of word characters extends the word being read by them.
proof fn lemma_scan_word(p: Seq<char>, w: Seq<char>)
    requires
        forall|i: int| 0 <= i < w.len() ==> is_ascii_word_char(#[trigger] w[i]),
    ensures
        term_scan(p + w) == (term_scan(p).0, term_scan(p).1 + w),
    decreases w.len(),
{
    if w.len() == 0 {
        assert(p + w =~= p);
        assert(term_scan(p).1 + w =~= term_scan(p).1);
    } else {
        let v = w.drop_last();
        lemma_scan_word(p, v);
        assert((p + w).drop_last() =~= p + v);
        let c = w.last();
        assert(is_ascii_word_char(w[w.len() - 1]));
        assert((term_scan(p).1 + v).push(c) =~= term_scan(p).1 + w);
    }
}

/// A single word of ASCII letters, digits, `_`, `-` and `.` becomes the
/// one prefix term `word*`; digits alone make a term.
pub proof fn lemma_word_is_one_prefix_term(w: Seq<char>)
    requires
        w.len() > 0,
        forall|i: int| 0 <= i < w.len() ==> is_ascii_word_char(#[trigger] w[i]),
    ensures
        fts_query_spec(w) == Some(w.push('*')),
{
    lemma_scan_word(Seq::empty(), w);
    assert(Seq::<char>::empty() + w =~= w);
    assert(Seq::<char>::empty() + w =~= w);
    assert(search_terms(w) =~= seq![w]);
}

/// Two such words separated by a space become two prefix terms, in order.
pub proof fn lemma_two_words_two_prefix_terms(w1: Seq<char>, w2: Seq<char>)
    requires
        w1.len() > 0,
        w2.len() > 0,
        forall|i: int| 0 <= i < w1.len() ==> is_ascii_word_char(#[trigger] w1[i]),
        forall|i: int| 0 <= i < w2.len() ==> is_ascii_word_char(#[trigger] w2[i]),
    ensures
        fts_query_spec(w1 + seq![' '] + w2) == Some(w1.push('*').push(' ') + w2.push('*')),
{
    let e = Seq::<char>::empty();
    lemma_scan_word(e, w1);
    assert(e + w1 =~= w1);
    let p = w1.push(' ');
    assert(p.drop_last() =~= w1);
    assert(term_scan(p) == (seq![w1], e));
    lemma_scan_word(p, w2);
    assert(p + w2 =~= w1 + seq![' '] + w2);
    assert(e + w2 =~= w2);
    let terms = seq![w1].push(w2);
    assert(search_terms(w1 + seq![' '] + w2) =~= terms);
    assert(terms.drop_last() =~= seq![w1]);
    assert(join_prefix_terms(seq![w1]) == w1.push('*'));
    assert(terms.last() == w2);
    assert(join_prefix_terms(terms) == join_prefix_terms(seq![w1]).push(' ') + w2.push('*'));
}

/// A search for such a word (other than `image`) is a full-text search for
/// `word*`, not the list of recent clips.
pub proof fn lemma_word_search_is_full_text(w: Seq<char>, p: SearchPlan)
    requires
        w.len() > 0,
        forall|i: int| 0 <= i < w.len() ==> is_ascii_word_char(#[trigger] w[i]),
        ascii_lowered(w) != ascii_lowered("image"@),
        search_plan_matches(w, p),
    ensures
        p matches SearchPlan::FullText(f) && f@ == w.push('*'),
{
    assert(is_ascii_word_char(w[0]));
    assert(is_ascii_word_char(w[w.len() - 1]));
    assert(crate::text::trim_start_spec(w) == w);
    assert(trim_spec(w) == w);
    lemma_word_is_one_prefix_term(w);
}

/// Appends `word*` to a query, after a space unless the query is empty.
fn append_term(out: &mut String, word: &Vec<char>, done: Ghost<Seq<Seq<char>>>)
    requires
        old(out)@ == join_prefix_terms(done@),
        (old(out)@.len() == 0) == (done@.len() == 0),
    ensures
        final(out)@ == join_prefix_terms(done@.push(word@)),
        final(out)@.len() > 0,
{
    let ghost d = done@;
    if out.as_str().is_empty() {
        assert(d.len() == 0);
    } else {
        push_char(out, ' ');
    }
    let mut i: usize = 0;
    let ghost base = out@;
    while i < word.len()
        invariant
            i <= word@.len(),
            out@ == base + word@.subrange(0, i as int),
        decreases word@.len() - i,
    {
        push_char(out, word[i]);
        i = i + 1;
        assert(out@ =~= base + word@.subrange(0, i as int));
    }
    push_char(out, '*');
    assert(word@.subrange(0, word@.len() as int) =~= word@);
    assert(d.push(word@).drop_last() =~= d);
    proof {
        if d.len() == 0 {
            assert(out@ =~= word@.push('*'));
        } else {
            assert(out@ =~= join_prefix_terms(d).push(' ') + word@.push('*'));
        }
    }
}

/// Builds the full-text query for a search string: each whitespace-separated
/// word is cleaned to its letters, digits, `_`, `-` and `.` and becomes a
/// prefix term `word*`; `None` when no word has such characters.
pub fn fts_query(raw: &str) -> (q: Option<String>)
    ensures
        match q {
            Some(s) => fts_query_spec(raw@) == Some(s@),
            None => fts_query_spec(raw@) is None,
        },
{
    let cs = chars_of(raw);
    let mut out = String::new();
    let mut cur: Vec<char> = Vec::new();
    let ghost mut done: Seq<Seq<char>> = Seq::empty();
    let mut i: usize = 0;
    while i < cs.len()
        invariant
            cs@ == raw@,
            i <= cs@.len(),
            term_scan(cs@.subrange(0, i as int)) == (done, cur@),
            out@ == join_prefix_terms(done),
            (out@.len() == 0) == (done.len() == 0),
        decreases cs@.len() - i,
    {
        let c = cs[i];
        assert(cs@.subrange(0, i + 1).drop_last() =~= cs@.subrange(0, i as int));
        if char_is_whitespace(c) {
            if cur.len() > 0 {
                append_term(&mut out, &cur, Ghost(done));
                proof {
                    done = done.push(cur@);
                }
                cur = Vec::new();
            }
        } else {
            let keep = char_is_alphanumeric(c) || c == '_' || c == '-' || c == '.';
            if keep {
                cur.push(c);
            }
        }
        i = i + 1;
    }
    assert(cs@.subrange(0, cs@.len() as int) =~= cs@);
    if cur.len() > 0 {
        append_term(&mut out, &cur, Ghost(done));
        proof {
            done = done.push(cur@);
        }
    }
    if out.as_str().is_empty() {
        None
    } else {
        Some(out)
    }
}

/// Longest preview, in characters, before it is cut.
pub const PREVIEW_MAX: usize = 96;

/// The text up to its first line feed (all of it when there is none).
pub open spec fn first_line(t: Seq<char>) -> Seq<char>
    decreases t.len(),
{
    if t.len() == 0 || t[0] == '\n' {
        Seq::empty()
    } else {
        seq![t[0]] + first_line(t.drop_first())
    }
}

/// The one-line preview of a clip's text: its first line, trimmed, cut to
/// 96 characters followed by `...` when longer.
pub open spec fn one_line_spec(t: Seq<char>) -> Seq<char> {
    let line = trim_spec(first_line(t));
    if line.len() > PREVIEW_MAX {
        line.take(PREVIEW_MAX as int) + "..."@
    } else {
        line
    }
}

proof fn lemma_first_line(t: Seq<char>, k: int)
    requires
        0 <= k <= t.len(),
        forall|j: int| 0 <= j < k ==> t[j] != '\n',
        k == t.len() || t[k] == '\n',
    ensures
        first_line(t) == t.take(k),
    decreases k,
{
    if k > 0 {
        lemma_first_line(t.drop_first(), k - 1);
        assert(first_line(t) =~= t.take(k));
    } else {
        assert(t.take(k) =~= Seq::<char>::empty());
    }
}

/// The one-line preview shown for a text clip.
pub fn one_line(text: &str) -> (p: String)
    ensures
        p@ == one_line_spec(text@),
{
    let cs = chars_of(text);
    let mut k: usize = 0;
    while k < cs.len() && cs[k] != '\n'
        invariant
            k <= cs@.len(),
            forall|j: int| 0 <= j < k ==> cs@[j] != '\n',
        decreases cs@.len() - k,
    {
        k = k + 1;
    }
    proof {
        lemma_first_line(cs@, k as int);
        assert(cs@.take(k as int) =~= cs@.subrange(0, k as int));
    }
    let (a, b) = trim_bounds(&cs, 0, k);
    if b - a > PREVIEW_MAX {
        let mut out = string_from_range(&cs, a, a + PREVIEW_MAX);
        out.append("...");
        assert(cs@.subrange(a as int, a + PREVIEW_MAX) =~= cs@.subrange(a as int, b as int).take(
            PREVIEW_MAX as int,
        ));
        out
    } else {
        string_from_range(&cs, a, b)
    }
}

// ---------------------------------------------------------------------------
// When a clip was copied
// ---------------------------------------------------------------------------

/// Timestamps beyond this magnitude are nanoseconds, smaller ones microseconds.
pub const NANOS_THRESHOLD: i64 = 1_000_000_000_000_000;

/// A clip's `created_at` as nanoseconds since the Unix epoch: values of
/// magnitude above 10^15 are already nanoseconds, smaller ones are
/// microseconds.
pub open spec fn copied_at_nanos_spec(ts: int) -> int {
    if ts > NANOS_THRESHOLD || ts < -NANOS_THRESHOLD {
        ts
    } else {
        ts * 1000
    }
}

/// The instant a clip was copied, in nanoseconds since the Unix epoch, for
/// showing it in local time.
pub fn copied_at_nanos(ts: i64) -> (n: i64)
    requires
        ts != i64::MIN,
    ensures
        n == copied_at_nanos_spec(ts as int),
{
    let magnitude = if ts < 0 { -ts } else { ts };
    if magnitude > NANOS_THRESHOLD {
        ts
    } else {
        ts * 1000
    }
}

// ---------------------------------------------------------------------------
// Choosing what to list
// ---------------------------------------------------------------------------

/// What the palette lists for a search string.
#[derive(Debug)]
pub enum SearchPlan {
    /// The most recent clips.
    Recent,
    /// The most recent image clips.
    Images,
    /// A full-text search with this query, ranked by fuzzy score.
    FullText(String),
}

/// The listing for a search string: recent clips when it is blank, images
/// for the word `image` (in any ASCII case), otherwise a full-text search,
/// falling back to recent clips when no search term is left.
pub open spec fn search_plan_matches(query: Seq<char>, p: SearchPlan) -> bool {
    let q = trim_spec(query);
    if q.len() == 0 {
        p is Recent
    } else if ascii_lowered(q) == ascii_lowered("image"@) {
        p is Images
    } else {
        match fts_query_spec(q) {
            Some(m) => p matches SearchPlan::FullText(f) && f@ == m,
            None => p is Recent,
        }
    }
}

/// Decides what the palette lists for what was typed in the search box.
pub fn plan_search(query: &str) -> (p: SearchPlan)
    ensures
        search_plan_matches(query@, p),
{
    let q = trim_string(query);
    if q.as_str().is_empty() {
        SearchPlan::Recent
    } else if eq_ignore_ascii_case(q.as_str(), "image") {
        SearchPlan::Images
    } else {
        match fts_query(q.as_str()) {
            Some(m) => SearchPlan::FullText(m),
            None => SearchPlan::Recent,
        }
    }
}

// ---------------------------------------------------------------------------
// Ranking search hits
// ---------------------------------------------------------------------------

/// The score of the skim fuzzy matcher (default configuration) for `choice`
/// against `pattern`; `None` when the pattern does not match.
pub uninterp spec fn skim_score(choice: Seq<char>, pattern: Seq<char>) -> Option<i64>;

/// `SkimMatcherV2::fuzzy_match` with the default matcher: its result is named
/// by `skim_score` and is a function of the two texts alone.
#[verifier::external_body]
fn fuzzy_score(choice: &str, pattern: &str) -> (r: Option<i64>)
    ensures
        r == skim_score(choice@, pattern@),
{
    fuzzy_matcher::skim::SkimMatcherV2::default().fuzzy_match(choice, pattern)
}

/// The ranking score of a hit: the fuzzy score, or 0 when it does not match.
pub open spec fn rank_score(text: Seq<char>, query: Seq<char>) -> int {
    match skim_score(text, query) {
        Some(s) => s as int,
        None => 0,
    }
}

/// The ranking score of each row.
pub open spec fn rank_keys(rows: Seq<ListRow>, query: Seq<char>) -> Seq<int> {
    Seq::new(rows.len(), |i: int| rank_score(rows[i].text@, query))
}

/// Row `i` comes before row `j`: a higher score, or the same score and an
/// earlier position.
pub open spec fn ranks_before(keys: Seq<int>, i: int, j: int) -> bool {
    keys[i] > keys[j] || (keys[i] == keys[j] && i < j)
}

/// Position `j` occurs in `perm`.
pub open spec fn lists(perm: Seq<int>, j: int) -> bool {
    exists|k: int| 0 <= k < perm.len() && perm[k] == j
}

/// `perm` lists the positions `0..n` in ranking order, and `out` holds the
/// rows in that order.
pub open spec fn is_ranking(rows: Seq<ListRow>, keys: Seq<int>, out: Seq<ListRow>, perm: Seq<int>) -> bool {
    &&& perm.len() == rows.len()
    &&& out.len() == rows.len()
    &&& forall|k: int| 0 <= k < perm.len() ==> 0 <= #[trigger] perm[k] < rows.len()
    &&& forall|k: int| 0 <= k < perm.len() ==> out[k] == rows[#[trigger] perm[k]]
    &&& forall|k: int, l: int|
        0 <= k < l < perm.len() ==> ranks_before(keys, #[trigger] perm[k], #[trigger] perm[l])
    &&& forall|j: int| 0 <= j < rows.len() ==> #[trigger] lists(perm, j)
}

/// `out` is `rows` sorted by descending score, rows with equal scores in
/// their original order (a stable sort).
pub open spec fn ranked_by(rows: Seq<ListRow>, keys: Seq<int>, out: Seq<ListRow>) -> bool {
    exists|perm: Seq<int>| is_ranking(rows, keys, out, perm)
}

/// `perm` lists exactly the positions in `s`, in ranking order.
pub open spec fn enumerates(keys: Seq<int>, perm: Seq<int>, s: Set<int>) -> bool {
    &&& forall|k: int| 0 <= k < perm.len() ==> s.contains(#[trigger] perm[k])
    &&& forall|k: int, l: int|
        0 <= k < l < perm.len() ==> ranks_before(keys, #[trigger] perm[k], #[trigger] perm[l])
    &&& forall|j: int| s.contains(j) ==> #[trigger] lists(perm, j)
}

proof fn lemma_enumeration_unique(keys: Seq<int>, p1: Seq<int>, p2: Seq<int>, s: Set<int>)
    requires
        enumerates(keys, p1, s),
        enumerates(keys, p2, s),
        p1.len() == p2.len(),
    ensures
        p1 == p2,
    decreases p1.len(),
{
    if p1.len() == 0 {
        assert(p1 =~= p2);
    } else {
        let m1 = p1[0];
        let m2 = p2[0];
        assert(s.contains(m1));
        assert(s.contains(m2));
        assert(lists(p2, m1));
        assert(lists(p1, m2));
        let k2 = choose|k: int| 0 <= k < p2.len() && p2[k] == m1;
        let k1 = choose|k: int| 0 <= k < p1.len() && p1[k] == m2;
        if m1 != m2 {
            assert(k2 > 0 && k1 > 0);
            assert(ranks_before(keys, p2[0], p2[k2]));
            assert(ranks_before(keys, p1[0], p1[k1]));
            assert(false);
        }
        let s2 = s.remove(m1);
        let q1 = p1.drop_first();
        let q2 = p2.drop_first();
        assert forall|k: int| 0 <= k < q1.len() implies s2.contains(#[trigger] q1[k]) by {
            assert(ranks_before(keys, p1[0], p1[k + 1]));
        }
        assert forall|k: int| 0 <= k < q2.len() implies s2.contains(#[trigger] q2[k]) by {
            assert(ranks_before(keys, p2[0], p2[k + 1]));
        }
        assert forall|k: int, l: int| 0 <= k < l < q1.len() implies ranks_before(
            keys,
            #[trigger] q1[k],
            #[trigger] q1[l],
        ) by {
            assert(ranks_before(keys, p1[k + 1], p1[l + 1]));
        }
        assert forall|k: int, l: int| 0 <= k < l < q2.len() implies ranks_before(
            keys,
            #[trigger] q2[k],
            #[trigger] q2[l],
        ) by {
            assert(ranks_before(keys, p2[k + 1], p2[l + 1]));
        }
        assert forall|j: int| s2.contains(j) implies #[trigger] lists(q1, j) by {
            assert(lists(p1, j));
            let k = choose|k: int| 0 <= k < p1.len() && p1[k] == j;
            assert(k != 0);
            assert(q1[k - 1] == j);
        }
        assert forall|j: int| s2.contains(j) implies #[trigger] lists(q2, j) by {
            assert(lists(p2, j));
            let k = choose|k: int| 0 <= k < p2.len() && p2[k] == j;
            assert(k != 0);
            assert(q2[k - 1] == j);
        }
        lemma_enumeration_unique(keys, q1, q2, s2);
        assert forall|k: int| 0 <= k < p1.len() implies p1[k] == p2[k] by {
            if k > 0 {
                assert(p1[k] == q1[k - 1]);
                assert(p2[k] == q2[k - 1]);
            }
        }
        assert(p1 =~= p2);
    }
}

/// There is only one ranking of a list of rows by given scores: the contract
/// of `rank_fuzzy` determines its result.
pub proof fn lemma_ranking_unique(rows: Seq<ListRow>, keys: Seq<int>, out1: Seq<ListRow>, out2: Seq<ListRow>)
    requires
        ranked_by(rows, keys, out1),
        ranked_by(rows, keys, out2),
    ensures
        out1 == out2,
{
    let p1 = choose|p: Seq<int>| is_ranking(rows, keys, out1, p);
    let p2 = choose|p: Seq<int>| is_ranking(rows, keys, out2, p);
    let s = Set::new(|j: int| 0 <= j < rows.len());
    assert(enumerates(keys, p1, s));
    assert(enumerates(keys, p2, s));
    lemma_enumeration_unique(keys, p1, p2, s);
    assert forall|k: int| 0 <= k < out1.len() implies out1[k] == out2[k] by {
        assert(out1[k] == rows[p1[k]]);
        assert(out2[k] == rows[p2[k]]);
    }
    assert(out1 =~= out2);
}

/// Orders search hits by how well their text fuzzily matches the query, best
/// first; hits that score the same keep their order, and a hit the matcher
/// rejects scores 0.
pub fn rank_fuzzy(rows: Vec<ListRow>, query: &str) -> (out: Vec<ListRow>)
    ensures
        ranked_by(rows@, rank_keys(rows@, query@), out@),
{
    let ghost orig = rows@;
    let ghost keys = rank_keys(rows@, query@);
    let n = rows.len();
    let mut scores: Vec<i64> = Vec::new();
    let mut i: usize = 0;
    while i < n
        invariant
            n == rows@.len(),
            rows@ == orig,
            keys == rank_keys(orig, query@),
            i <= n,
            scores@.len() == i,
            forall|j: int| 0 <= j < i ==> scores@[j] as int == #[trigger] keys[j],
        decreases n - i,
    {
        let s = match fuzzy_score(rows[i].text.as_str(), query) {
            Some(v) => v,
            None => 0,
        };
        scores.push(s);
        i = i + 1;
    }
    let mut rows = rows;
    let mut out: Vec<ListRow> = Vec::new();
    let mut out_scores: Vec<i64> = Vec::new();
    let ghost mut perm: Seq<int> = Seq::empty();
    let mut m: usize = n;
    while m > 0
        invariant
            n == orig.len(),
            keys == rank_keys(orig, query@),
            m <= n,
            rows@ == orig.take(m as int),
            scores@.len() == m,
            forall|j: int| 0 <= j < m ==> scores@[j] as int == #[trigger] keys[j],
            out@.len() == perm.len(),
            out_scores@.len() == perm.len(),
            perm.len() == n - m,
            forall|k: int| 0 <= k < perm.len() ==> m <= #[trigger] perm[k] < n,
            forall|k: int| 0 <= k < perm.len() ==> out@[k] == orig[#[trigger] perm[k]],
            forall|k: int| 0 <= k < perm.len() ==> out_scores@[k] as int == keys[#[trigger] perm[k]],
            forall|k: int, l: int|
                0 <= k < l < perm.len() ==> ranks_before(keys, #[trigger] perm[k], #[trigger] perm[l]),
            forall|j: int| m <= j < n ==> #[trigger] lists(perm, j),
        decreases m,
    {
        let row = rows.pop().unwrap();
        let s = scores.pop().unwrap();
        let ghost idx = (m - 1) as int;
        assert(row == orig[idx]);
        assert(s as int == keys[idx]);
        let mut p: usize = 0;
        while p < out_scores.len() && out_scores[p] > s
            invariant
                p <= out_scores@.len(),
                forall|k: int| 0 <= k < p ==> out_scores@[k] > s,
            decreases out_scores@.len() - p,
        {
            p = p + 1;
        }
        let ghost old_perm = perm;
        proof {
            assert forall|k: int| p <= k < old_perm.len() implies keys[old_perm[k]] <= s by {
                if k > p {
                    assert(ranks_before(keys, old_perm[p as int], old_perm[k]));
                }
            }
        }
        out.insert(p, row);
        out_scores.insert(p, s);
        proof {
            perm = old_perm.insert(p as int, idx);
            assert forall|k: int, l: int| 0 <= k < l < perm.len() implies ranks_before(
                keys,
                #[trigger] perm[k],
                #[trigger] perm[l],
            ) by {
                if l < p {
                    assert(ranks_before(keys, old_perm[k], old_perm[l]));
                } else if l == p {
                    assert(out_scores@[k] > s);
                } else if k == p {
                    assert(perm[l] == old_perm[l - 1]);
                    assert(keys[old_perm[l - 1]] <= s);
                } else if k < p {
                    assert(ranks_before(keys, old_perm[k], old_perm[l - 1]));
                } else {
                    assert(ranks_before(keys, old_perm[k - 1], old_perm[l - 1]));
                }
            }
            assert forall|j: int| m - 1 <= j < n implies #[trigger] lists(perm, j) by {
                if j == idx {
                    assert(perm[p as int] == j);
                } else {
                    assert(lists(old_perm, j));
                    let k0 = choose|k: int| 0 <= k < old_perm.len() && old_perm[k] == j;
                    if k0 < p {
                        assert(perm[k0] == j);
                    } else {
                        assert(perm[k0 + 1] == j);
                    }
                }
            }
            assert(rows@ =~= orig.take(m - 1));
        }
        m = m - 1;
    }
    proof {
        assert(is_ranking(orig, keys, out@, perm));
    }
    out
}

} // verus!
