//! Quote-aware splitting of a command line into its words.
//!
//! A word is either a run of chars between a pair of double quotes (at least
//! one char, no quote inside), or a maximal run of non-white-space chars.
//! This is the grammar `"([^"]+)"|(\S+)` read from left to right.

use vstd::prelude::*;
use crate::text::{chars_of, is_white_space, white_space};

verus! {

/// The first index `k >= i` with `s[k] == '"'`, or `s.len()` if there is none.
pub open spec fn next_quote(s: Seq<char>, i: int) -> int
    decreases s.len() - i,
{
    if i >= s.len() {
        s.len() as int
    } else if s[i] == '"' {
        i
    } else {
        next_quote(s, i + 1)
    }
}

/// The first index `k >= i` with `s[k]` white space, or `s.len()`.
pub open spec fn word_end(s: Seq<char>, i: int) -> int
    decreases s.len() - i,
{
    if i >= s.len() {
        s.len() as int
    } else if is_white_space(s[i]) {
        i
    } else {
        word_end(s, i + 1)
    }
}

/// Whether a quoted word starts at `i`: a `"` there, then at least one
/// char, then a closing `"`.
pub open spec fn quoted_word_at(s: Seq<char>, i: int) -> bool {
    &&& 0 <= i < s.len()
    &&& s[i] == '"'
    &&& i + 1 < next_quote(s, i + 1) < s.len()
}

/// `next_quote` finds the first quote at or after `i`.
pub proof fn lemma_next_quote_bounds(s: Seq<char>, i: int)
    requires
        0 <= i,
    ensures
        i <= s.len() ==> i <= next_quote(s, i) <= s.len(),
        i > s.len() ==> next_quote(s, i) == s.len(),
        next_quote(s, i) < s.len() ==> s[next_quote(s, i)] == '"',
        forall|k: int| i <= k < next_quote(s, i) ==> s[k] != '"',
    decreases s.len() - i,
{
    if i < s.len() && s[i] != '"' {
        lemma_next_quote_bounds(s, i + 1);
    }
}

/// `word_end` finds the first white space at or after `i`.
pub proof fn lemma_word_end_bounds(s: Seq<char>, i: int)
    requires
        0 <= i <= s.len(),
    ensures
        i <= word_end(s, i) <= s.len(),
        i < s.len() && !is_white_space(s[i]) ==> i < word_end(s, i),
        word_end(s, i) < s.len() ==> is_white_space(s[word_end(s, i)]),
        forall|k: int| i <= k < word_end(s, i) ==> !is_white_space(s[k]),
    decreases s.len() - i,
{
    if i < s.len() && !is_white_space(s[i]) {
        lemma_word_end_bounds(s, i + 1);
    }
}

/// The words of `s` from index `i` on.
pub open spec fn tokens_from(s: Seq<char>, i: int) -> Seq<Seq<char>>
    decreases s.len() - i,
{
    if i < 0 || i >= s.len() {
        Seq::empty()
    } else if is_white_space(s[i]) {
        tokens_from(s, i + 1)
    } else if quoted_word_at(s, i) {
        let q = next_quote(s, i + 1);
        seq![s.subrange(i + 1, q)] + tokens_from(s, q + 1)
    } else {
        let e = word_end(s, i);
        proof {
            lemma_word_end_bounds(s, i);
        }
        seq![s.subrange(i, e)] + tokens_from(s, e)
    }
}

/// The words of `s`, in order.
pub open spec fn tokens(s: Seq<char>) -> Seq<Seq<char>> {
    tokens_from(s, 0)
}

/// Computes `next_quote`.
pub fn find_quote(cs: &Vec<char>, i: usize) -> (k: usize)
    requires
        i <= cs.len(),
    ensures
        k == next_quote(cs@, i as int),
{
    let mut k = i;
    while k < cs.len() && cs[k] != '"'
        invariant
            i <= k <= cs.len(),
            next_quote(cs@, k as int) == next_quote(cs@, i as int),
        decreases cs.len() - k,
    {
        k = k + 1;
    }
    k
}

/// Computes `word_end`.
pub fn find_word_end(cs: &Vec<char>, i: usize) -> (k: usize)
    requires
        i <= cs.len(),
    ensures
        k == word_end(cs@, i as int),
{
    let mut k = i;
    while k < cs.len() && !white_space(cs[k])
        invariant
            i <= k <= cs.len(),
            word_end(cs@, k as int) == word_end(cs@, i as int),
        decreases cs.len() - k,
    {
        k = k + 1;
    }
    k
}

} // verus!

verus! {

/// A word written between double quotes.
pub open spec fn quoted(t: Seq<char>) -> Seq<char> {
    seq!['"'] + t + seq!['"']
}

/// Words written between double quotes, separated by single spaces.
pub open spec fn join_quoted(ts: Seq<Seq<char>>) -> Seq<char>
    decreases ts.len(),
{
    if ts.len() == 0 {
        Seq::empty()
    } else if ts.len() == 1 {
        quoted(ts[0])
    } else {
        quoted(ts[0]) + seq![' '] + join_quoted(ts.drop_first())
    }
}

/// Words separated by single spaces.
pub open spec fn join_words(ts: Seq<Seq<char>>) -> Seq<char>
    decreases ts.len(),
{
    if ts.len() == 0 {
        Seq::empty()
    } else if ts.len() == 1 {
        ts[0]
    } else {
        ts[0] + seq![' '] + join_words(ts.drop_first())
    }
}

pub open spec fn has_no_quote(t: Seq<char>) -> bool {
    forall|k: int| 0 <= k < t.len() ==> t[k] != '"'
}

pub open spec fn has_no_white_space(t: Seq<char>) -> bool {
    forall|k: int| 0 <= k < t.len() ==> !is_white_space(t[k])
}

proof fn lemma_next_quote_shift(a: Seq<char>, b: Seq<char>, j: int)
    requires
        0 <= j,
    ensures
        next_quote(a + b, a.len() + j) == a.len() + next_quote(b, j),
    decreases b.len() - j,
{
    if j < b.len() {
        assert((a + b)[a.len() + j] == b[j]);
        if b[j] != '"' {
            lemma_next_quote_shift(a, b, j + 1);
        }
    }
}

proof fn lemma_word_end_shift(a: Seq<char>, b: Seq<char>, j: int)
    requires
        0 <= j,
    ensures
        word_end(a + b, a.len() + j) == a.len() + word_end(b, j),
    decreases b.len() - j,
{
    if j < b.len() {
        assert((a + b)[a.len() + j] == b[j]);
        if !is_white_space(b[j]) {
            lemma_word_end_shift(a, b, j + 1);
        }
    }
}

/// The words after a prefix do not depend on the prefix.
pub proof fn lemma_tokens_shift(a: Seq<char>, b: Seq<char>, j: int)
    requires
        0 <= j,
    ensures
        tokens_from(a + b, a.len() + j) == tokens_from(b, j),
    decreases b.len() - j,
{
    let s = a + b;
    let i = a.len() + j;
    if j < b.len() {
        assert(s[i] == b[j]);
        if is_white_space(b[j]) {
            lemma_tokens_shift(a, b, j + 1);
        } else {
            lemma_next_quote_shift(a, b, j + 1);
            lemma_next_quote_bounds(b, j + 1);
            if quoted_word_at(b, j) {
                let q = next_quote(b, j + 1);
                assert(s.subrange(i + 1, a.len() + q) == b.subrange(j + 1, q));
                lemma_tokens_shift(a, b, q + 1);
            } else {
                lemma_word_end_shift(a, b, j);
                lemma_word_end_bounds(b, j);
                let e = word_end(b, j);
                assert(s.subrange(i, a.len() + e) == b.subrange(j, e));
                lemma_tokens_shift(a, b, e);
            }
        }
    }
}

proof fn lemma_tokens_after_space(s: Seq<char>, rest: Seq<char>)
    ensures
        tokens_from(seq![' '] + rest, 0) == tokens(rest),
{
    let sp = seq![' '] + rest;
    assert(is_white_space(sp[0]));
    lemma_tokens_shift(seq![' '], rest, 0);
}

/// Law: a list of words, each written between double quotes and separated by
/// spaces, is split back into the same words, as long as each word is
/// non-empty and holds no double quote (it may hold spaces).
pub proof fn law_split_quoted_words(ts: Seq<Seq<char>>)
    requires
        forall|i: int| 0 <= i < ts.len() ==> #[trigger] ts[i].len() > 0 && has_no_quote(ts[i]),
    ensures
        tokens(join_quoted(ts)) == ts,
    decreases ts.len(),
{
    if ts.len() > 0 {
        let t = ts[0];
        let rest = if ts.len() == 1 { Seq::<char>::empty() } else { seq![' '] + join_quoted(ts.drop_first()) };
        let s = quoted(t) + rest;
        assert(join_quoted(ts) == s);
        assert(s[0] == '"');
        lemma_next_quote_shift(seq!['"'], t + seq!['"'] + rest, 0);
        lemma_next_quote_bounds(t + seq!['"'] + rest, 0);
        assert(s == seq!['"'] + (t + seq!['"'] + rest));
        let u = t + seq!['"'] + rest;
        assert(u[t.len() as int] == '"');
        assert(forall|k: int| 0 <= k < t.len() ==> u[k] == t[k]);
        assert(next_quote(u, 0) == t.len());
        assert(next_quote(s, 1) == t.len() as int + 1);
        assert(!is_white_space(s[0]));
        assert(quoted_word_at(s, 0));
        assert(s.subrange(1, t.len() as int + 1) == t);
        assert(tokens(s) == seq![t] + tokens_from(s, t.len() as int + 2));
        lemma_tokens_shift(quoted(t), rest, 0);
        if ts.len() == 1 {
            assert(tokens_from(s, t.len() as int + 2) == Seq::<Seq<char>>::empty());
        } else {
            let tail = ts.drop_first();
            law_split_quoted_words(tail);
            lemma_tokens_after_space(s, join_quoted(tail));
        }
        assert(ts == seq![t] + ts.drop_first());
    }
}

/// Law: words separated by single spaces are split back into the same words,
/// as long as each word is non-empty and holds neither white space nor a
/// double quote.
pub proof fn law_split_plain_words(ts: Seq<Seq<char>>)
    requires
        forall|i: int|
            0 <= i < ts.len() ==> #[trigger] ts[i].len() > 0 && has_no_quote(ts[i])
                && has_no_white_space(ts[i]),
    ensures
        tokens(join_words(ts)) == ts,
    decreases ts.len(),
{
    if ts.len() > 0 {
        let t = ts[0];
        let rest = if ts.len() == 1 { Seq::<char>::empty() } else { seq![' '] + join_words(ts.drop_first()) };
        let s = t + rest;
        assert(join_words(ts) == s);
        assert(s[0] == t[0]);
        assert(!quoted_word_at(s, 0));
        lemma_word_end_shift(t, rest, 0);
        assert forall|k: int| 0 <= k < t.len() implies word_end(s, k) == t.len() + word_end(rest, 0) by {
            lemma_word_end_from_inside(s, k, t.len() as int);
        }
        if ts.len() > 1 {
            assert(rest[0] == ' ');
        }
        assert(word_end(rest, 0) == 0);
        assert(s.subrange(0, t.len() as int) == t);
        assert(tokens(s) == seq![t] + tokens_from(s, t.len() as int));
        lemma_tokens_shift(t, rest, 0);
        if ts.len() == 1 {
            assert(tokens_from(s, t.len() as int) == Seq::<Seq<char>>::empty());
        } else {
            let tail = ts.drop_first();
            law_split_plain_words(tail);
            lemma_tokens_after_space(s, join_words(tail));
        }
        assert(ts == seq![t] + ts.drop_first());
    }
}

proof fn lemma_word_end_from_inside(s: Seq<char>, k: int, m: int)
    requires
        0 <= k <= m <= s.len(),
        forall|x: int| k <= x < m ==> !is_white_space(s[x]),
    ensures
        word_end(s, k) == word_end(s, m),
    decreases m - k,
{
    if k < m {
        lemma_word_end_from_inside(s, k + 1, m);
    }
}

} // verus!
