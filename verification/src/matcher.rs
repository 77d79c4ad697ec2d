//! Fuzzy matching of outcome labels.
//!
//! Two venues rarely word the same outcome identically ("YES - Trump wins"
//! against "Trump Wins - Yes").  A label is canonicalised by lower-casing it
//! (the standard library's case mapping, named `lower_of`), turning every
//! non-alphanumeric character into a separator and collapsing the
//! separators; two labels match when their canonical forms are equal or
//! when the Jaccard similarity of their token sets reaches a fixed
//! threshold.

use vstd::prelude::*;
use vstd::seq_lib::*;
use vstd::set_lib::*;

use crate::fixed::{Dec, SCALE};
use crate::models::MarketOdds;
use crate::text::{chars_to_string, is_alnum, lower_of, to_lower_chars, vec_char_eq};

verus! {

/// Similarity at or above this many micro-units (0.8) counts as a match.
pub const SIM_THRESHOLD: i128 = 800_000;

// ---------------------------------------------------------------------------
// Canonical form: tokens and their space-joined rendering
// ---------------------------------------------------------------------------

/// Splits `s` into maximal runs of alphanumeric characters, with `cur` the
/// run in progress.
pub open spec fn tok_rec(s: Seq<char>, cur: Seq<char>) -> Seq<Seq<char>>
    decreases s.len(),
{
    if s.len() == 0 {
        if cur.len() == 0 {
            Seq::empty()
        } else {
            seq![cur]
        }
    } else if is_alnum(s[0]) {
        tok_rec(s.drop_first(), cur.push(s[0]))
    } else if cur.len() == 0 {
        tok_rec(s.drop_first(), Seq::empty())
    } else {
        seq![cur] + tok_rec(s.drop_first(), Seq::empty())
    }
}

/// The tokens of a label: maximal alphanumeric runs of its lower-cased form.
pub open spec fn tokens(s: Seq<char>) -> Seq<Seq<char>> {
    tok_rec(lower_of(s), Seq::empty())
}

/// Tokens joined by single spaces.
pub open spec fn join_tokens(ts: Seq<Seq<char>>) -> Seq<char>
    decreases ts.len(),
{
    if ts.len() == 0 {
        Seq::empty()
    } else if ts.len() == 1 {
        ts[0]
    } else {
        ts[0] + seq![' '] + join_tokens(ts.drop_first())
    }
}

/// The separator pass alone: the maximal alphanumeric runs of a character
/// sequence, joined by single spaces.
pub open spec fn canon_spec(s: Seq<char>) -> Seq<char> {
    join_tokens(tok_rec(s, Seq::empty()))
}

/// The canonical form of a label: the separator pass over its lower-cased
/// form — its tokens joined by single spaces.
pub open spec fn norm_spec(s: Seq<char>) -> Seq<char> {
    canon_spec(lower_of(s))
}

/// A token as tokenisation produces it: non-empty and alphanumeric
/// throughout.
pub open spec fn wf_token(t: Seq<char>) -> bool {
    &&& t.len() > 0
    &&& forall|i: int| 0 <= i < t.len() ==> is_alnum(#[trigger] t[i])
}

// ---------------------------------------------------------------------------
// Executable tokenisation
// ---------------------------------------------------------------------------

/// The views of a vector of character-vector tokens.
pub open spec fn toks_view(v: Seq<Vec<char>>) -> Seq<Seq<char>> {
    v.map_values(|t: Vec<char>| t@)
}

/// The tokens of a label, computed.
pub fn tokenize(s: &str) -> (r: Vec<Vec<char>>)
    ensures
        toks_view(r@) == tokens(s@),
{
    let cs = to_lower_chars(s);
    let ghost ls = lower_of(s@);
    let mut out: Vec<Vec<char>> = Vec::new();
    let mut cur: Vec<char> = Vec::new();
    let mut i: usize = 0;
    proof {
        assert(ls.skip(0) =~= ls);
        assert(toks_view(out@) + tok_rec(ls, Seq::empty()) =~= tok_rec(ls, Seq::empty()));
    }
    while i < cs.len()
        invariant
            0 <= i <= cs.len(),
            cs@ == ls,
            ls == lower_of(s@),
            toks_view(out@) + tok_rec(ls.skip(i as int), cur@) == tok_rec(ls, Seq::empty()),
        decreases cs.len() - i,
    {
        let c = cs[i];
        let ghost sk = ls.skip(i as int);
        proof {
            assert(sk.len() == ls.len() - i);
            assert(sk[0] == ls[i as int]);
            assert(sk.drop_first() =~= ls.skip(i + 1));
            assert(c == ls[i as int]);
        }
        if c.is_alphanumeric() {
            proof {
                assert(tok_rec(sk, cur@) == tok_rec(ls.skip(i + 1), cur@.push(c)));
            }
            cur.push(c);
        } else {
            if cur.len() > 0 {
                proof {
                    assert(tok_rec(sk, cur@) == seq![cur@] + tok_rec(ls.skip(i + 1), Seq::empty()));
                }
                let ghost old_out = out@;
                out.push(cur);
                proof {
                    assert(toks_view(out@) =~= toks_view(old_out) + seq![cur@]);
                    assert((toks_view(old_out) + seq![cur@]) + tok_rec(ls.skip(i + 1), Seq::empty()) =~= toks_view(old_out) + (seq![cur@] + tok_rec(ls.skip(i + 1), Seq::empty())));
                }
                cur = Vec::new();
            } else {
                proof {
                    assert(cur@ =~= Seq::<char>::empty());
                    assert(tok_rec(sk, cur@) == tok_rec(ls.skip(i + 1), Seq::empty()));
                    assert(cur@.len() == 0);
                }
            }
        }
        i = i + 1;
    }
    proof {
        assert(ls.skip(cs@.len() as int) =~= Seq::<char>::empty());
    }
    if cur.len() > 0 {
        proof {
            assert(tok_rec(Seq::<char>::empty(), cur@) == seq![cur@]);
        }
        let ghost old_out = out@;
        out.push(cur);
        proof {
            assert(toks_view(out@) =~= toks_view(old_out) + seq![cur@]);
        }
    } else {
        proof {
            assert(cur@ =~= Seq::<char>::empty());
            assert(tok_rec(Seq::<char>::empty(), cur@) == Seq::<Seq<char>>::empty());
            assert(toks_view(out@) + Seq::<Seq<char>>::empty() =~= toks_view(out@));
        }
    }
    out
}

// ---------------------------------------------------------------------------
// The separator pass is a projection
// ---------------------------------------------------------------------------

/// Every token that tokenisation produces is non-empty and alphanumeric
/// throughout.
proof fn lemma_tok_rec_wf(s: Seq<char>, cur: Seq<char>)
    requires
        forall|i: int| 0 <= i < cur.len() ==> is_alnum(#[trigger] cur[i]),
    ensures
        forall|k: int| 0 <= k < tok_rec(s, cur).len() ==> wf_token(#[trigger] tok_rec(s, cur)[k]),
    decreases s.len(),
{
    if s.len() == 0 {
        if cur.len() == 0 {
            assert(tok_rec(s, cur) == Seq::<Seq<char>>::empty());
        } else {
            assert(tok_rec(s, cur) == seq![cur]);
            assert(wf_token(cur));
            assert(tok_rec(s, cur)[0] == cur);
        }
    } else {
        if is_alnum(s[0]) {
            assert(tok_rec(s, cur) == tok_rec(s.drop_first(), cur.push(s[0])));
            assert(forall|i: int| 0 <= i < cur.push(s[0]).len() ==> is_alnum(#[trigger] cur.push(s[0])[i]));
            lemma_tok_rec_wf(s.drop_first(), cur.push(s[0]));
        } else if cur.len() == 0 {
            assert(tok_rec(s, cur) == tok_rec(s.drop_first(), Seq::empty()));
            lemma_tok_rec_wf(s.drop_first(), Seq::empty());
        } else {
            lemma_tok_rec_wf(s.drop_first(), Seq::empty());
            let r = tok_rec(s, cur);
            let rest = tok_rec(s.drop_first(), Seq::empty());
            assert(r == seq![cur] + rest);
            assert(wf_token(cur));
            assert(r[0] == cur);
            assert(forall|k: int| 1 <= k < r.len() ==> r[k] == rest[k - 1]);
        }
    }
}

/// Tokenisation walks through a fully alphanumeric prefix by absorbing it
/// into the run in progress.
proof fn lemma_tok_consume(t: Seq<char>, rest: Seq<char>, cur: Seq<char>)
    requires
        forall|i: int| 0 <= i < t.len() ==> is_alnum(#[trigger] t[i]),
    ensures
        tok_rec(t + rest, cur) == tok_rec(rest, cur + t),
    decreases t.len(),
{
    if t.len() == 0 {
        assert(t + rest =~= rest);
        assert(cur + t =~= cur);
    } else {
        let s = t + rest;
        assert(s.len() > 0);
        assert(s[0] == t[0]);
        assert(s.drop_first() =~= t.drop_first() + rest);
        assert(tok_rec(s, cur) == tok_rec(t.drop_first() + rest, cur.push(t[0])));
        lemma_tok_consume(t.drop_first(), rest, cur.push(t[0]));
        assert(cur.push(t[0]) + t.drop_first() =~= cur + t);
    }
}

/// Tokenising the joined rendering of well-formed tokens gives those tokens
/// back unchanged.
proof fn lemma_tok_of_join(ts: Seq<Seq<char>>)
    requires
        forall|k: int| 0 <= k < ts.len() ==> wf_token(#[trigger] ts[k]),
    ensures
        tok_rec(join_tokens(ts), Seq::empty()) == ts,
    decreases ts.len(),
{
    if ts.len() == 0 {
        assert(tok_rec(Seq::empty(), Seq::<char>::empty()) =~= Seq::<Seq<char>>::empty());
        assert(ts =~= Seq::<Seq<char>>::empty());
    } else if ts.len() == 1 {
        let t0 = ts[0];
        assert(wf_token(t0));
        assert(t0 + Seq::<char>::empty() =~= t0);
        lemma_tok_consume(t0, Seq::empty(), Seq::empty());
        assert(Seq::<char>::empty() + t0 =~= t0);
        assert(tok_rec(Seq::<char>::empty(), t0) == seq![t0]);
        assert(seq![t0] =~= ts);
    } else {
        let t0 = ts[0];
        let tail = ts.drop_first();
        let rest = join_tokens(tail);
        let j = join_tokens(ts);
        assert(wf_token(t0));
        assert(j == t0 + seq![' '] + rest);
        assert(j =~= t0 + (seq![' '] + rest));
        lemma_tok_consume(t0, seq![' '] + rest, Seq::empty());
        assert(Seq::<char>::empty() + t0 =~= t0);
        let mid = seq![' '] + rest;
        assert(mid[0] == ' ');
        assert(!is_alnum(' '));
        assert(t0.len() > 0);
        assert(tok_rec(mid, t0) == seq![t0] + tok_rec(mid.drop_first(), Seq::empty()));
        assert(mid.drop_first() =~= rest);
        assert(forall|k: int| 0 <= k < tail.len() ==> wf_token(#[trigger] tail[k]));
        lemma_tok_of_join(tail);
        assert(seq![t0] + tail =~= ts);
    }
}

/// Re-tokenising the separator pass's own output gives the same tokens:
/// token characters are alphanumeric and the joining spaces are not, so
/// the runs split apart exactly as they were joined.
pub proof fn lemma_retokenize_canon(s: Seq<char>)
    ensures
        tok_rec(canon_spec(s), Seq::empty()) == tok_rec(s, Seq::empty()),
{
    lemma_tok_rec_wf(s, Seq::empty());
    lemma_tok_of_join(tok_rec(s, Seq::empty()));
}

/// The separator pass is idempotent: splitting a canonical form back into
/// tokens and joining them again changes nothing.  This is the part of
/// `normalize`'s idempotence the library can state: the full claim also
/// needs that the standard library's lower-casing leaves its own output
/// unchanged, and that behaviour is only named here (`lower_of`), never
/// re-stated.
pub proof fn lemma_canon_idempotent(s: Seq<char>)
    ensures
        canon_spec(canon_spec(s)) == canon_spec(s),
{
    lemma_retokenize_canon(s);
}

// ---------------------------------------------------------------------------
// Executable canonicalisation
// ---------------------------------------------------------------------------

/// Appending one more token to a join adds a separator before it, unless
/// nothing was joined yet.
proof fn lemma_join_push(ts: Seq<Seq<char>>, t: Seq<char>)
    ensures
        ts.len() == 0 ==> join_tokens(ts.push(t)) == t,
        ts.len() > 0 ==> join_tokens(ts.push(t)) == join_tokens(ts) + seq![' '] + t,
    decreases ts.len(),
{
    let p = ts.push(t);
    if ts.len() == 0 {
        assert(p.len() == 1);
        assert(p[0] == t);
    } else if ts.len() == 1 {
        assert(p.len() == 2);
        assert(p[0] == ts[0]);
        assert(p.drop_first() =~= seq![t]);
        assert(join_tokens(seq![t]) == t);
        assert(join_tokens(ts) == ts[0]);
    } else {
        assert(p.len() > 2);
        assert(p[0] == ts[0]);
        assert(p.drop_first() =~= ts.drop_first().push(t));
        lemma_join_push(ts.drop_first(), t);
        assert(join_tokens(p) == p[0] + seq![' '] + join_tokens(ts.drop_first().push(t)));
        assert(ts.drop_first().len() > 0);
        assert(join_tokens(ts) == ts[0] + seq![' '] + join_tokens(ts.drop_first()));
        assert(ts[0] + seq![' '] + (join_tokens(ts.drop_first()) + seq![' '] + t) =~= (ts[0] + seq![' '] + join_tokens(ts.drop_first())) + seq![' '] + t);
    }
}

/// The given tokens joined by single spaces, computed.
fn join_with_spaces(toks: &Vec<Vec<char>>) -> (r: Vec<char>)
    ensures
        r@ == join_tokens(toks_view(toks@)),
{
    let ghost tv = toks_view(toks@);
    let mut out: Vec<char> = Vec::new();
    let mut k: usize = 0;
    proof {
        assert(tv.take(0) =~= Seq::<Seq<char>>::empty());
        assert(out@ =~= join_tokens(tv.take(0)));
    }
    while k < toks.len()
        invariant
            0 <= k <= toks@.len(),
            tv == toks_view(toks@),
            tv.len() == toks@.len(),
            forall|m: int| 0 <= m < toks@.len() ==> tv[m] == toks@[m]@,
            out@ == join_tokens(tv.take(k as int)),
        decreases toks@.len() - k,
    {
        let ghost base = out@;
        if k > 0 {
            out.push(' ');
        }
        let ghost mark = out@;
        let t = &toks[k];
        let mut j: usize = 0;
        while j < t.len()
            invariant
                0 <= j <= t@.len(),
                out@ == mark + t@.take(j as int),
            decreases t@.len() - j,
        {
            out.push(t[j]);
            proof {
                assert(mark + t@.take(j + 1) =~= (mark + t@.take(j as int)).push(t@[j as int]));
            }
            j = j + 1;
        }
        proof {
            assert(t@.take(t@.len() as int) =~= t@);
            lemma_join_push(tv.take(k as int), tv[k as int]);
            assert(tv.take(k as int).push(tv[k as int]) =~= tv.take(k + 1));
            if k == 0 {
                assert(out@ =~= join_tokens(tv.take(k + 1)));
            } else {
                assert(mark =~= base.push(' '));
                assert(mark =~= base + seq![' ']);
                assert(out@ =~= (base + seq![' ']) + tv[k as int]);
                assert(out@ =~= join_tokens(tv.take(k as int)) + seq![' '] + tv[k as int]);
            }
        }
        k = k + 1;
    }
    proof {
        assert(tv.take(tv.len() as int) =~= tv);
    }
    out
}

// ---------------------------------------------------------------------------
// Jaccard similarity over token sets
// ---------------------------------------------------------------------------

/// The set of distinct tokens of a label.
pub open spec fn token_set(s: Seq<char>) -> Set<Seq<char>> {
    tokens(s).to_set()
}

/// Jaccard similarity of two finite sets in micro-units: the share of the
/// union that the intersection covers, with two empty sets counting as
/// fully similar.
pub open spec fn jaccard_units(a: Set<Seq<char>>, b: Set<Seq<char>>) -> int {
    if a.union(b).len() == 0 {
        SCALE as int
    } else {
        (a.intersect(b).len() * SCALE) / (a.union(b).len() as int)
    }
}

/// Similarity of two labels: Jaccard similarity of their token sets.
pub open spec fn sim_spec(a: Seq<char>, b: Seq<char>) -> int {
    jaccard_units(token_set(a), token_set(b))
}

/// Two labels match when their canonical forms are equal or their
/// similarity reaches the fixed threshold.
pub open spec fn match_spec(a: Seq<char>, b: Seq<char>) -> bool {
    norm_spec(a) == norm_spec(b) || sim_spec(a, b) >= SIM_THRESHOLD as int
}

/// A duplicate of a character vector.
fn clone_chars(v: &Vec<char>) -> (r: Vec<char>)
    ensures
        r@ == v@,
{
    let mut r: Vec<char> = Vec::new();
    let mut i: usize = 0;
    while i < v.len()
        invariant
            0 <= i <= v@.len(),
            r@ == v@.take(i as int),
        decreases v@.len() - i,
    {
        r.push(v[i]);
        proof {
            assert(r@ =~= v@.take(i + 1));
        }
        i = i + 1;
    }
    proof {
        assert(v@.take(v@.len() as int) =~= v@);
    }
    r
}

/// Whether the token `t` occurs among `v`.
fn contains_token(v: &Vec<Vec<char>>, t: &Vec<char>) -> (r: bool)
    ensures
        r == toks_view(v@).contains(t@),
{
    let mut i: usize = 0;
    while i < v.len()
        invariant
            0 <= i <= v@.len(),
            forall|j: int| 0 <= j < i ==> toks_view(v@)[j] != t@,
        decreases v@.len() - i,
    {
        if vec_char_eq(&v[i], t) {
            proof {
                assert(toks_view(v@)[i as int] == t@);
            }
            return true;
        }
        i = i + 1;
    }
    proof {
        assert forall|j: int| 0 <= j < v@.len() implies toks_view(v@)[j] != t@ by {}
    }
    false
}

/// The distinct tokens of `toks`, first occurrences in order.
fn dedup_tokens(toks: &Vec<Vec<char>>) -> (r: Vec<Vec<char>>)
    ensures
        toks_view(r@).no_duplicates(),
        toks_view(r@).to_set() == toks_view(toks@).to_set(),
{
    let ghost tv = toks_view(toks@);
    let mut out: Vec<Vec<char>> = Vec::new();
    let mut i: usize = 0;
    proof {
        assert(tv.take(0) =~= Seq::<Seq<char>>::empty());
        assert(toks_view(out@).to_set() =~= tv.take(0).to_set());
    }
    while i < toks.len()
        invariant
            0 <= i <= toks@.len(),
            tv == toks_view(toks@),
            tv.len() == toks@.len(),
            forall|m: int| 0 <= m < toks@.len() ==> tv[m] == toks@[m]@,
            toks_view(out@).no_duplicates(),
            toks_view(out@).to_set() == tv.take(i as int).to_set(),
        decreases toks@.len() - i,
    {
        let ghost el = tv[i as int];
        proof {
            assert(tv.take(i + 1) =~= tv.take(i as int).push(el));
            tv.take(i as int).lemma_push_to_set_commute(el);
        }
        if !contains_token(&out, &toks[i]) {
            let ghost old_view = toks_view(out@);
            let dup = clone_chars(&toks[i]);
            out.push(dup);
            proof {
                assert(toks_view(out@) =~= old_view.push(el));
                assert forall|p: int, q: int|
                    0 <= p < q < toks_view(out@).len() implies toks_view(out@)[p] != toks_view(out@)[q] by {
                    if q < old_view.len() {
                        assert(old_view[p] != old_view[q]);
                    } else {
                        assert(toks_view(out@)[q] == el);
                        assert(!old_view.contains(el));
                        assert(old_view[p] != el);
                    }
                }
                old_view.lemma_push_to_set_commute(el);
            }
        } else {
            proof {
                assert(toks_view(out@).to_set().contains(el));
                assert(tv.take(i as int).to_set().insert(el) =~= tv.take(i as int).to_set());
            }
        }
        i = i + 1;
    }
    proof {
        assert(tv.take(tv.len() as int) =~= tv);
    }
    out
}

/// Jaccard similarity never leaves the unit interval, and equal token sets
/// are fully similar.
pub proof fn lemma_jaccard_bounds(a: Set<Seq<char>>, b: Set<Seq<char>>)
    requires
        a.finite(),
        b.finite(),
    ensures
        0 <= jaccard_units(a, b) <= SCALE,
        a == b ==> jaccard_units(a, b) == SCALE,
{
    let inter = a.intersect(b);
    let uni = a.union(b);
    assert(inter.subset_of(uni));
    vstd::set_lib::lemma_len_subset(inter, uni);
    if uni.len() == 0 {
    } else {
        let x = inter.len() as int;
        let y = uni.len() as int;
        vstd::arithmetic::div_mod::lemma_div_pos_is_pos(x * SCALE, y);
        vstd::arithmetic::mul::lemma_mul_inequality(x, y, SCALE as int);
        vstd::arithmetic::div_mod::lemma_div_is_ordered(x * SCALE, y * SCALE, y);
        vstd::arithmetic::div_mod::lemma_div_multiples_vanish(SCALE as int, y);
        assert(y * SCALE == SCALE * y) by (nonlinear_arith);
        if a == b {
            assert(inter =~= a);
            assert(uni =~= a);
            assert(x == y);
        }
    }
}

/// Both token sets of a pair of labels are finite.
proof fn lemma_token_sets_finite(a: Seq<char>, b: Seq<char>)
    ensures
        token_set(a).finite(),
        token_set(b).finite(),
{
    broadcast use vstd::seq_lib::seq_to_set_is_finite;

}

/// Similarity lies in the unit interval, and labels with equal token sets
/// are fully similar.
pub proof fn lemma_similarity_bounds(a: Seq<char>, b: Seq<char>)
    ensures
        0 <= sim_spec(a, b) <= SCALE,
        token_set(a) == token_set(b) ==> sim_spec(a, b) == SCALE,
{
    lemma_token_sets_finite(a, b);
    lemma_jaccard_bounds(token_set(a), token_set(b));
}

/// Similarity and matching are symmetric in their two labels.
pub proof fn lemma_match_symmetric(a: Seq<char>, b: Seq<char>)
    ensures
        sim_spec(a, b) == sim_spec(b, a),
        match_spec(a, b) == match_spec(b, a),
{
    let sa = token_set(a);
    let sb = token_set(b);
    assert(sa.intersect(sb) =~= sb.intersect(sa));
    assert(sa.union(sb) =~= sb.union(sa));
}

/// Labels with equal canonical forms have equal token sets, so a match of
/// either kind implies similarity at or above the threshold.
pub proof fn lemma_match_implies_high_similarity(a: Seq<char>, b: Seq<char>)
    ensures
        match_spec(a, b) ==> sim_spec(a, b) >= SIM_THRESHOLD as int,
{
    if match_spec(a, b) && norm_spec(a) == norm_spec(b) {
        lemma_retokenize_canon(lower_of(a));
        lemma_retokenize_canon(lower_of(b));
        assert(tokens(a) == tokens(b));
        lemma_similarity_bounds(a, b);
    }
}

// ---------------------------------------------------------------------------
// The matcher
// ---------------------------------------------------------------------------

/// Among `cs`, the candidate at `i` matches `t` and carries the strictly
/// highest similarity seen up to it; later candidates do not beat it.
pub open spec fn is_best_at(t: &MarketOdds, cs: Seq<MarketOdds>, i: int) -> bool {
    &&& 0 <= i < cs.len()
    &&& match_spec(t.outcome@, cs[i].outcome@)
    &&& forall|j: int|
        0 <= j < i && match_spec(t.outcome@, (#[trigger] cs[j]).outcome@)
            ==> sim_spec(t.outcome@, cs[j].outcome@) < sim_spec(t.outcome@, cs[i].outcome@)
    &&& forall|j: int|
        i < j < cs.len() && match_spec(t.outcome@, (#[trigger] cs[j]).outcome@)
            ==> sim_spec(t.outcome@, cs[j].outcome@) <= sim_spec(t.outcome@, cs[i].outcome@)
}

/// Decides whether two outcome labels from different venues denote the same
/// real-world outcome.
pub struct OutcomeMatcher {
    similarity_threshold: i128,
}

impl OutcomeMatcher {
    /// The matcher carries the fixed similarity threshold.
    pub closed spec fn wf(&self) -> bool {
        self.similarity_threshold == SIM_THRESHOLD
    }

    /// A matcher with the fixed similarity threshold.
    pub fn new() -> (r: Self)
        ensures
            r.wf(),
    {
        OutcomeMatcher { similarity_threshold: SIM_THRESHOLD }
    }

    /// The canonical form of a label: lower-cased, every non-alphanumeric
    /// character a separator, separators collapsed to single spaces, no
    /// leading or trailing space.
    pub fn normalize(&self, s: &str) -> (r: String)
        ensures
            r@ == norm_spec(s@),
    {
        let toks = tokenize(s);
        let joined = join_with_spaces(&toks);
        chars_to_string(joined)
    }

    /// Jaccard similarity of the two labels' token sets, in micro-units:
    /// always within `[0, 1]`, and exactly 1 for equal token sets.
    pub fn similarity(&self, a: &str, b: &str) -> (r: Dec)
        ensures
            r.units == sim_spec(a@, b@),
            0 <= r.units <= SCALE,
            token_set(a@) == token_set(b@) ==> r.units == SCALE,
    {
        proof {
            lemma_similarity_bounds(a@, b@);
        }
        let ta = tokenize(a);
        let ua = dedup_tokens(&ta);
        let tb = tokenize(b);
        let ub = dedup_tokens(&tb);
        let ghost aset = token_set(a@);
        let ghost bset = token_set(b@);
        let ghost ubv = toks_view(ub@);
        proof {
            broadcast use vstd::seq_lib::seq_to_set_is_finite;

            toks_view(ua@).unique_seq_to_set();
            toks_view(ub@).unique_seq_to_set();
        }
        let mut inter: usize = 0;
        let mut extra: usize = 0;
        let ghost mut iset: Set<Seq<char>> = aset.intersect(Set::empty());
        let ghost mut uset: Set<Seq<char>> = aset;
        let mut j: usize = 0;
        proof {
            assert(ubv.take(0) =~= Seq::<Seq<char>>::empty());
            assert(iset =~= aset.intersect(ubv.take(0).to_set()));
            assert(uset =~= aset.union(ubv.take(0).to_set()));
            assert(iset =~= Set::<Seq<char>>::empty());
        }
        while j < ub.len()
            invariant
                0 <= j <= ubv.len(),
                ubv == toks_view(ub@),
                ubv.len() == ub@.len(),
                forall|m: int| 0 <= m < ub@.len() ==> ubv[m] == ub@[m]@,
                ubv.no_duplicates(),
                aset == token_set(a@),
                aset.finite(),
                aset.len() == toks_view(ua@).to_set().len(),
                toks_view(ua@).to_set() == aset,
                iset == aset.intersect(ubv.take(j as int).to_set()),
                uset == aset.union(ubv.take(j as int).to_set()),
                iset.finite(),
                uset.finite(),
                inter == iset.len(),
                uset.len() == toks_view(ua@).len() + extra,
                inter <= j,
                extra <= j,
            decreases ubv.len() - j,
        {
            let ghost el = ubv[j as int];
            proof {
                assert(ubv.take(j + 1) =~= ubv.take(j as int).push(el));
                ubv.take(j as int).lemma_push_to_set_commute(el);
                // a fresh element of `ub` is not among the first j
                assert(!ubv.take(j as int).contains(el)) by {
                    if ubv.take(j as int).contains(el) {
                        let w = choose|w: int| 0 <= w < j && ubv.take(j as int)[w] == el;
                        assert(ubv[w] == ubv[j as int]);
                    }
                }
                assert(!ubv.take(j as int).to_set().contains(el));
            }
            if contains_token(&ua, &ub[j]) {
                proof {
                    assert(aset.contains(el));
                    assert(!iset.contains(el));
                    assert(iset.insert(el) =~= aset.intersect(ubv.take(j + 1).to_set()));
                    assert(uset.insert(el) =~= uset);
                    assert(uset =~= aset.union(ubv.take(j + 1).to_set()));
                    iset = iset.insert(el);
                }
                inter = inter + 1;
            } else {
                proof {
                    assert(!aset.contains(el));
                    assert(!uset.contains(el));
                    assert(iset =~= aset.intersect(ubv.take(j + 1).to_set()));
                    uset = uset.insert(el);
                    assert(uset =~= aset.union(ubv.take(j + 1).to_set()));
                }
                extra = extra + 1;
            }
            j = j + 1;
        }
        proof {
            assert(ubv.take(ubv.len() as int) =~= ubv);
            assert(iset == aset.intersect(bset));
            assert(uset == aset.union(bset));
        }
        let union_count: u128 = (ua.len() as u128) + (extra as u128);
        if union_count == 0 {
            proof {
                lemma_jaccard_bounds(aset, bset);
            }
            Dec { units: SCALE }
        } else {
            let num: u128 = (inter as u128) * (SCALE as u128);
            let q: u128 = num / union_count;
            proof {
                let x = iset.len() as int;
                let y = uset.len() as int;
                assert(iset.subset_of(uset));
                vstd::set_lib::lemma_len_subset(iset, uset);
                vstd::arithmetic::mul::lemma_mul_inequality(x, y, SCALE as int);
                vstd::arithmetic::div_mod::lemma_div_is_ordered(x * SCALE, y * SCALE, y);
                vstd::arithmetic::div_mod::lemma_div_multiples_vanish(SCALE as int, y);
                assert(y * SCALE == SCALE * y) by (nonlinear_arith);
                vstd::arithmetic::div_mod::lemma_div_pos_is_pos(x * SCALE, y);
            }
            Dec { units: q as i128 }
        }
    }

    /// Whether the two labels denote the same outcome: equal canonical
    /// forms, or similarity at or above the fixed threshold.
    pub fn outcomes_match(&self, a: &str, b: &str) -> (r: bool)
        requires
            self.wf(),
        ensures
            r == match_spec(a@, b@),
    {
        let ta = tokenize(a);
        let na = join_with_spaces(&ta);
        let tb = tokenize(b);
        let nb = join_with_spaces(&tb);
        if vec_char_eq(&na, &nb) {
            return true;
        }
        let sim = self.similarity(a, b);
        sim.units >= self.similarity_threshold
    }

    /// The matching candidate most similar to the target, earliest seen
    /// winning ties; `None` exactly when no candidate matches at all.
    pub fn find_best_match(&self, target: &MarketOdds, candidates: &Vec<MarketOdds>) -> (r: Option<
        MarketOdds,
    >)
        requires
            self.wf(),
        ensures
            match r {
                Some(c) => exists|i: int|
                    #[trigger] is_best_at(target, candidates@, i) && c == candidates@[i],
                None => forall|i: int|
                    0 <= i < candidates@.len() ==> !match_spec(
                        target.outcome@,
                        (#[trigger] candidates@[i]).outcome@,
                    ),
            },
    {
        let mut best: Option<MarketOdds> = None;
        let mut best_score: i128 = 0;
        let ghost mut best_idx: int = 0;
        let mut i: usize = 0;
        while i < candidates.len()
            invariant
                self.wf(),
                0 <= i <= candidates@.len(),
                best is None ==> best_score == 0 && forall|j: int|
                    0 <= j < i ==> !match_spec(target.outcome@, (#[trigger] candidates@[j]).outcome@),
                best matches Some(c) ==> {
                    &&& 0 <= best_idx < i
                    &&& match_spec(target.outcome@, candidates@[best_idx].outcome@)
                    &&& c == candidates@[best_idx]
                    &&& best_score == sim_spec(target.outcome@, candidates@[best_idx].outcome@)
                    &&& best_score > 0
                    &&& forall|j: int|
                        0 <= j < best_idx && match_spec(target.outcome@, (#[trigger] candidates@[j]).outcome@)
                            ==> sim_spec(target.outcome@, candidates@[j].outcome@) < best_score
                    &&& forall|j: int|
                        best_idx < j < i && match_spec(target.outcome@, (#[trigger] candidates@[j]).outcome@)
                            ==> sim_spec(target.outcome@, candidates@[j].outcome@) <= best_score
                },
            decreases candidates@.len() - i,
        {
            let cand = &candidates[i];
            if self.outcomes_match(target.outcome.as_str(), cand.outcome.as_str()) {
                proof {
                    lemma_match_implies_high_similarity(target.outcome@, cand.outcome@);
                }
                let score = self.similarity(target.outcome.as_str(), cand.outcome.as_str());
                if score.units > best_score {
                    best_score = score.units;
                    best = Some(cand.clone());
                    proof {
                        best_idx = i as int;
                    }
                }
            }
            i = i + 1;
        }
        proof {
            if best is Some {
                assert(is_best_at(target, candidates@, best_idx));
            }
        }
        best
    }
}

impl Default for OutcomeMatcher {
    /// The same matcher as `new` builds.
    fn default() -> (r: Self)
        ensures
            r.wf(),
    {
        OutcomeMatcher::new()
    }
}

} // verus!
