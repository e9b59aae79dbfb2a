//! Literal substring search and replacement over character sequences.
//!
//! All executable code works on `Vec<char>`, whose view is the `Seq<char>`
//! that the specifications speak about.

use vstd::prelude::*;

verus! {

/// The pattern `p` occurs in `s` starting at position `i`.
pub open spec fn match_at(s: Seq<char>, p: Seq<char>, i: int) -> bool {
    &&& 0 <= i
    &&& i + p.len() <= s.len()
    &&& s.subrange(i, i + p.len()) == p
}

/// The pattern `p` occurs somewhere in `s`.
pub open spec fn contains_seq(s: Seq<char>, p: Seq<char>) -> bool {
    exists|i: int| match_at(s, p, i)
}

/// The result of replacing, left to right and without overlap, every
/// occurrence of `p` in `s` by `r`. Replaced text is not rescanned.
/// An empty pattern replaces nothing.
pub open spec fn replaced(s: Seq<char>, p: Seq<char>, r: Seq<char>) -> Seq<char>
    decreases s.len(),
{
    if p.len() == 0 || s.len() < p.len() {
        s
    } else if s.subrange(0, p.len() as int) == p {
        r + replaced(s.skip(p.len() as int), p, r)
    } else {
        seq![s[0]] + replaced(s.skip(1), p, r)
    }
}

/// Whether `pat` occurs in `text` starting at index `i`.
fn is_match_at(text: &Vec<char>, pat: &Vec<char>, i: usize) -> (b: bool)
    requires
        i <= text.len(),
    ensures
        b == match_at(text@, pat@, i as int),
{
    if text.len() - i < pat.len() {
        return false;
    }
    let mut j: usize = 0;
    while j < pat.len()
        invariant
            i + pat.len() <= text.len(),
            j <= pat.len(),
            forall|k: int| 0 <= k < j ==> text@[i + k] == pat@[k],
        decreases pat.len() - j,
    {
        if text[i + j] != pat[j] {
            assert(text@.subrange(i as int, i + pat@.len())[j as int] != pat@[j as int]);
            return false;
        }
        j += 1;
    }
    assert(text@.subrange(i as int, i + pat@.len()) =~= pat@);
    true
}

/// Whether `pat` occurs anywhere in `text`.
pub fn contains_pattern(text: &Vec<char>, pat: &Vec<char>) -> (b: bool)
    ensures
        b == contains_seq(text@, pat@),
{
    if pat.len() > text.len() {
        return false;
    }
    if pat.len() == 0 {
        assert(text@.subrange(0, 0) =~= pat@);
        assert(match_at(text@, pat@, 0));
        return true;
    }
    let mut i: usize = 0;
    while i <= text.len() - pat.len()
        invariant
            0 < pat.len() <= text.len(),
            i <= text.len() - pat.len() + 1,
            forall|j: int| 0 <= j < i ==> !match_at(text@, pat@, j),
        decreases text.len() - pat.len() + 1 - i,
    {
        if is_match_at(text, pat, i) {
            return true;
        }
        i += 1;
    }
    false
}

/// Unfolding `replaced` at a position where the pattern matches: the
/// replacement is emitted and the match is skipped without rescanning.
proof fn lemma_replaced_match_step(s: Seq<char>, p: Seq<char>, r: Seq<char>, i: int)
    requires
        0 < p.len(),
        match_at(s, p, i),
    ensures
        replaced(s.skip(i), p, r) == r + replaced(s.skip(i + p.len()), p, r),
{
    let t = s.skip(i);
    assert(t.subrange(0, p.len() as int) =~= s.subrange(i, i + p.len()));
    assert(t.skip(p.len() as int) =~= s.skip(i + p.len()));
}

/// Unfolding `replaced` at a position where the pattern does not match:
/// the character there is kept as it is.
proof fn lemma_replaced_miss_step(s: Seq<char>, p: Seq<char>, r: Seq<char>, i: int)
    requires
        0 < p.len(),
        0 <= i < s.len(),
        !match_at(s, p, i),
    ensures
        replaced(s.skip(i), p, r) == seq![s[i]] + replaced(s.skip(i + 1), p, r),
{
    let t = s.skip(i);
    assert(t.skip(1) =~= s.skip(i + 1));
    if t.len() < p.len() {
        assert(t =~= seq![s[i]] + s.skip(i + 1));
        assert(s.skip(i + 1).len() < p.len());
    } else {
        assert(t.subrange(0, p.len() as int) =~= s.subrange(i, i + p.len()));
        assert(s.subrange(i, i + p.len()) != p);
    }
}

/// Appends every character of `piece` to `out`.
fn push_all(out: &mut Vec<char>, piece: &Vec<char>)
    ensures
        final(out)@ == old(out)@ + piece@,
{
    assert(out@ =~= old(out)@ + piece@.subrange(0, 0));
    let mut k: usize = 0;
    while k < piece.len()
        invariant
            k <= piece.len(),
            out@ == old(out)@ + piece@.subrange(0, k as int),
        decreases piece.len() - k,
    {
        out.push(piece[k]);
        assert(old(out)@ + piece@.subrange(0, k as int) + seq![piece@[k as int]] =~= old(
            out,
        )@ + piece@.subrange(0, k + 1));
        k += 1;
    }
    assert(piece@.subrange(0, piece@.len() as int) =~= piece@);
}

/// Replaces, left to right and without overlap, every occurrence of `pat`
/// in `text` by `rep`; replaced text is not rescanned. An empty pattern
/// leaves the text unchanged.
pub fn replace_all(text: &Vec<char>, pat: &Vec<char>, rep: &Vec<char>) -> (out: Vec<char>)
    ensures
        out@ == replaced(text@, pat@, rep@),
{
    let mut out: Vec<char> = Vec::new();
    if pat.len() == 0 {
        push_all(&mut out, text);
        return out;
    }
    let ghost s = text@;
    let mut i: usize = 0;
    assert(s.skip(0) =~= s);
    while i < text.len()
        invariant
            0 < pat.len(),
            i <= text.len(),
            s == text@,
            replaced(s, pat@, rep@) == out@ + replaced(s.skip(i as int), pat@, rep@),
        decreases text.len() - i,
    {
        if is_match_at(text, pat, i) {
            let ghost prev = out@;
            push_all(&mut out, rep);
            proof {
                lemma_replaced_match_step(s, pat@, rep@, i as int);
                assert(prev + (rep@ + replaced(s.skip(i + pat@.len()), pat@, rep@)) =~= out@
                    + replaced(s.skip(i + pat@.len()), pat@, rep@));
            }
            i += pat.len();
        } else {
            let c = text[i];
            out.push(c);
            proof {
                lemma_replaced_miss_step(s, pat@, rep@, i as int);
                let ghost prev = out@.drop_last();
                assert(prev + (seq![s[i as int]] + replaced(s.skip(i + 1), pat@, rep@)) =~= out@
                    + replaced(s.skip(i + 1), pat@, rep@));
            }
            i += 1;
        }
    }
    assert(s.skip(s.len() as int) =~= Seq::<char>::empty());
    out
}

/// A pattern that occurs nowhere in `s` is replaced nowhere: the text
/// comes back unchanged.
pub proof fn lemma_replaced_no_match(s: Seq<char>, p: Seq<char>, r: Seq<char>)
    requires
        !contains_seq(s, p),
    ensures
        replaced(s, p, r) == s,
    decreases s.len(),
{
    if p.len() == 0 {
        assert(s.subrange(0, 0) =~= p);
        assert(match_at(s, p, 0));
    } else if s.len() < p.len() {
    } else {
        assert(!match_at(s, p, 0));
        assert(s.subrange(0, p.len() as int) != p);
        assert forall|i: int| !match_at(s.skip(1), p, i) by {
            if match_at(s.skip(1), p, i) {
                assert(s.subrange(i + 1, i + 1 + p.len()) =~= s.skip(1).subrange(i, i + p.len()));
                assert(match_at(s, p, i + 1));
            }
        }
        lemma_replaced_no_match(s.skip(1), p, r);
        assert(seq![s[0]] + s.skip(1) =~= s);
    }
}

} // verus!
