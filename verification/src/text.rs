//! Literal text search and substitution.
//!
//! Text is modelled as a sequence of characters. Nothing here knows about
//! markup or URLs: a pattern matches wherever its characters stand in a row.

use vstd::prelude::*;
use vstd::std_specs::iter::IteratorSpec;
use vstd::string::*;

verus! {

broadcast use vstd::string::group_string_axioms;

/// `pat` stands in `text` at index `at`.
pub open spec fn occurs_at(text: Seq<char>, pat: Seq<char>, at: int) -> bool {
    &&& 0 <= at
    &&& at + pat.len() <= text.len()
    &&& text.subrange(at, at + pat.len()) == pat
}

/// `pat` stands somewhere in `text`.
pub open spec fn occurs_in(text: Seq<char>, pat: Seq<char>) -> bool {
    exists|at: int| occurs_at(text, pat, at)
}

/// `text` begins with `pat`.
pub open spec fn starts_with(text: Seq<char>, pat: Seq<char>) -> bool {
    occurs_at(text, pat, 0)
}

/// `text` ends with `pat`.
pub open spec fn ends_with(text: Seq<char>, pat: Seq<char>) -> bool {
    occurs_at(text, pat, text.len() - pat.len())
}

/// `sep` before every character of `text` and once more at the end.
pub open spec fn interleave(text: Seq<char>, sep: Seq<char>) -> Seq<char>
    decreases text.len(),
{
    if text.len() == 0 {
        sep
    } else {
        sep + seq![text[0]] + interleave(text.skip(1), sep)
    }
}

/// `text` with every occurrence of `from` replaced by `to`.
///
/// Occurrences are taken from the left and do not overlap: after a match the
/// search goes on behind it, and what was put in is not searched again. An
/// empty `from` occurs before every character and at the end.
pub open spec fn replace_all(text: Seq<char>, from: Seq<char>, to: Seq<char>) -> Seq<char>
    decreases text.len(),
{
    if from.len() == 0 {
        interleave(text, to)
    } else if text.len() < from.len() {
        text
    } else if occurs_at(text, from, 0) {
        to + replace_all(text.skip(from.len() as int), from, to)
    } else {
        seq![text[0]] + replace_all(text.skip(1), from, to)
    }
}

/// An occurrence in a tail of `text` is an occurrence in `text`, shifted.
pub proof fn lemma_occurs_at_skip(text: Seq<char>, pat: Seq<char>, start: int, at: int)
    requires
        0 <= start <= text.len(),
    ensures
        occurs_at(text.skip(start), pat, at) <==> (0 <= at && occurs_at(text, pat, start + at)),
{
    if 0 <= at && start + at + pat.len() <= text.len() {
        assert(text.skip(start).subrange(at, at + pat.len()) =~= text.subrange(
            start + at,
            start + at + pat.len(),
        ));
    }
}

/// Appends one character to a string.
///
/// Trusted: calls `String::push`, which std documents as appending the given
/// character to the end of the string.
#[verifier::external_body]
fn push_char(s: &mut String, c: char)
    ensures
        final(s)@ == old(s)@.push(c),
{
    s.push(c)
}

/// The characters of `s`, in order.
pub fn chars_of(s: &str) -> (v: Vec<char>)
    ensures
        v@ == s@,
{
    let mut v: Vec<char> = Vec::new();
    let mut it = s.chars();
    loop
        invariant
            v@ + it.remaining() == s@,
            it.obeys_prophetic_iter_laws(),
            it.decrease() is Some,
        ensures
            v@ == s@,
        decreases it.decrease()->0,
    {
        let ghost before = it;
        match it.next() {
            Some(c) => {
                assert(before.remaining() =~= seq![c] + it.remaining());
                assert(v@.push(c) + it.remaining() =~= v@ + before.remaining());
                v.push(c);
            },
            None => {
                assert(v@ + it.remaining() =~= v@);
                break ;
            },
        }
    }
    v
}

/// The string made of the characters of `v`, in order.
pub fn string_of(v: &Vec<char>) -> (s: String)
    ensures
        s@ == v@,
{
    let mut s = String::new();
    let mut i: usize = 0;
    while i < v.len()
        invariant
            i <= v.len(),
            s@ == v@.take(i as int),
        decreases v.len() - i,
    {
        push_char(&mut s, v[i]);
        assert(v@.take(i as int).push(v@[i as int]) =~= v@.take(i + 1));
        i += 1;
    }
    assert(v@.take(v.len() as int) =~= v@);
    s
}

/// Tells whether `pat` stands in `text` at index `at`.
pub fn matches_at(text: &Vec<char>, pat: &Vec<char>, at: usize) -> (r: bool)
    ensures
        r == occurs_at(text@, pat@, at as int),
{
    if pat.len() > text.len() || at > text.len() - pat.len() {
        return false;
    }
    let mut k: usize = 0;
    while k < pat.len()
        invariant
            k <= pat.len(),
            at + pat.len() <= text.len(),
            forall|j: int| 0 <= j < k ==> text@[at + j] == pat@[j],
        decreases pat.len() - k,
    {
        if text[at + k] != pat[k] {
            assert(text@.subrange(at as int, at + pat.len())[k as int] == text@[at + k]);
            return false;
        }
        k += 1;
    }
    assert(text@.subrange(at as int, at + pat.len()) =~= pat@);
    true
}

/// The index of the first occurrence of `pat` in `text`, if there is one.
pub fn find_chars(text: &Vec<char>, pat: &Vec<char>) -> (r: Option<usize>)
    ensures
        r is Some <==> occurs_in(text@, pat@),
        r matches Some(at) ==> occurs_at(text@, pat@, at as int) && forall|j: int|
            0 <= j < at ==> !occurs_at(text@, pat@, j),
{
    if pat.len() > text.len() {
        return None;
    }
    let last: usize = text.len() - pat.len();
    let mut at: usize = 0;
    loop
        invariant
            last == text.len() - pat.len(),
            at <= last,
            forall|j: int| 0 <= j < at ==> !occurs_at(text@, pat@, j),
        decreases last - at,
    {
        if matches_at(text, pat, at) {
            return Some(at);
        }
        if at == last {
            return None;
        }
        at += 1;
    }
}

/// Tells whether `text` ends with `pat`.
pub fn ends_with_chars(text: &Vec<char>, pat: &Vec<char>) -> (r: bool)
    ensures
        r == ends_with(text@, pat@),
{
    if pat.len() > text.len() {
        false
    } else {
        matches_at(text, pat, text.len() - pat.len())
    }
}

/// Appends the characters of `src` to `out`.
fn append_chars(out: &mut Vec<char>, src: &Vec<char>)
    ensures
        final(out)@ == old(out)@ + src@,
{
    let mut i: usize = 0;
    while i < src.len()
        invariant
            i <= src.len(),
            out@ == old(out)@ + src@.take(i as int),
        decreases src.len() - i,
    {
        assert(src@.take(i as int).push(src@[i as int]) =~= src@.take(i + 1));
        out.push(src[i]);
        i += 1;
    }
    assert(src@.take(src.len() as int) =~= src@);
}

/// Replaces every occurrence of `from` in `text` by `to`.
pub fn replace_chars(text: &Vec<char>, from: &Vec<char>, to: &Vec<char>) -> (out: Vec<char>)
    ensures
        out@ == replace_all(text@, from@, to@),
{
    let mut out: Vec<char> = Vec::new();
    let mut i: usize = 0;
    assert(text@.skip(0) =~= text@);
    if from.len() == 0 {
        assert(out@ + interleave(text@, to@) =~= interleave(text@, to@));
        while i < text.len()
            invariant
                i <= text.len(),
                out@ + interleave(text@.skip(i as int), to@) == interleave(text@, to@),
            decreases text.len() - i,
        {
            proof {
                let rest = text@.skip(i as int);
                assert(rest[0] == text@[i as int]);
                assert(rest.skip(1) =~= text@.skip(i + 1));
                assert((out@ + to@).push(text@[i as int]) + interleave(rest.skip(1), to@) =~= out@
                    + interleave(rest, to@));
            }
            append_chars(&mut out, to);
            out.push(text[i]);
            i += 1;
        }
        assert(out@ + to@ =~= out@ + interleave(text@.skip(i as int), to@));
        append_chars(&mut out, to);
        return out;
    }
    assert(out@ + replace_all(text@, from@, to@) =~= replace_all(text@, from@, to@));
    while i < text.len()
        invariant
            i <= text.len(),
            from.len() > 0,
            out@ + replace_all(text@.skip(i as int), from@, to@) == replace_all(text@, from@, to@),
        decreases text.len() - i,
    {
        let ghost rest = text@.skip(i as int);
        proof {
            lemma_occurs_at_skip(text@, from@, i as int, 0);
        }
        if matches_at(text, from, i) {
            proof {
                assert(rest.skip(from.len() as int) =~= text@.skip(i + from.len()));
                assert(out@ + to@ + replace_all(rest.skip(from.len() as int), from@, to@) =~= out@
                    + replace_all(rest, from@, to@));
            }
            append_chars(&mut out, to);
            i += from.len();
        } else {
            proof {
                assert(rest[0] == text@[i as int]);
                assert(rest.skip(1) =~= text@.skip(i + 1));
                if rest.len() < from.len() {
                    assert(seq![rest[0]] + rest.skip(1) =~= rest);
                }
                assert(out@.push(text@[i as int]) + replace_all(rest.skip(1), from@, to@) =~= out@
                    + replace_all(rest, from@, to@));
            }
            out.push(text[i]);
            i += 1;
        }
    }
    assert(out@ + replace_all(text@.skip(i as int), from@, to@) =~= out@);
    out
}

/// Tells whether `pat` stands somewhere in `text`.
pub fn contains_text(text: &str, pat: &str) -> (r: bool)
    ensures
        r == occurs_in(text@, pat@),
{
    find_chars(&chars_of(text), &chars_of(pat)).is_some()
}

/// Replaces every occurrence of `from` in `text` by `to`.
pub fn replace_text(text: &str, from: &str, to: &str) -> (out: String)
    ensures
        out@ == replace_all(text@, from@, to@),
{
    string_of(&replace_chars(&chars_of(text), &chars_of(from), &chars_of(to)))
}

/// Tells whether two texts are the same, character by character.
pub fn same_text(a: &str, b: &str) -> (r: bool)
    ensures
        r == (a@ == b@),
{
    let x = chars_of(a);
    let y = chars_of(b);
    if x.len() != y.len() {
        return false;
    }
    let r = matches_at(&x, &y, 0);
    assert(x@.subrange(0, x@.len() as int) =~= x@);
    r
}

/// What occurs in a text occurs in the text with something put before it.
pub proof fn lemma_occurs_behind(front: Seq<char>, text: Seq<char>, pat: Seq<char>)
    requires
        occurs_in(text, pat),
    ensures
        occurs_in(front + text, pat),
{
    let at = choose|at: int| occurs_at(text, pat, at);
    assert((front + text).subrange(front.len() + at, front.len() + at + pat.len()) =~= text.subrange(
        at,
        at + pat.len(),
    ));
    assert(occurs_at(front + text, pat, front.len() + at));
}

/// Where the pattern does not occur before index `k`, the first `k`
/// characters come through a replacement as they are.
pub proof fn lemma_replace_keeps_prefix(text: Seq<char>, from: Seq<char>, to: Seq<char>, k: int)
    requires
        from.len() > 0,
        0 <= k <= text.len(),
        forall|j: int| 0 <= j < k ==> !occurs_at(text, from, j),
    ensures
        replace_all(text, from, to) == text.take(k) + replace_all(text.skip(k), from, to),
    decreases k,
{
    if k == 0 {
        assert(text.skip(0) =~= text);
        assert(text.take(0) + text =~= text);
    } else if text.len() < from.len() {
        assert(text.take(k) + text.skip(k) =~= text);
    } else {
        let rest = text.skip(1);
        assert forall|j: int| 0 <= j < k - 1 implies !occurs_at(rest, from, j) by {
            lemma_occurs_at_skip(text, from, 1, j);
        }
        lemma_replace_keeps_prefix(rest, from, to, k - 1);
        assert(rest.skip(k - 1) =~= text.skip(k));
        assert(seq![text[0]] + rest.take(k - 1) =~= text.take(k));
        assert(seq![text[0]] + (rest.take(k - 1) + replace_all(text.skip(k), from, to))
            =~= text.take(k) + replace_all(text.skip(k), from, to));
    }
}

/// Where the pattern occurs, the replacement holds what was put in for it.
pub proof fn lemma_replace_puts_in(text: Seq<char>, from: Seq<char>, to: Seq<char>)
    requires
        from.len() > 0,
        occurs_in(text, from),
    ensures
        occurs_in(replace_all(text, from, to), to),
    decreases text.len(),
{
    let at = choose|at: int| occurs_at(text, from, at);
    let out = replace_all(text, from, to);
    if occurs_at(text, from, 0) {
        assert(out.subrange(0, to.len() as int) =~= to);
        assert(occurs_at(out, to, 0));
    } else {
        let rest = text.skip(1);
        lemma_occurs_at_skip(text, from, 1, at - 1);
        assert(occurs_at(rest, from, at - 1));
        lemma_replace_puts_in(rest, from, to);
        lemma_occurs_behind(seq![text[0]], replace_all(rest, from, to), to);
    }
}

/// A word that no occurrence of the pattern touches comes through a
/// replacement.
pub proof fn lemma_replace_keeps_apart(
    text: Seq<char>,
    from: Seq<char>,
    to: Seq<char>,
    word: Seq<char>,
    at: int,
)
    requires
        from.len() > 0,
        occurs_at(text, word, at),
        forall|j: int| #[trigger]
            occurs_at(text, from, j) ==> j + from.len() <= at || at + word.len() <= j,
    ensures
        occurs_in(replace_all(text, from, to), word),
    decreases at,
{
    let out = replace_all(text, from, to);
    if at == 0 {
        lemma_replace_keeps_prefix(text, from, to, word.len() as int);
        assert(out.subrange(0, word.len() as int) =~= text.subrange(0, word.len() as int));
        assert(occurs_at(out, word, 0));
    } else if text.len() < from.len() {
    } else if occurs_at(text, from, 0) {
        let step = from.len() as int;
        let rest = text.skip(step);
        lemma_occurs_at_skip(text, word, step, at - step);
        assert forall|j: int| #[trigger] occurs_at(rest, from, j) implies j + from.len() <= at
            - step || at - step + word.len() <= j by {
            lemma_occurs_at_skip(text, from, step, j);
        }
        lemma_replace_keeps_apart(rest, from, to, word, at - step);
        lemma_occurs_behind(to, replace_all(rest, from, to), word);
    } else {
        let rest = text.skip(1);
        lemma_occurs_at_skip(text, word, 1, at - 1);
        assert forall|j: int| #[trigger] occurs_at(rest, from, j) implies j + from.len() <= at - 1
            || at - 1 + word.len() <= j by {
            lemma_occurs_at_skip(text, from, 1, j);
        }
        lemma_replace_keeps_apart(rest, from, to, word, at - 1);
        lemma_occurs_behind(seq![text[0]], replace_all(rest, from, to), word);
    }
}

} // verus!
