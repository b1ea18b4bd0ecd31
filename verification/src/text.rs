//! Operations on text, stated over sequences of characters.

use vstd::prelude::*;
use vstd::string::*;

verus! {

/// `pattern` stands in `text` at position `at`.
pub open spec fn occurs_at(text: Seq<char>, pattern: Seq<char>, at: int) -> bool {
    &&& 0 <= at
    &&& at + pattern.len() <= text.len()
    &&& text.subrange(at, at + pattern.len()) == pattern
}

/// `pattern` stands somewhere in `text`.
pub open spec fn occurs_in(text: Seq<char>, pattern: Seq<char>) -> bool {
    exists|at: int| occurs_at(text, pattern, at)
}

/// `text` opens with `prefix`.
pub open spec fn begins_with(text: Seq<char>, prefix: Seq<char>) -> bool {
    occurs_at(text, prefix, 0)
}

/// `text` with every occurrence of `from` replaced by `to`, reading from the left and never
/// looking again at what a replacement consumed. An empty `from` occurs nowhere.
pub open spec fn replaced(text: Seq<char>, from: Seq<char>, to: Seq<char>) -> Seq<char>
    decreases text.len(),
{
    if from.len() == 0 || text.len() < from.len() {
        text
    } else if begins_with(text, from) {
        to + replaced(text.skip(from.len() as int), from, to)
    } else {
        seq![text[0]] + replaced(text.skip(1), from, to)
    }
}

/// The character that writes the digit `d`.
pub open spec fn digit(d: nat) -> char {
    if d == 0 {
        '0'
    } else if d == 1 {
        '1'
    } else if d == 2 {
        '2'
    } else if d == 3 {
        '3'
    } else if d == 4 {
        '4'
    } else if d == 5 {
        '5'
    } else if d == 6 {
        '6'
    } else if d == 7 {
        '7'
    } else if d == 8 {
        '8'
    } else {
        '9'
    }
}

/// Whether `c` is one of the ten digits.
pub open spec fn is_decimal_digit(c: char) -> bool {
    '0' <= c <= '9'
}

/// `n` written in base ten, without sign and without leading zeros.
pub open spec fn decimal_digits(n: nat) -> Seq<char>
    decreases n,
{
    if n < 10 {
        seq![digit(n)]
    } else {
        decimal_digits(n / 10).push(digit(n % 10))
    }
}

/// `String::push`: the text afterwards is the text before with `c` as one more character at
/// its end.
#[verifier::external_body]
pub(crate) fn push_char(text: &mut String, c: char)
    ensures
        final(text)@ == old(text)@.push(c),
{
    text.push(c);
}

/// The characters of `text`, in order.
pub fn chars_of(text: &str) -> (chars: Vec<char>)
    ensures
        chars@ == text@,
{
    let mut chars: Vec<char> = Vec::new();
    let source = text.chars();
    for c in it: source
        invariant
            it.seq() == text@,
            chars@ == text@.take(it.index()),
    {
        chars.push(c);
    }
    chars
}

fn matches_at(text: &Vec<char>, pattern: &Vec<char>, at: usize) -> (found: bool)
    requires
        at + pattern.len() <= text.len(),
    ensures
        found == occurs_at(text@, pattern@, at as int),
{
    let mut k: usize = 0;
    while k < pattern.len()
        invariant
            k <= pattern.len(),
            at + pattern.len() <= text.len(),
            forall|j: int| 0 <= j < k ==> text@[at + j] == pattern@[j],
        decreases pattern.len() - k,
    {
        if text[at + k] != pattern[k] {
            assert(text@.subrange(at as int, at + pattern.len())[k as int] != pattern@[k as int]);
            return false;
        }
        k = k + 1;
    }
    assert(text@.subrange(at as int, at + pattern.len()) =~= pattern@);
    true
}

/// Whether `text` opens with `prefix`.
pub fn starts_with(text: &str, prefix: &str) -> (found: bool)
    ensures
        found == begins_with(text@, prefix@),
{
    let t = chars_of(text);
    let p = chars_of(prefix);
    if p.len() > t.len() {
        false
    } else {
        matches_at(&t, &p, 0)
    }
}

/// Whether the two texts hold the same characters.
pub fn same_text(left: &str, right: &str) -> (same: bool)
    ensures
        same == (left@ == right@),
{
    let l = chars_of(left);
    let r = chars_of(right);
    if l.len() != r.len() {
        false
    } else {
        let same = matches_at(&l, &r, 0);
        assert(l@.subrange(0, l@.len() as int) =~= l@);
        same
    }
}

/// Whether `pattern` stands somewhere in `text`.
pub fn contains(text: &str, pattern: &str) -> (found: bool)
    ensures
        found == occurs_in(text@, pattern@),
{
    let t = chars_of(text);
    let p = chars_of(pattern);
    if p.len() > t.len() {
        return false;
    }
    let last: usize = t.len() - p.len();
    let mut at: usize = 0;
    loop
        invariant
            t@ == text@,
            p@ == pattern@,
            last == t.len() - p.len(),
            at <= last,
            forall|j: int| 0 <= j < at ==> !occurs_at(t@, p@, j),
        decreases last - at,
    {
        if matches_at(&t, &p, at) {
            return true;
        }
        if at == last {
            return false;
        }
        at = at + 1;
    }
}

/// `text` with every occurrence of `from` replaced by `to`.
pub fn replace(text: &str, from: &str, to: &str) -> (out: String)
    ensures
        out@ == replaced(text@, from@, to@),
{
    let t = chars_of(text);
    let f = chars_of(from);
    if f.len() == 0 {
        return String::from_str(text);
    }
    let mut out = String::new();
    let mut at: usize = 0;
    assert(t@.skip(0) =~= t@);
    assert(out@ + replaced(t@, from@, to@) =~= replaced(t@, from@, to@));
    while f.len() <= t.len() - at
        invariant
            f.len() > 0,
            at <= t.len(),
            f@ == from@,
            t@ == text@,
            replaced(text@, from@, to@) == out@ + replaced(t@.skip(at as int), from@, to@),
        decreases t.len() - at,
    {
        let ghost rest = t@.skip(at as int);
        assert(rest.subrange(0, f@.len() as int) =~= t@.subrange(at as int, at + f@.len()));
        if matches_at(&t, &f, at) {
            out.append(to);
            at = at + f.len();
            assert(rest.skip(f@.len() as int) =~= t@.skip(at as int));
        } else {
            push_char(&mut out, t[at]);
            at = at + 1;
            assert(rest.skip(1) =~= t@.skip(at as int));
        }
    }
    while at < t.len()
        invariant
            at <= t.len(),
            t@ == text@,
            replaced(text@, from@, to@) == out@ + t@.skip(at as int),
        decreases t.len() - at,
    {
        assert(t@.skip(at as int) =~= seq![t@[at as int]] + t@.skip(at + 1));
        push_char(&mut out, t[at]);
        at = at + 1;
    }
    assert(t@.skip(at as int) =~= Seq::<char>::empty());
    out
}

fn digit_char(d: u64) -> (c: char)
    requires
        d < 10,
    ensures
        c == digit(d as nat),
{
    if d == 0 {
        '0'
    } else if d == 1 {
        '1'
    } else if d == 2 {
        '2'
    } else if d == 3 {
        '3'
    } else if d == 4 {
        '4'
    } else if d == 5 {
        '5'
    } else if d == 6 {
        '6'
    } else if d == 7 {
        '7'
    } else if d == 8 {
        '8'
    } else {
        '9'
    }
}

/// `n` written in base ten.
pub fn decimal(n: u64) -> (out: String)
    ensures
        out@ == decimal_digits(n as nat),
    decreases n,
{
    if n < 10 {
        let mut out = String::new();
        push_char(&mut out, digit_char(n));
        out
    } else {
        let mut out = decimal(n / 10);
        push_char(&mut out, digit_char(n % 10));
        out
    }
}

/// A number in base ten has at least one character, and all of them are digits.
pub proof fn lemma_decimal_digits(n: nat)
    ensures
        decimal_digits(n).len() >= 1,
        forall|i: int|
            0 <= i < decimal_digits(n).len() ==> is_decimal_digit(#[trigger] decimal_digits(n)[i]),
    decreases n,
{
    if n >= 10 {
        lemma_decimal_digits(n / 10);
    }
}

/// What stands between two other texts occurs in the whole.
pub proof fn lemma_middle_occurs(before: Seq<char>, middle: Seq<char>, after: Seq<char>)
    ensures
        occurs_in(before + middle + after, middle),
{
    let whole = before + middle + after;
    assert(whole.subrange(before.len() as int, (before.len() + middle.len()) as int) =~= middle);
    assert(occurs_at(whole, middle, before.len() as int));
}

/// Replacing a pattern that does not occur changes nothing.
pub proof fn lemma_replaced_without_occurrence(text: Seq<char>, from: Seq<char>, to: Seq<char>)
    requires
        !occurs_in(text, from),
    ensures
        replaced(text, from, to) == text,
    decreases text.len(),
{
    if from.len() == 0 || text.len() < from.len() {
    } else {
        assert(!occurs_at(text, from, 0));
        let rest = text.skip(1);
        assert forall|at: int| !occurs_at(rest, from, at) by {
            if occurs_at(rest, from, at) {
                assert(text.subrange(at + 1, at + 1 + from.len()) =~= rest.subrange(
                    at,
                    at + from.len(),
                ));
                assert(occurs_at(text, from, at + 1));
            }
        }
        lemma_replaced_without_occurrence(rest, from, to);
        assert(seq![text[0]] + rest =~= text);
    }
}

} // verus!
