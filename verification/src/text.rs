//! Small operations on text, stated over the characters of a string.

use vstd::prelude::*;
use vstd::std_specs::iter::IteratorSpec;
use vstd::string::*;

verus! {

/// Whether two strings hold the same characters.
pub fn same_text(a: &str, b: &str) -> (r: bool)
    ensures
        r == (a@ == b@),
{
    let mut x = a.chars();
    let mut y = b.chars();
    let ghost mut k: int = 0;
    loop
        invariant
            0 <= k <= a@.len(),
            k <= b@.len(),
            x.remaining() == a@.subrange(k, a@.len() as int),
            y.remaining() == b@.subrange(k, b@.len() as int),
            a@.subrange(0, k) == b@.subrange(0, k),
        decreases a@.len() - k,
    {
        let p = x.next();
        let q = y.next();
        match (p, q) {
            (None, None) => {
                assert(a@ =~= a@.subrange(0, k));
                assert(b@ =~= b@.subrange(0, k));
                return true;
            },
            (Some(c), Some(d)) => {
                if c != d {
                    assert(a@[k] != b@[k]);
                    return false;
                }
                proof {
                    assert(a@.subrange(0, k + 1) =~= a@.subrange(0, k).push(a@[k]));
                    assert(b@.subrange(0, k + 1) =~= b@.subrange(0, k).push(b@[k]));
                    k = k + 1;
                }
            },
            _ => {
                return false;
            },
        }
    }
}

/// `text` without the `prefix` it starts with, or `None` if it does not start
/// with `prefix`.
pub fn strip_prefix<'a>(text: &'a str, prefix: &str) -> (r: Option<&'a str>)
    ensures
        match r {
            Some(rest) => text@ == prefix@ + rest@,
            None => !prefix@.is_prefix_of(text@),
        },
{
    let n = text.unicode_len();
    let m = prefix.unicode_len();
    if m > n {
        return None;
    }
    if same_text(text.substring_char(0, m), prefix) {
        let rest = text.substring_char(m, n);
        assert(text@ =~= prefix@ + rest@);
        Some(rest)
    } else {
        None
    }
}

/// `text` without the `suffix` it ends with, or `None` if it does not end
/// with `suffix`.
pub fn strip_suffix<'a>(text: &'a str, suffix: &str) -> (r: Option<&'a str>)
    ensures
        match r {
            Some(rest) => text@ == rest@ + suffix@,
            None => !suffix@.is_suffix_of(text@),
        },
{
    let n = text.unicode_len();
    let m = suffix.unicode_len();
    if m > n {
        return None;
    }
    if same_text(text.substring_char(n - m, n), suffix) {
        let rest = text.substring_char(0, n - m);
        assert(text@ =~= rest@ + suffix@);
        Some(rest)
    } else {
        None
    }
}

/// The ten digits.
pub open spec fn digits() -> Seq<char> {
    seq!['0', '1', '2', '3', '4', '5', '6', '7', '8', '9']
}

/// `n` written in decimal, without leading zeros.
pub open spec fn decimal(n: nat) -> Seq<char>
    decreases n,
{
    if n < 10 {
        seq![digits()[n as int]]
    } else {
        decimal(n / 10).push(digits()[(n % 10) as int])
    }
}

/// The digit `d` as text.
fn digit_text(d: u16) -> (r: &'static str)
    requires
        d < 10,
    ensures
        r@ == seq![digits()[d as int]],
{
    proof {
        reveal_strlit("0");
        reveal_strlit("1");
        reveal_strlit("2");
        reveal_strlit("3");
        reveal_strlit("4");
        reveal_strlit("5");
        reveal_strlit("6");
        reveal_strlit("7");
        reveal_strlit("8");
        reveal_strlit("9");
    }
    let r = if d == 0 {
        "0"
    } else if d == 1 {
        "1"
    } else if d == 2 {
        "2"
    } else if d == 3 {
        "3"
    } else if d == 4 {
        "4"
    } else if d == 5 {
        "5"
    } else if d == 6 {
        "6"
    } else if d == 7 {
        "7"
    } else if d == 8 {
        "8"
    } else {
        "9"
    };
    assert(r@ =~= seq![digits()[d as int]]);
    r
}

/// `n` written in decimal, without leading zeros.
pub fn decimal_text(n: u16) -> (r: String)
    ensures
        r@ == decimal(n as nat),
    decreases n,
{
    if n < 10 {
        String::from_str(digit_text(n))
    } else {
        let mut r = decimal_text(n / 10);
        r.append(digit_text(n % 10));
        r
    }
}

/// The characters of `text`.
pub fn chars_of(text: &str) -> (r: Vec<char>)
    ensures
        r@ == text@,
{
    let mut r: Vec<char> = Vec::new();
    for c in it: text.chars()
        invariant
            it.seq() == text@,
            r@ == text@.take(it.index()),
    {
        r.push(c);
        assert(text@.take(it.index() + 1) =~= text@.take(it.index()).push(c));
    }
    assert(text@.take(text@.len() as int) =~= text@);
    r
}

/// `s` with every occurrence of `from` replaced by `to`, the occurrences
/// taken from the left and not overlapping. An empty `from` occurs nowhere.
pub open spec fn replace_all(s: Seq<char>, from: Seq<char>, to: Seq<char>) -> Seq<char>
    decreases s.len(),
{
    if from.len() == 0 || s.len() < from.len() {
        s
    } else if from.is_prefix_of(s) {
        to + replace_all(s.skip(from.len() as int), from, to)
    } else {
        seq![s[0]] + replace_all(s.skip(1), from, to)
    }
}

/// Whether `pattern` stands in `text` at position `at`.
fn occurs_at(text: &Vec<char>, pattern: &Vec<char>, at: usize) -> (r: bool)
    requires
        at + pattern@.len() <= text@.len(),
    ensures
        r == pattern@.is_prefix_of(text@.skip(at as int)),
{
    let n = text.len();
    let m = pattern.len();
    let mut k: usize = 0;
    while k < m
        invariant
            k <= m,
            m == pattern@.len(),
            n == text@.len(),
            at + m <= n,
            forall|j: int| 0 <= j < k ==> pattern@[j] == text@[at + j],
        decreases m - k,
    {
        if pattern[k] != text[at + k] {
            assert(text@.skip(at as int)[k as int] != pattern@[k as int]);
            return false;
        }
        k = k + 1;
    }
    assert(pattern@ =~= text@.skip(at as int).subrange(0, m as int));
    true
}

/// `text` with every occurrence of `from` replaced by `to`.
pub fn replace_text(text: &str, from: &str, to: &str) -> (r: String)
    ensures
        r@ == replace_all(text@, from@, to@),
{
    let chars = chars_of(text);
    let pattern = chars_of(from);
    let n = chars.len();
    let m = pattern.len();
    if m == 0 || n < m {
        return text.to_owned();
    }
    let mut out = String::new();
    // text[kept..at] holds no occurrence and is not copied yet
    let mut kept: usize = 0;
    let mut at: usize = 0;
    assert(text@.skip(0) =~= text@);
    assert(out@ + text@.subrange(0, 0) + text@ =~= text@);
    while at <= n - m
        invariant
            chars@ == text@,
            pattern@ == from@,
            n == text@.len(),
            m == from@.len(),
            0 < m <= n,
            kept <= at <= n,
            replace_all(text@, from@, to@) == out@ + text@.subrange(kept as int, at as int)
                + replace_all(text@.skip(at as int), from@, to@),
        decreases n - at,
    {
        let ghost rest = text@.skip(at as int);
        if occurs_at(&chars, &pattern, at) {
            out.append(text.substring_char(kept, at));
            out.append(to);
            assert(rest.skip(m as int) =~= text@.skip(at + m));
            at = at + m;
            kept = at;
            assert(text@.subrange(kept as int, at as int) =~= Seq::<char>::empty());
            assert(replace_all(text@, from@, to@) =~= out@ + text@.subrange(
                kept as int,
                at as int,
            ) + replace_all(text@.skip(at as int), from@, to@));
        } else {
            assert(rest.skip(1) =~= text@.skip(at + 1));
            assert(text@.subrange(kept as int, at + 1) =~= text@.subrange(kept as int, at as int)
                + seq![rest[0]]);
            at = at + 1;
            assert(replace_all(text@, from@, to@) =~= out@ + text@.subrange(
                kept as int,
                at as int,
            ) + replace_all(text@.skip(at as int), from@, to@));
        }
    }
    out.append(text.substring_char(kept, n));
    assert(text@.subrange(kept as int, n as int) =~= text@.subrange(kept as int, at as int)
        + text@.skip(at as int));
    assert(out@ =~= replace_all(text@, from@, to@));
    out
}

} // verus!
