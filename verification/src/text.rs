//! Character-level string operations with exact specifications.
//!
//! The executable functions work on `Vec<char>`; their contracts speak of the
//! underlying `Seq<char>`.

use vstd::prelude::*;
use vstd::std_specs::iter::IteratorSpec;
use vstd::string::StringExecFns;

verus! {

/// The characters of `s`, in order.
pub fn chars_of(s: &str) -> (v: Vec<char>)
    ensures
        v@ == s@,
{
    broadcast use vstd::string::group_string_axioms;

    let mut it = s.chars();
    let mut v: Vec<char> = Vec::new();
    assert(v@ + it.remaining() =~= s@);
    loop
        invariant
            v@ + it.remaining() == s@,
            it.decrease() is Some,
        ensures
            v@ == s@,
        decreases it.decrease()->0,
    {
        match it.next() {
            Some(c) => {
                v.push(c);
                assert(v@ + it.remaining() =~= s@);
            },
            None => {
                assert(v@ + it.remaining() =~= v@);
                break;
            },
        }
    }
    v
}

/// `std`'s `String::from_iter` over characters: the string made of `v`.
///
/// Trusted: the result denotes exactly the characters of `v`, in order.
#[verifier::external_body]
pub(crate) fn string_of(v: &Vec<char>) -> (s: String)
    ensures
        s@ == v@,
{
    String::from_iter(v.iter())
}

/// The characters of a textual outcome, on either side.
pub open spec fn outcome_view(r: Result<String, String>) -> Result<Seq<char>, Seq<char>> {
    match r {
        Ok(s) => Ok(s@),
        Err(e) => Err(e@),
    }
}

/// `needle` occurs in `s` starting at position `at`.
pub open spec fn occurs_at(s: Seq<char>, at: int, needle: Seq<char>) -> bool {
    &&& 0 <= at
    &&& at + needle.len() <= s.len()
    &&& s.subrange(at, at + needle.len()) == needle
}

/// `s` with every occurrence of `from` replaced by `to`, scanning from the
/// left and never re-reading replaced text. An empty `from` replaces nothing.
pub open spec fn replace_all(s: Seq<char>, from: Seq<char>, to: Seq<char>) -> Seq<char>
    decreases s.len(),
{
    if from.len() == 0 || s.len() < from.len() {
        s
    } else if occurs_at(s, 0, from) {
        to + replace_all(s.skip(from.len() as int), from, to)
    } else {
        seq![s[0]] + replace_all(s.skip(1), from, to)
    }
}

/// `s` without a leading `prefix`, or `None` when `s` does not start with it.
pub open spec fn strip_prefix(s: Seq<char>, prefix: Seq<char>) -> Option<Seq<char>> {
    if occurs_at(s, 0, prefix) {
        Some(s.skip(prefix.len() as int))
    } else {
        None
    }
}

/// `s` without a trailing `suffix`, or `None` when `s` does not end with it.
pub open spec fn strip_suffix(s: Seq<char>, suffix: Seq<char>) -> Option<Seq<char>> {
    if occurs_at(s, s.len() - suffix.len(), suffix) {
        Some(s.take(s.len() - suffix.len()))
    } else {
        None
    }
}

/// Does `needle` occur in `s` at position `at`?
pub fn matches_at(s: &Vec<char>, at: usize, needle: &Vec<char>) -> (b: bool)
    ensures
        b == occurs_at(s@, at as int, needle@),
{
    let n: usize = s.len();
    let m: usize = needle.len();
    if at > n || m > n - at {
        return false;
    }
    let mut k: usize = 0;
    while k < m
        invariant
            k <= m,
            m == needle@.len(),
            n == s@.len(),
            at + m <= n,
            forall|j: int| 0 <= j < k ==> s@[at + j] == needle@[j],
        decreases m - k,
    {
        if s[at + k] != needle[k] {
            assert(s@.subrange(at as int, at + m)[k as int] != needle@[k as int]);
            return false;
        }
        k += 1;
    }
    assert(s@.subrange(at as int, at + m) =~= needle@);
    true
}

/// Does `s` start with `prefix`?
pub fn starts_with(s: &Vec<char>, prefix: &Vec<char>) -> (b: bool)
    ensures
        b == occurs_at(s@, 0, prefix@),
{
    matches_at(s, 0, prefix)
}

/// Does `s` end with `suffix`?
pub fn ends_with(s: &Vec<char>, suffix: &Vec<char>) -> (b: bool)
    ensures
        b == occurs_at(s@, s@.len() - suffix@.len(), suffix@),
{
    if suffix.len() > s.len() {
        false
    } else {
        matches_at(s, s.len() - suffix.len(), suffix)
    }
}

/// The characters of `s` from `from` up to, not including, `to`.
pub fn slice_of(s: &Vec<char>, from: usize, to: usize) -> (r: Vec<char>)
    requires
        from <= to <= s@.len(),
    ensures
        r@ == s@.subrange(from as int, to as int),
{
    let mut r: Vec<char> = Vec::new();
    let mut i: usize = from;
    while i < to
        invariant
            from <= i <= to <= s@.len(),
            r@ == s@.subrange(from as int, i as int),
        decreases to - i,
    {
        r.push(s[i]);
        assert(r@ =~= s@.subrange(from as int, i + 1));
        i += 1;
    }
    assert(r@ =~= s@.subrange(from as int, to as int));
    r
}

/// Appends the characters of `tail` to `out`.
pub fn push_all(out: &mut Vec<char>, tail: &Vec<char>)
    ensures
        final(out)@ == old(out)@ + tail@,
{
    let mut i: usize = 0;
    while i < tail.len()
        invariant
            i <= tail@.len(),
            out@ == old(out)@ + tail@.take(i as int),
        decreases tail@.len() - i,
    {
        out.push(tail[i]);
        assert(out@ =~= old(out)@ + tail@.take(i + 1));
        i += 1;
    }
    assert(tail@.take(tail@.len() as int) =~= tail@);
}

/// Removes a leading `prefix` from `s`.
pub fn strip_prefix_exec(s: &Vec<char>, prefix: &Vec<char>) -> (r: Option<Vec<char>>)
    ensures
        match r {
            Some(rest) => strip_prefix(s@, prefix@) == Some(rest@),
            None => strip_prefix(s@, prefix@) is None,
        },
{
    if starts_with(s, prefix) {
        let r = slice_of(s, prefix.len(), s.len());
        assert(r@ =~= s@.skip(prefix@.len() as int));
        Some(r)
    } else {
        None
    }
}

/// Where `from` does not stand at the head of a non-empty `s`, replacing in
/// `s` keeps the first character and replaces in the rest.
pub proof fn lemma_replace_skips_one(s: Seq<char>, from: Seq<char>, to: Seq<char>)
    requires
        from.len() > 0,
        s.len() > 0,
        !occurs_at(s, 0, from),
    ensures
        replace_all(s, from, to) == seq![s[0]] + replace_all(s.skip(1), from, to),
{
    if s.len() < from.len() {
        assert(replace_all(s.skip(1), from, to) == s.skip(1));
        assert(s =~= seq![s[0]] + s.skip(1));
    }
}

/// `s` with every occurrence of `from` replaced by `to`.
pub fn replace(s: &Vec<char>, from: &Vec<char>, to: &Vec<char>) -> (r: Vec<char>)
    ensures
        r@ == replace_all(s@, from@, to@),
{
    let n: usize = s.len();
    let m: usize = from.len();
    if m == 0 {
        let r = slice_of(s, 0, n);
        assert(r@ =~= s@);
        return r;
    }
    let mut out: Vec<char> = Vec::new();
    let mut i: usize = 0;
    assert(s@.skip(0) =~= s@);
    while i < n
        invariant
            i <= n,
            n == s@.len(),
            m == from@.len(),
            m > 0,
            out@ + replace_all(s@.skip(i as int), from@, to@) == replace_all(s@, from@, to@),
        decreases n - i,
    {
        let ghost rest = s@.skip(i as int);
        if matches_at(s, i, from) {
            assert(rest.subrange(0, m as int) =~= s@.subrange(i as int, i + m));
            assert(rest.skip(m as int) =~= s@.skip(i + m));
            let ghost before = out@;
            push_all(&mut out, to);
            assert(out@ + replace_all(s@.skip(i + m), from@, to@) =~= before + (to@ + replace_all(
                rest.skip(m as int),
                from@,
                to@,
            )));
            i += m;
        } else {
            proof {
                if i + m <= n {
                    assert(rest.subrange(0, m as int) =~= s@.subrange(i as int, i + m));
                }
                lemma_replace_skips_one(rest, from@, to@);
                assert(rest.skip(1) =~= s@.skip(i + 1));
            }
            let ghost before = out@;
            out.push(s[i]);
            assert(out@ + replace_all(s@.skip(i + 1), from@, to@) =~= before + (seq![rest[0]]
                + replace_all(rest.skip(1), from@, to@)));
            i += 1;
        }
    }
    assert(s@.skip(n as int) =~= Seq::<char>::empty());
    assert(out@ + Seq::<char>::empty() =~= out@);
    out
}

/// The greatest index at which `c` stands in `s`, if it stands in `s`.
pub open spec fn last_index_of(s: Seq<char>, c: char) -> Option<int>
    decreases s.len(),
{
    if s.len() == 0 {
        None
    } else if s.last() == c {
        Some(s.len() - 1)
    } else {
        last_index_of(s.drop_last(), c)
    }
}

/// `s` with every occurrence of `from` replaced by `to`.
pub fn replace_text(s: &str, from: &str, to: &str) -> (r: String)
    ensures
        r@ == replace_all(s@, from@, to@),
{
    let s = chars_of(s);
    let from = chars_of(from);
    let to = chars_of(to);
    string_of(&replace(&s, &from, &to))
}

/// The first place at which `needle` occurs in `s`, if it occurs in `s`.
pub open spec fn first_occurrence(s: Seq<char>, needle: Seq<char>) -> Option<int>
    decreases s.len(),
{
    if occurs_at(s, 0, needle) {
        Some(0)
    } else if s.len() == 0 {
        None
    } else {
        match first_occurrence(s.skip(1), needle) {
            Some(at) => Some(at + 1),
            None => None,
        }
    }
}

/// Finds the first place at which `needle` occurs in `s`.
pub fn find(s: &Vec<char>, needle: &Vec<char>) -> (r: Option<usize>)
    ensures
        match r {
            Some(at) => first_occurrence(s@, needle@) == Some(at as int) && at + needle@.len()
                <= s@.len(),
            None => first_occurrence(s@, needle@) is None,
        },
{
    let n: usize = s.len();
    let mut i: usize = 0;
    assert(s@.skip(0) =~= s@);
    while i < n
        invariant
            i <= n,
            n == s@.len(),
            first_occurrence(s@, needle@) == (match first_occurrence(s@.skip(i as int), needle@) {
                Some(at) => Some(at + i),
                None => None,
            }),
        decreases n - i,
    {
        let ghost rest = s@.skip(i as int);
        if matches_at(s, i, needle) {
            assert(rest.subrange(0, needle@.len() as int) =~= s@.subrange(
                i as int,
                i + needle@.len(),
            ));
            return Some(i);
        }
        proof {
            if i + needle@.len() <= n {
                assert(rest.subrange(0, needle@.len() as int) =~= s@.subrange(
                    i as int,
                    i + needle@.len(),
                ));
            }
            assert(rest.skip(1) =~= s@.skip(i + 1));
        }
        i += 1;
    }
    let ghost rest = s@.skip(n as int);
    if matches_at(s, n, needle) {
        assert(rest.subrange(0, needle@.len() as int) =~= s@.subrange(n as int, n + needle@.len()));
        Some(n)
    } else {
        proof {
            if needle@.len() == 0 {
                assert(rest.subrange(0, 0) =~= s@.subrange(n as int, n as int));
            }
        }
        None
    }
}

/// Finds the last place at which `c` stands in `s`.
pub fn rfind(s: &Vec<char>, c: char) -> (r: Option<usize>)
    ensures
        match r {
            Some(at) => last_index_of(s@, c) == Some(at as int) && at < s@.len(),
            None => last_index_of(s@, c) is None,
        },
{
    let mut i: usize = s.len();
    assert(s@.take(s@.len() as int) =~= s@);
    while i > 0
        invariant
            i <= s@.len(),
            last_index_of(s@, c) == last_index_of(s@.take(i as int), c),
        decreases i,
    {
        i -= 1;
        assert(s@.take(i + 1).drop_last() =~= s@.take(i as int));
        if s[i] == c {
            return Some(i);
        }
    }
    None
}

/// `s` without a trailing `suffix`, where it ends with it.
pub fn strip_suffix_exec(s: &Vec<char>, suffix: &Vec<char>) -> (r: Option<Vec<char>>)
    ensures
        match r {
            Some(rest) => strip_suffix(s@, suffix@) == Some(rest@),
            None => strip_suffix(s@, suffix@) is None,
        },
{
    if ends_with(s, suffix) {
        let r = slice_of(s, 0, s.len() - suffix.len());
        assert(r@ =~= s@.take(s@.len() - suffix@.len()));
        Some(r)
    } else {
        None
    }
}

/// The character of a decimal digit.
pub open spec fn digit(d: nat) -> char {
    ((48 + d) as u8) as char
}

/// The decimal notation of a number, without leading zeros.
pub open spec fn decimal(n: nat) -> Seq<char>
    decreases n,
{
    if n < 10 {
        seq![digit(n)]
    } else {
        decimal(n / 10).push(digit(n % 10))
    }
}

/// Appends the decimal notation of `n` to `out`.
pub fn push_decimal(out: &mut Vec<char>, n: u64)
    ensures
        final(out)@ == old(out)@ + decimal(n as nat),
    decreases n,
{
    if n >= 10 {
        push_decimal(out, n / 10);
    }
    let d: u8 = (n % 10) as u8;
    out.push((48u8 + d) as char);
    assert(final(out)@ =~= old(out)@ + decimal(n as nat)) by {
        assert(digit((n % 10) as nat) == (48u8 + d) as char);
    }
}

/// The decimal notation of `n`.
pub fn decimal_text(n: u64) -> (s: String)
    ensures
        s@ == decimal(n as nat),
{
    let mut out: Vec<char> = Vec::new();
    push_decimal(&mut out, n);
    assert(out@ =~= decimal(n as nat));
    string_of(&out)
}

/// The characters of each text, in order.
pub open spec fn text_views(texts: Seq<String>) -> Seq<Seq<char>> {
    Seq::new(texts.len(), |i: int| texts[i]@)
}

/// The texts with `separator` between each two of them.
pub open spec fn joined(texts: Seq<Seq<char>>, separator: Seq<char>) -> Seq<char>
    decreases texts.len(),
{
    if texts.len() == 0 {
        Seq::empty()
    } else if texts.len() == 1 {
        texts[0]
    } else {
        joined(texts.drop_last(), separator) + separator + texts.last()
    }
}

/// Joins the texts with `separator` between each two of them.
pub fn join(texts: &Vec<String>, separator: &str) -> (r: String)
    ensures
        r@ == joined(text_views(texts@), separator@),
{
    let ghost views = text_views(texts@);
    let mut r = String::new();
    let mut i: usize = 0;
    while i < texts.len()
        invariant
            i <= texts@.len(),
            views == text_views(texts@),
            r@ == joined(views.take(i as int), separator@),
        decreases texts@.len() - i,
    {
        assert(views.take(i + 1).drop_last() =~= views.take(i as int));
        assert(views.take(i + 1).last() == texts@[i as int]@);
        if i > 0 {
            r.append(separator);
        } else {
            assert(views.take(1)[0] == texts@[0]@);
        }
        r.append(texts[i].as_str());
        i += 1;
    }
    assert(views.take(texts@.len() as int) =~= views);
    r
}

/// Are the two texts the same?
pub fn same_text(a: &str, b: &str) -> (same: bool)
    ensures
        same == (a@ == b@),
{
    a.to_owned() == b.to_owned()
}

/// The concatenation of two pieces of text.
pub fn concat2(a: &str, b: &str) -> (r: String)
    ensures
        r@ == a@ + b@,
{
    let mut r = String::from_str(a);
    r.append(b);
    r
}

/// The concatenation of three pieces of text.
pub fn concat3(a: &str, b: &str, c: &str) -> (r: String)
    ensures
        r@ == a@ + b@ + c@,
{
    let mut r = String::from_str(a);
    r.append(b);
    r.append(c);
    r
}

/// The concatenation of five pieces of text.
pub fn concat5(a: &str, b: &str, c: &str, d: &str, e: &str) -> (r: String)
    ensures
        r@ == a@ + b@ + c@ + d@ + e@,
{
    let mut r = concat3(a, b, c);
    r.append(d);
    r.append(e);
    r
}

} // verus!
