//! Byte strings with a fixed marker in front or behind.
//!
//! Names and identifiers are byte strings in the platform's own encoding.
//! Both native models mark an attribute by a fixed prefix or suffix, so
//! going from a name to an identifier and back comes down to putting such a
//! marker on and taking it off again.

use vstd::prelude::*;

verus! {

/// `s` begins with `prefix`.
pub open spec fn has_prefix(s: Seq<u8>, prefix: Seq<u8>) -> bool {
    prefix.len() <= s.len() && s.subrange(0, prefix.len() as int) == prefix
}

/// `s` ends with `suffix`.
pub open spec fn has_suffix(s: Seq<u8>, suffix: Seq<u8>) -> bool {
    suffix.len() <= s.len() && s.subrange(s.len() - suffix.len(), s.len() as int) == suffix
}

/// What is left of `s` behind `prefix`, if `s` begins with it.
pub open spec fn without_prefix(s: Seq<u8>, prefix: Seq<u8>) -> Option<Seq<u8>> {
    if has_prefix(s, prefix) {
        Some(s.subrange(prefix.len() as int, s.len() as int))
    } else {
        None
    }
}

/// What is left of `s` before `suffix`, if `s` ends with it.
pub open spec fn without_suffix(s: Seq<u8>, suffix: Seq<u8>) -> Option<Seq<u8>> {
    if has_suffix(s, suffix) {
        Some(s.subrange(0, s.len() - suffix.len()))
    } else {
        None
    }
}

/// Taking a prefix off what was built by putting it on gives the rest back.
pub proof fn lemma_prefix_round_trip(prefix: Seq<u8>, rest: Seq<u8>)
    ensures
        without_prefix(prefix + rest, prefix) == Some(rest),
{
    let s = prefix + rest;
    assert(s.subrange(0, prefix.len() as int) =~= prefix);
    assert(s.subrange(prefix.len() as int, s.len() as int) =~= rest);
}

/// Taking a suffix off what was built by putting it on gives the rest back.
pub proof fn lemma_suffix_round_trip(rest: Seq<u8>, suffix: Seq<u8>)
    ensures
        without_suffix(rest + suffix, suffix) == Some(rest),
{
    let s = rest + suffix;
    assert(s.subrange(s.len() - suffix.len(), s.len() as int) =~= suffix);
    assert(s.subrange(0, s.len() - suffix.len()) =~= rest);
}

/// A byte string that a prefix can be taken off is that prefix followed by
/// what is left.
pub proof fn lemma_prefix_rebuilds(s: Seq<u8>, prefix: Seq<u8>)
    requires
        has_prefix(s, prefix),
    ensures
        s == prefix + without_prefix(s, prefix).unwrap(),
{
    assert(s =~= s.subrange(0, prefix.len() as int) + s.subrange(
        prefix.len() as int,
        s.len() as int,
    ));
}

/// A byte string that a suffix can be taken off is what is left followed by
/// that suffix.
pub proof fn lemma_suffix_rebuilds(s: Seq<u8>, suffix: Seq<u8>)
    requires
        has_suffix(s, suffix),
    ensures
        s == without_suffix(s, suffix).unwrap() + suffix,
{
    assert(s =~= s.subrange(0, s.len() - suffix.len()) + s.subrange(
        s.len() - suffix.len(),
        s.len() as int,
    ));
}

/// Whether `s` begins with `prefix`.
pub fn starts_with(s: &[u8], prefix: &[u8]) -> (b: bool)
    ensures
        b == has_prefix(s@, prefix@),
{
    if prefix.len() > s.len() {
        return false;
    }
    let mut i: usize = 0;
    while i < prefix.len()
        invariant
            i <= prefix@.len() <= s@.len(),
            forall|j: int| 0 <= j < i ==> s@[j] == prefix@[j],
        decreases prefix@.len() - i,
    {
        if s[i] != prefix[i] {
            assert(s@.subrange(0, prefix@.len() as int)[i as int] != prefix@[i as int]);
            return false;
        }
        i += 1;
    }
    assert(s@.subrange(0, prefix@.len() as int) =~= prefix@);
    true
}

/// Whether `s` ends with `suffix`.
pub fn ends_with(s: &[u8], suffix: &[u8]) -> (b: bool)
    ensures
        b == has_suffix(s@, suffix@),
{
    if suffix.len() > s.len() {
        return false;
    }
    let start: usize = s.len() - suffix.len();
    let mut i: usize = 0;
    while i < suffix.len()
        invariant
            i <= suffix@.len() <= s@.len(),
            start + suffix@.len() == s@.len(),
            s@.len() == s.len(),
            forall|j: int| 0 <= j < i ==> s@[start + j] == suffix@[j],
        decreases suffix@.len() - i,
    {
        if s[start + i] != suffix[i] {
            assert(s@.subrange(start as int, s@.len() as int)[i as int] != suffix@[i as int]);
            return false;
        }
        i += 1;
    }
    assert(s@.subrange(start as int, s@.len() as int) =~= suffix@);
    true
}

/// The part of `s` behind `prefix`, or nothing if `s` does not begin with it.
pub fn strip_prefix<'a>(s: &'a [u8], prefix: &[u8]) -> (rest: Option<&'a [u8]>)
    ensures
        match rest {
            Some(rest) => without_prefix(s@, prefix@) == Some(rest@),
            None => without_prefix(s@, prefix@) is None,
        },
{
    if starts_with(s, prefix) {
        Some(vstd::slice::slice_subrange(s, prefix.len(), s.len()))
    } else {
        None
    }
}

/// The part of `s` before `suffix`, or nothing if `s` does not end with it.
pub fn strip_suffix<'a>(s: &'a [u8], suffix: &[u8]) -> (rest: Option<&'a [u8]>)
    ensures
        match rest {
            Some(rest) => without_suffix(s@, suffix@) == Some(rest@),
            None => without_suffix(s@, suffix@) is None,
        },
{
    if ends_with(s, suffix) {
        Some(vstd::slice::slice_subrange(s, 0, s.len() - suffix.len()))
    } else {
        None
    }
}

/// Puts `bytes` behind what `text` already holds.
pub fn append(text: &mut Vec<u8>, bytes: &[u8])
    ensures
        final(text)@ == old(text)@ + bytes@,
{
    let mut i: usize = 0;
    while i < bytes.len()
        invariant
            i <= bytes@.len(),
            text@ == old(text)@ + bytes@.subrange(0, i as int),
        decreases bytes@.len() - i,
    {
        text.push(bytes[i]);
        assert(bytes@.subrange(0, i + 1) =~= bytes@.subrange(0, i as int).push(bytes@[i as int]));
        assert(text@ =~= old(text)@ + bytes@.subrange(0, i + 1));
        i += 1;
    }
    assert(bytes@.subrange(0, i as int) =~= bytes@);
}

} // verus!
