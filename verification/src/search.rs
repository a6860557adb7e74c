//! First-occurrence search over byte sequences.
//!
//! The specification side defines, as recursive spec functions, the index of
//! the first occurrence of a byte (or of a byte substring) in a sequence,
//! together with lemmas characterising them as first occurrences. The
//! executable side leans on the `memchr` crate for the actual scanning and
//! is verified against those specifications.

use vstd::prelude::*;
use vstd::slice::slice_subrange;

verus! {

/// `needle` occurs in `hay` starting at index `i`.
pub open spec fn matches_at(hay: Seq<u8>, needle: Seq<u8>, i: int) -> bool {
    &&& 0 <= i
    &&& i + needle.len() <= hay.len()
    &&& hay.subrange(i, i + needle.len() as int) == needle
}

/// Index of the first occurrence of byte `b` in `hay`, if any.
pub open spec fn byte_index(hay: Seq<u8>, b: u8) -> Option<int>
    decreases hay.len(),
{
    if hay.len() == 0 {
        None
    } else if hay[0] == b {
        Some(0)
    } else {
        match byte_index(hay.drop_first(), b) {
            Some(i) => Some(i + 1),
            None => None,
        }
    }
}

/// Index of the first occurrence of `b` in `hay` at or after `from`.
pub open spec fn byte_index_from(hay: Seq<u8>, b: u8, from: int) -> Option<int>
    recommends
        0 <= from <= hay.len(),
{
    match byte_index(hay.subrange(from, hay.len() as int), b) {
        Some(i) => Some(from + i),
        None => None,
    }
}

/// Start index of the first occurrence of `needle` in `hay`, if any.
pub open spec fn substr_index(hay: Seq<u8>, needle: Seq<u8>) -> Option<int>
    decreases hay.len(),
{
    if matches_at(hay, needle, 0) {
        Some(0)
    } else if hay.len() == 0 {
        None
    } else {
        match substr_index(hay.drop_first(), needle) {
            Some(i) => Some(i + 1),
            None => None,
        }
    }
}

/// `byte_index` names exactly the first position holding `b`.
pub proof fn lemma_byte_index_first(hay: Seq<u8>, b: u8)
    ensures
        match byte_index(hay, b) {
            Some(i) => 0 <= i < hay.len() && hay[i] == b && (forall|j: int|
                0 <= j < i ==> hay[j] != b),
            None => forall|j: int| 0 <= j < hay.len() ==> hay[j] != b,
        },
    decreases hay.len(),
{
    if hay.len() == 0 {
    } else if hay[0] == b {
    } else {
        lemma_byte_index_first(hay.drop_first(), b);
        match byte_index(hay.drop_first(), b) {
            Some(i) => {
                assert forall|j: int| 0 <= j < i + 1 implies hay[j] != b by {
                    if j > 0 {
                        assert(hay[j] == hay.drop_first()[j - 1]);
                    }
                }
            },
            None => {
                assert forall|j: int| 0 <= j < hay.len() implies hay[j] != b by {
                    if j > 0 {
                        assert(hay[j] == hay.drop_first()[j - 1]);
                    }
                }
            },
        }
    }
}

/// Dropping the first element shifts every match position down by one.
proof fn lemma_matches_at_shift(hay: Seq<u8>, needle: Seq<u8>, j: int)
    requires
        hay.len() > 0,
        1 <= j,
    ensures
        matches_at(hay, needle, j) <==> matches_at(hay.drop_first(), needle, j - 1),
{
    if j + needle.len() <= hay.len() {
        assert(hay.drop_first().subrange(j - 1, j - 1 + needle.len() as int) =~= hay.subrange(
            j,
            j + needle.len() as int,
        ));
    }
}

/// `substr_index` names exactly the first position where `needle` matches.
pub proof fn lemma_substr_index_first(hay: Seq<u8>, needle: Seq<u8>)
    ensures
        match substr_index(hay, needle) {
            Some(i) => matches_at(hay, needle, i) && (forall|j: int|
                0 <= j < i ==> !matches_at(hay, needle, j)),
            None => forall|j: int| !matches_at(hay, needle, j),
        },
    decreases hay.len(),
{
    if matches_at(hay, needle, 0) {
    } else if hay.len() == 0 {
    } else {
        lemma_substr_index_first(hay.drop_first(), needle);
        match substr_index(hay.drop_first(), needle) {
            Some(i) => {
                lemma_matches_at_shift(hay, needle, i + 1);
                assert forall|j: int| 0 <= j < i + 1 implies !matches_at(hay, needle, j) by {
                    if j >= 1 {
                        lemma_matches_at_shift(hay, needle, j);
                    }
                }
            },
            None => {
                assert forall|j: int| !matches_at(hay, needle, j) by {
                    if j >= 1 {
                        lemma_matches_at_shift(hay, needle, j);
                    }
                }
            },
        }
    }
}

/// Relies on `memchr::memchr`: the result is the index of the first
/// occurrence of byte `b` in `hay`, or None exactly when `b` occurs nowhere.
#[verifier::external_body]
fn memchr_first(hay: &[u8], b: u8) -> (r: Option<usize>)
    ensures
        match r {
            Some(i) => i < hay@.len() && hay@[i as int] == b && (forall|j: int|
                0 <= j < i ==> hay@[j] != b),
            None => forall|j: int| 0 <= j < hay@.len() ==> hay@[j] != b,
        },
{
    memchr::memchr(b, hay)
}

/// Relies on `memchr::memmem::find`: the result is the start index of the
/// first occurrence of `needle` in `hay`, or None exactly when `needle`
/// occurs nowhere in `hay`.
#[verifier::external_body]
fn memmem_first(hay: &[u8], needle: &[u8]) -> (r: Option<usize>)
    ensures
        match r {
            Some(i) => matches_at(hay@, needle@, i as int) && (forall|j: int|
                0 <= j < i ==> !matches_at(hay@, needle@, j)),
            None => forall|j: int| !matches_at(hay@, needle@, j),
        },
{
    memchr::memmem::find(hay, needle)
}

/// First occurrence of byte `b` in `hay`, as `byte_index` gives it.
pub fn find_byte(hay: &[u8], b: u8) -> (r: Option<usize>)
    ensures
        match r {
            Some(i) => byte_index(hay@, b) == Some(i as int) && i < hay@.len(),
            None => byte_index(hay@, b) is None,
        },
{
    let r = memchr_first(hay, b);
    proof {
        lemma_byte_index_first(hay@, b);
    }
    r
}

/// First occurrence of `b` in `hay` at or after `from`, as `byte_index_from`
/// gives it.
pub fn find_byte_from(hay: &[u8], b: u8, from: usize) -> (r: Option<usize>)
    requires
        from <= hay@.len(),
    ensures
        match r {
            Some(i) => byte_index_from(hay@, b, from as int) == Some(i as int) && from <= i
                < hay@.len(),
            None => byte_index_from(hay@, b, from as int) is None,
        },
{
    let tail = slice_subrange(hay, from, hay.len());
    match find_byte(tail, b) {
        Some(i) => Some(from + i),
        None => None,
    }
}

/// Start of the first occurrence of `needle` in `hay`, as `substr_index`
/// gives it.
pub fn find_substr(hay: &[u8], needle: &[u8]) -> (r: Option<usize>)
    ensures
        match r {
            Some(i) => substr_index(hay@, needle@) == Some(i as int),
            None => substr_index(hay@, needle@) is None,
        },
{
    let r = memmem_first(hay, needle);
    proof {
        lemma_substr_index_first(hay@, needle@);
    }
    r
}

} // verus!
