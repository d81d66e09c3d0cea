//! Single bits of register words.

use vstd::prelude::*;

verus! {

/// The word with only bit `n` set.
pub open spec fn spec_bit(n: u32) -> u32 {
    1u32 << n
}

#[verifier::when_used_as_spec(spec_bit)]
pub fn bit(n: u32) -> (mask: u32)
    requires
        n < 32,
    ensures
        mask == spec_bit(n),
{
    1u32 << n
}

/// `word` with bit `n` set or cleared.
pub open spec fn spec_with_bit(word: u32, n: u32, on: bool) -> u32 {
    if on {
        word | spec_bit(n)
    } else {
        word & !spec_bit(n)
    }
}

#[verifier::when_used_as_spec(spec_with_bit)]
pub fn with_bit(word: u32, n: u32, on: bool) -> (out: u32)
    requires
        n < 32,
    ensures
        out == spec_with_bit(word, n, on),
{
    if on {
        word | bit(n)
    } else {
        word & !bit(n)
    }
}

/// True when bit `n` of `word` is set.
pub open spec fn spec_has_bit(word: u32, n: u32) -> bool {
    word & spec_bit(n) != 0
}

#[verifier::when_used_as_spec(spec_has_bit)]
pub fn has_bit(word: u32, n: u32) -> (on: bool)
    requires
        n < 32,
    ensures
        on == spec_has_bit(word, n),
{
    word & bit(n) != 0
}

/// `word` with the field at `offset`, whose width `mask` gives as a run of
/// low one bits, replaced by the low bits of `value`.
pub open spec fn spec_with_field(word: u32, offset: u32, mask: u32, value: u32) -> u32 {
    (word & !(mask << offset)) | ((value & mask) << offset)
}

#[verifier::when_used_as_spec(spec_with_field)]
pub fn with_field(word: u32, offset: u32, mask: u32, value: u32) -> (out: u32)
    requires
        offset < 32,
    ensures
        out == spec_with_field(word, offset, mask, value),
{
    (word & !(mask << offset)) | ((value & mask) << offset)
}

/// Setting a bit and reading it back gives what was set, and leaves every
/// other bit as it was.
pub proof fn lemma_with_bit(word: u32, n: u32, on: bool, m: u32)
    requires
        n < 32,
        m < 32,
    ensures
        spec_has_bit(spec_with_bit(word, n, on), n) == on,
        m != n ==> spec_has_bit(spec_with_bit(word, n, on), m) == spec_has_bit(word, m),
{
    assert((word | (1u32 << n)) & (1u32 << n) != 0) by (bit_vector)
        requires
            n < 32,
    ;
    assert((word & !(1u32 << n)) & (1u32 << n) == 0) by (bit_vector)
        requires
            n < 32,
    ;
    assert(m != n ==> (word | (1u32 << n)) & (1u32 << m) == word & (1u32 << m)) by (bit_vector)
        requires
            n < 32,
            m < 32,
    ;
    assert(m != n ==> (word & !(1u32 << n)) & (1u32 << m) == word & (1u32 << m)) by (bit_vector)
        requires
            n < 32,
            m < 32,
    ;
}

} // verus!
