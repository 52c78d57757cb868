//! Lengths that travel in 32 bits.
use vstd::prelude::*;

verus! {

/// What 32 bits keep of a length.
pub open spec fn low_word(len: int) -> int {
    len % 0x1_0000_0000
}

/// What 32 bits keep of a length.
pub fn word_of(len: usize) -> (r: u32)
    ensures
        r == low_word(len as int),
        len <= u32::MAX ==> r == len,
{
    (len as u64 % 0x1_0000_0000u64) as u32
}

/// A length that has 32 bits is kept, and what is kept of a longer one differs from it by
/// a multiple of what 32 bits can count.
pub proof fn law_a_short_length_is_kept(len: int)
    requires
        0 <= len,
    ensures
        0 <= low_word(len) <= u32::MAX,
        len <= u32::MAX ==> low_word(len) == len,
        low_word(len + 0x1_0000_0000) == low_word(len),
        (len - low_word(len)) % 0x1_0000_0000 == 0,
{
}

} // verus!
