use vstd::prelude::*;

verus! {

/// Bit 1 of the status byte: the last result was zero.
pub const ZERO_FLAG: u8 = 0b0000_0010;

/// Bit 7 of the status byte: bit 7 of the last result was set.
pub const NEGATIVE_FLAG: u8 = 0b1000_0000;

/// The bits of the status byte that flag recomputation sets from a result.
pub const RESULT_FLAGS: u8 = 0b1000_0010;

/// The bits of the status byte that flag recomputation leaves alone.
pub const UNTOUCHED_FLAGS: u8 = 0b0111_1101;

/// Whether bit `mask` is set in the status byte `s`.
pub open spec fn has_flag(s: u8, mask: u8) -> bool {
    s & mask != 0
}

/// The status byte after the Zero and Negative flags are recomputed from the
/// result `r`: bit 1 is set exactly when `r` is zero, bit 7 is bit 7 of `r`,
/// and every other bit of `s` is kept.
pub open spec fn flags_for(s: u8, r: u8) -> u8 {
    (s & UNTOUCHED_FLAGS) | (if r == 0 { ZERO_FLAG } else { 0u8 }) | (r & NEGATIVE_FLAG)
}

/// What the recomputed status byte holds, bit by bit: the Zero flag tells
/// whether `r` is zero, the Negative flag is bit 7 of `r`, and the other six
/// bits are those of `s`.
pub proof fn lemma_flags_for_bits(s: u8, r: u8)
    ensures
        has_flag(flags_for(s, r), ZERO_FLAG) == (r == 0),
        has_flag(flags_for(s, r), NEGATIVE_FLAG) == (r >= 128),
        flags_for(s, r) & UNTOUCHED_FLAGS == s & UNTOUCHED_FLAGS,
{
    if r == 0 {
        assert(((s & 0x7d) | 0x02u8 | (r & 0x80)) & 0x02 != 0) by (bit_vector);
        assert((((s & 0x7d) | 0x02u8 | (r & 0x80)) & 0x80 != 0) == (r >= 128)) by (bit_vector);
        assert(((s & 0x7d) | 0x02u8 | (r & 0x80)) & 0x7d == s & 0x7d) by (bit_vector);
    } else {
        assert(r != 0 ==> ((s & 0x7d) | 0u8 | (r & 0x80)) & 0x02 == 0) by (bit_vector);
        assert((((s & 0x7d) | 0u8 | (r & 0x80)) & 0x80 != 0) == (r >= 128)) by (bit_vector);
        assert(((s & 0x7d) | 0u8 | (r & 0x80)) & 0x7d == s & 0x7d) by (bit_vector);
    }
}

/// Recomputing the flags twice from the same result gives the same status
/// byte as doing it once.
pub proof fn lemma_flags_for_idempotent(s: u8, r: u8)
    ensures
        flags_for(flags_for(s, r), r) == flags_for(s, r),
{
    let z: u8 = if r == 0 { ZERO_FLAG } else { 0u8 };
    assert((((s & 0x7d) | z | (r & 0x80)) & 0x7d | z | (r & 0x80)) == ((s & 0x7d) | z
        | (r & 0x80))) by (bit_vector)
        requires
            z == 0 || z == 2,
    ;
}

/// The Zero and Negative flags after recomputation depend on the result
/// alone, not on the status byte they were recomputed from.
pub proof fn lemma_flags_for_ignores_prior(s1: u8, s2: u8, r: u8)
    ensures
        flags_for(s1, r) & RESULT_FLAGS == flags_for(s2, r) & RESULT_FLAGS,
{
    let z: u8 = if r == 0 { ZERO_FLAG } else { 0u8 };
    assert(((s1 & 0x7d) | z | (r & 0x80)) & 0x82 == ((s2 & 0x7d) | z | (r & 0x80)) & 0x82)
        by (bit_vector)
        requires
            z == 0 || z == 2,
    ;
}

} // verus!
