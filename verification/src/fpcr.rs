//! The aarch64 FPCR control register: the bit that governs denormal handling.
//!
//! aarch64 has no separate denormals-are-zero control; its flush-to-zero bit
//! alone governs both input and output denormal handling. Reading and writing
//! FPCR takes instructions the verifier does not accept, so only the bit-level
//! model lives here; the binding to the hardware register stays outside the
//! verified library.
use vstd::prelude::*;

verus! {

/// FPCR bit 24, flush-to-zero: subnormal inputs and results are treated as
/// zero.
pub const FLUSH_TO_ZERO: u64 = 0x0100_0000;

/// Does `bits` have the flush-to-zero bit set?
pub open spec fn denormals_disabled(bits: u64) -> bool {
    bits & FLUSH_TO_ZERO == FLUSH_TO_ZERO
}

/// The register value while a scope is active: the value found at entry with
/// the flush-to-zero bit set.
pub open spec fn masked(bits: u64) -> u64 {
    bits | FLUSH_TO_ZERO
}

/// Applying the mask disables denormal handling.
pub proof fn lemma_masked_disables(bits: u64)
    ensures
        denormals_disabled(masked(bits)),
{
    assert((bits | 0x0100_0000u64) & 0x0100_0000u64 == 0x0100_0000u64) by (bit_vector);
}

/// Applying the mask never clobbers a bit outside the mask.
pub proof fn lemma_masked_preserves_unrelated(bits: u64)
    ensures
        masked(bits) & !FLUSH_TO_ZERO == bits & !FLUSH_TO_ZERO,
{
    assert((bits | 0x0100_0000u64) & !0x0100_0000u64 == bits & !0x0100_0000u64)
        by (bit_vector);
}

/// Applying the mask twice is the same as applying it once.
pub proof fn lemma_masked_idempotent(bits: u64)
    ensures
        masked(masked(bits)) == masked(bits),
{
    assert((bits | 0x0100_0000u64) | 0x0100_0000u64 == bits | 0x0100_0000u64)
        by (bit_vector);
}

/// On a value that already has the bit set, applying the mask changes nothing.
pub proof fn lemma_masked_noop_when_disabled(bits: u64)
    requires
        denormals_disabled(bits),
    ensures
        masked(bits) == bits,
{
    assert(bits & 0x0100_0000u64 == 0x0100_0000u64 ==> bits | 0x0100_0000u64 == bits)
        by (bit_vector);
}

/// Computes the active-scope value of `bits`: denormal handling disabled,
/// every unrelated bit untouched.
pub fn masked_value(bits: u64) -> (v: u64)
    ensures
        v == masked(bits),
        denormals_disabled(v),
        v & !FLUSH_TO_ZERO == bits & !FLUSH_TO_ZERO,
{
    proof {
        lemma_masked_disables(bits);
        lemma_masked_preserves_unrelated(bits);
    }
    bits | FLUSH_TO_ZERO
}

} // verus!
