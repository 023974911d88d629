//! The x86/x86_64 MXCSR control register: the bits that govern denormal
//! handling, and the hardware guard that sets and restores them.
use vstd::prelude::*;

verus! {

/// MXCSR bit 15, flush-to-zero: results that would be subnormal are rounded
/// to zero instead.
pub const FLUSH_TO_ZERO: u32 = 0x8000;

/// MXCSR bit 6, denormals-are-zero: subnormal input operands are treated as
/// zero before the operation executes.
pub const DENORMALS_ARE_ZERO: u32 = 0x0040;

/// The OR-mask a scope applies on entry: both denormal-disabling bits.
pub const DENORMAL_MASK: u32 = 0x8040;

/// Bits 16 to 31 of MXCSR are reserved; loading a value with any of them set
/// faults, so every value this crate writes keeps them clear.
pub open spec fn reserved_clear(bits: u32) -> bool {
    bits & 0xFFFF_0000u32 == 0
}

/// Does `bits` have both denormal-disabling bits set?
pub open spec fn denormals_disabled(bits: u32) -> bool {
    bits & DENORMAL_MASK == DENORMAL_MASK
}

/// The register value while a scope is active: the value found at entry with
/// the denormal-disabling mask applied.
pub open spec fn masked(bits: u32) -> u32 {
    bits | DENORMAL_MASK
}

/// The OR-mask is exactly the two denormal-disabling bits, and nothing more.
pub proof fn lemma_mask_composition()
    ensures
        DENORMAL_MASK == FLUSH_TO_ZERO | DENORMALS_ARE_ZERO,
{
    assert(0x8040u32 == 0x8000u32 | 0x0040u32) by (bit_vector);
}

/// Applying the mask disables denormal handling.
pub proof fn lemma_masked_disables(bits: u32)
    ensures
        denormals_disabled(masked(bits)),
{
    assert((bits | 0x8040u32) & 0x8040u32 == 0x8040u32) by (bit_vector);
}

/// Applying the mask never clobbers a bit outside the mask.
pub proof fn lemma_masked_preserves_unrelated(bits: u32)
    ensures
        masked(bits) & !DENORMAL_MASK == bits & !DENORMAL_MASK,
{
    assert((bits | 0x8040u32) & !0x8040u32 == bits & !0x8040u32) by (bit_vector);
}

/// Applying the mask twice is the same as applying it once.
pub proof fn lemma_masked_idempotent(bits: u32)
    ensures
        masked(masked(bits)) == masked(bits),
{
    assert((bits | 0x8040u32) | 0x8040u32 == bits | 0x8040u32) by (bit_vector);
}

/// On a value that already has both bits set, applying the mask changes
/// nothing: an inner scope entered under an outer one saves and rewrites the
/// outer scope's value verbatim.
pub proof fn lemma_masked_noop_when_disabled(bits: u32)
    requires
        denormals_disabled(bits),
    ensures
        masked(bits) == bits,
{
    assert(bits & 0x8040u32 == 0x8040u32 ==> bits | 0x8040u32 == bits) by (bit_vector);
}

/// Applying the mask keeps the reserved high bits clear.
pub proof fn lemma_masked_reserved_clear(bits: u32)
    requires
        reserved_clear(bits),
    ensures
        reserved_clear(masked(bits)),
{
    assert(bits & 0xFFFF_0000u32 == 0 ==> (bits | 0x8040u32) & 0xFFFF_0000u32 == 0)
        by (bit_vector);
}

/// Computes the active-scope value of `bits`: denormal handling disabled,
/// every unrelated bit untouched.
pub fn masked_value(bits: u32) -> (v: u32)
    ensures
        v == masked(bits),
        denormals_disabled(v),
        v & !DENORMAL_MASK == bits & !DENORMAL_MASK,
{
    proof {
        lemma_masked_disables(bits);
        lemma_masked_preserves_unrelated(bits);
    }
    bits | DENORMAL_MASK
}

/// Relies on `x86_64::registers::mxcsr::read` (the `stmxcsr` instruction): it
/// returns this thread's current MXCSR value, with the reserved high bits
/// reported as zero.
#[verifier::external_body]
fn read_mxcsr() -> (bits: u32)
    ensures
        reserved_clear(bits),
{
    x86_64::registers::mxcsr::read().bits()
}

/// Relies on `x86_64::registers::mxcsr::write` (the `ldmxcsr` instruction): it
/// sets this thread's MXCSR to exactly `bits`. The reserved high bits must be
/// clear, since loading a value with any of them set faults.
#[verifier::external_body]
fn write_mxcsr(bits: u32)
    requires
        reserved_clear(bits),
    no_unwind
{
    x86_64::registers::mxcsr::write(x86_64::registers::mxcsr::MxCsr::from_bits_retain(bits))
}

/// The hardware scope guard. Creating it reads MXCSR, keeps that value as the
/// snapshot, and writes the snapshot with the denormal-disabling mask applied;
/// dropping it writes the snapshot back verbatim. Restoration runs on every
/// exit path, normal or unwinding, because it sits in `drop`.
///
/// MXCSR is per-thread state, so the guard is created and dropped on the same
/// thread and never handed out.
pub(crate) struct DenormalGuard {
    saved: u32,
}

#[verifier::type_invariant]
spec fn guard_well_formed(guard: DenormalGuard) -> bool {
    reserved_clear(guard.saved)
}

impl DenormalGuard {
    /// Enters a scope: saves MXCSR and disables denormal handling.
    pub(crate) fn new() -> DenormalGuard {
        let saved = read_mxcsr();
        let active = masked_value(saved);
        proof {
            lemma_masked_reserved_clear(saved);
        }
        write_mxcsr(active);
        DenormalGuard { saved }
    }
}

impl Drop for DenormalGuard {
    /// Exits the scope: writes the saved snapshot back, bit for bit, on every
    /// exit path, normal or unwinding.
    ///
    /// Relies on `x86_64::registers::mxcsr::write` (the `ldmxcsr` instruction).
    /// The guard's invariant keeps the snapshot's reserved high bits clear, so
    /// the load cannot fault.
    #[verifier::external_body]
    fn drop(&mut self)
        opens_invariants none
        no_unwind
    {
        x86_64::registers::mxcsr::write(x86_64::registers::mxcsr::MxCsr::from_bits_retain(
            self.saved,
        ))
    }
}

} // verus!
