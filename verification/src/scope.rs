//! The scope protocol — save, mask, run, restore — stated and proved over a
//! model register.
//!
//! The verifier cannot observe the hardware control register, so the protocol
//! that [`crate::no_denormals`] follows is verified here against a register
//! held as a plain value: entry saves the value it finds and writes it back
//! with the mask applied, exit writes the snapshot back verbatim. The laws at
//! the bottom state how scopes compose, sequentially and nested.
use vstd::prelude::*;

use crate::mxcsr::denormals_disabled;
use crate::mxcsr::lemma_masked_disables;
use crate::mxcsr::masked;
use crate::mxcsr::masked_value;
use crate::mxcsr::DENORMAL_MASK;

verus! {

/// A model of one thread's floating-point control register.
pub struct ControlRegister {
    pub bits: u32,
}

/// A scope guard over the model register: owns the snapshot taken at entry.
pub struct ScopeGuard {
    pub saved: u32,
}

/// What entry captures: the register value found at entry, verbatim.
pub open spec fn entry_snapshot(before: u32) -> u32 {
    before
}

/// What entry writes: the found value with the denormal-disabling mask
/// applied.
pub open spec fn entry_register(before: u32) -> u32 {
    masked(before)
}

/// What exit writes: the snapshot, verbatim — never a recomputed value.
pub open spec fn exit_register(snapshot: u32) -> u32 {
    snapshot
}

impl ScopeGuard {
    /// Scope entry: captures the register value, then applies the mask to the
    /// register. Every bit outside the mask is left untouched.
    pub fn enter(reg: &mut ControlRegister) -> (guard: ScopeGuard)
        ensures
            guard.saved == entry_snapshot(old(reg).bits),
            final(reg).bits == entry_register(old(reg).bits),
            denormals_disabled(final(reg).bits),
            final(reg).bits & !DENORMAL_MASK == old(reg).bits & !DENORMAL_MASK,
    {
        let saved = reg.bits;
        reg.bits = masked_value(saved);
        ScopeGuard { saved }
    }

    /// Scope exit: writes the snapshot back, bit for bit.
    pub fn exit(self, reg: &mut ControlRegister)
        ensures
            final(reg).bits == exit_register(self.saved),
    {
        reg.bits = self.saved;
    }
}

/// Runs `func` with denormal handling disabled on the model register, then
/// restores the register to the exact value it held before, and hands back
/// `func`'s result unchanged.
pub fn with_denormals_disabled<T, F: FnOnce() -> T>(reg: &mut ControlRegister, func: F) -> (ret: T)
    requires
        call_requires(func, ()),
    ensures
        final(reg).bits == old(reg).bits,
        call_ensures(func, (), ret),
{
    let guard = ScopeGuard::enter(reg);
    let ret = func();
    guard.exit(reg);
    ret
}

/// Restoration: a scope that enters on a register holding `before` and then
/// exits leaves the register holding `before` again, bit for bit, whatever
/// value `before` is.
pub proof fn lemma_scope_restores(before: u32)
    ensures
        exit_register(entry_snapshot(before)) == before,
{
}

/// Sequential scopes: two scopes entered and exited back to back each restore
/// the register independently, so the value after either one equals the value
/// before the first.
pub proof fn lemma_sequential_scopes_restore(before: u32)
    ensures
        ({
            let after_first = exit_register(entry_snapshot(before));
            let after_second = exit_register(entry_snapshot(after_first));
            after_first == before && after_second == before
        }),
{
}

/// Nested scopes: an inner scope entered while an outer scope is active
/// restores, on its exit, the outer scope's denormals-disabled value — not the
/// pre-outer value — and the outer scope's exit then restores the original.
pub proof fn lemma_nested_scope_keeps_outer_state(before: u32)
    ensures
        ({
            let outer_active = entry_register(before);
            let after_inner = exit_register(entry_snapshot(outer_active));
            &&& after_inner == outer_active
            &&& denormals_disabled(after_inner)
            &&& exit_register(entry_snapshot(before)) == before
        }),
{
    lemma_masked_disables(before);
}

} // verus!
