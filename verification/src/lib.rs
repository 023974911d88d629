//! Scoped disabling of floating-point denormal (subnormal) support.
//!
//! Arithmetic on subnormal values is markedly slower on common processors, so
//! numeric and DSP code often wants them switched off for a stretch of work.
//! [`no_denormals`] runs a caller-supplied computation with the processor's
//! denormal support disabled — on x86_64 by setting the flush-to-zero and
//! denormals-are-zero bits of the MXCSR control register — and restores the
//! register to its prior value, bit for bit, when the computation finishes.
//!
//! The save/mask/restore protocol itself is stated and proved in [`scope`]
//! over a model register, since the verifier cannot observe the hardware one;
//! the bit-level facts about the two register layouts live in [`mxcsr`] and
//! [`fpcr`].
use vstd::prelude::*;

pub mod fpcr;
pub mod mxcsr;
pub mod scope;

verus! {

/// Calls `func` with denormal floating-point support disabled on the calling
/// thread, then restores the control register to the exact value it held
/// before the call, and returns `func`'s result unchanged.
pub fn no_denormals<T, F: FnOnce() -> T>(func: F) -> (ret: T)
    requires
        call_requires(func, ()),
    ensures
        call_ensures(func, (), ret),
{
    let _guard = mxcsr::DenormalGuard::new();
    let ret = func();
    ret
}

} // verus!
