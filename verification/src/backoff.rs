//! The spinning back-off of `parking_lot_core`, used while a thread waits for the small
//! spin lock that guards a parked-thread slot.
use vstd::prelude::*;
use parking_lot_core::SpinWait;

verus! {

/// `parking_lot_core::SpinWait`, a counter for exponential back-off; opaque here.
#[verifier::external_type_specification]
#[verifier::external_body]
pub struct ExSpinWait(SpinWait);

/// `SpinWait::spin` spins for a while (yielding the processor after a few rounds) and
/// tells whether spinning is still worth it. Nothing is claimed of the result, which
/// depends on the counter inside the `SpinWait`.
pub assume_specification[ SpinWait::spin ](sw: &mut SpinWait) -> bool;

} // verus!
