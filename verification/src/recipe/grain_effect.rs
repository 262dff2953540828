use vstd::prelude::*;

verus! {

/// Grain effect: strength and size.
#[derive(Debug, Clone, Copy, PartialEq, Eq, Structural)]
pub enum GrainEffect {
    Off,
    WeakSmall,
    StrongSmall,
    WeakLarge,
    StrongLarge,
}

} // verus!
