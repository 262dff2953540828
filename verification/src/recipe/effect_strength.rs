use vstd::prelude::*;

verus! {

/// Strength of Smooth Skin, Color Chrome and Color Chrome FX Blue.
#[derive(Debug, Clone, Copy, PartialEq, Eq, Structural)]
pub enum EffectStrength {
    Off,
    Weak,
    Strong,
}

} // verus!
