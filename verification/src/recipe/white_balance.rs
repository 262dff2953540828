use vstd::prelude::*;
use super::WhiteBalanceMode;

verus! {

/// White balance of a recipe: preset, red/blue shift and, for the color temperature preset,
/// the temperature in kelvin.
#[derive(Debug, Clone, Copy, PartialEq, Eq, Structural)]
pub struct WhiteBalance {
    pub mode: WhiteBalanceMode,
    pub shift_r: i16,
    pub shift_b: i16,
    pub color_temperature: Option<u16>,
}

} // verus!
