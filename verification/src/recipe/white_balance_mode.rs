use vstd::prelude::*;

verus! {

/// White balance preset.
#[derive(Debug, Clone, Copy, PartialEq, Eq, Structural)]
pub enum WhiteBalanceMode {
    Auto,
    Daylight,
    Shade,
    Fluorescent1,
    Fluorescent2,
    Fluorescent3,
    Incandescent,
    Underwater,
    ColorTemperature,
    AmbiencePriority,
}

} // verus!
