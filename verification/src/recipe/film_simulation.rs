use vstd::prelude::*;

verus! {

/// Film simulation of a recipe.
#[derive(Debug, Clone, Copy, PartialEq, Eq, Structural)]
pub enum FilmSimulation {
    Provia,
    Velvia,
    Astia,
    ProNegHigh,
    ProNegStandard,
    Monochrome,
    MonochromeYellow,
    MonochromeRed,
    MonochromeGreen,
    Sepia,
    ClassicChrome,
    Acros,
    AcrosYellow,
    AcrosRed,
    AcrosGreen,
    Eterna,
    ClassicNegative,
    EternaBleachBypass,
    NostalgicNegative,
    RealaAce,
}

} // verus!
