//! The part of the Android bridge that is not JNI: the names under which recipe settings
//! travel to the Kotlin app, and the operations on a connection that may not be open yet.
use vstd::prelude::*;
use crate::ptp::{FujiPtp, FujiPtpError};
use crate::ptp::fuji::{
    answer_refused, carried_out, fuji_outcome, is_exchange_error, link_reported, names_plan,
    profile_read, recipe_plan,
};
use crate::ptp::session::{self, PtpOp};
use crate::recipe::{
    DynamicRange, EffectStrength, FilmSimulation, GrainEffect, Profile, Recipe, RecipeView,
    WhiteBalanceMode,
};
use crate::transport::Transport;

verus! {

/// Why a bridge operation failed.
#[derive(Debug)]
pub enum BridgeError {
    /// No camera connection is open.
    NotConnected,
    /// A camera connection is open already.
    AlreadyConnected,
    /// Setting names needs exactly seven of them; this many were given.
    WrongNameCount(usize),
    /// The recipe that the application sent could not be taken, for the reason given.
    InvalidRecipe(String),
    OpenSessionFailed(FujiPtpError),
    CloseSessionFailed(FujiPtpError),
    ReadRecipesFailed(FujiPtpError),
    /// Writing the recipe to the slot failed.
    WriteRecipeFailed(u8, FujiPtpError),
    WriteNamesFailed(FujiPtpError),
}

/// Whether `a` and `b` are the same text, compared character by character.
fn same_text(a: &str, b: &str) -> (r: bool)
    ensures
        r == (a@ == b@),
{
    let n = a.unicode_len();
    if n != b.unicode_len() {
        return false;
    }
    let mut i: usize = 0;
    while i < n
        invariant
            n == a@.len(),
            n == b@.len(),
            0 <= i <= n,
            forall|k: int| 0 <= k < i ==> a@[k] == b@[k],
        decreases n - i,
    {
        if a.get_char(i) != b.get_char(i) {
            return false;
        }
        i = i + 1;
    }
    assert(a@ =~= b@);
    true
}

pub open spec fn film_label(f: FilmSimulation) -> Seq<char> {
    match f {
        FilmSimulation::Provia => "Provia"@,
        FilmSimulation::Velvia => "Velvia"@,
        FilmSimulation::Astia => "Astia"@,
        FilmSimulation::ProNegHigh => "ProNegHigh"@,
        FilmSimulation::ProNegStandard => "ProNegStandard"@,
        FilmSimulation::Monochrome => "Monochrome"@,
        FilmSimulation::MonochromeYellow => "MonochromeYellow"@,
        FilmSimulation::MonochromeRed => "MonochromeRed"@,
        FilmSimulation::MonochromeGreen => "MonochromeGreen"@,
        FilmSimulation::Sepia => "Sepia"@,
        FilmSimulation::ClassicChrome => "ClassicChrome"@,
        FilmSimulation::Acros => "Acros"@,
        FilmSimulation::AcrosYellow => "AcrosYellow"@,
        FilmSimulation::AcrosRed => "AcrosRed"@,
        FilmSimulation::AcrosGreen => "AcrosGreen"@,
        FilmSimulation::Eterna => "Eterna"@,
        FilmSimulation::ClassicNegative => "ClassicNegative"@,
        FilmSimulation::EternaBleachBypass => "EternaBleachBypass"@,
        FilmSimulation::NostalgicNegative => "NostalgicNegative"@,
        FilmSimulation::RealaAce => "RealaAce"@,
    }
}

pub open spec fn dr_label(d: DynamicRange) -> Seq<char> {
    match d {
        DynamicRange::Dr100 => "Dr100"@,
        DynamicRange::Dr200 => "Dr200"@,
        DynamicRange::Dr400 => "Dr400"@,
    }
}

pub open spec fn grain_label(g: GrainEffect) -> Seq<char> {
    match g {
        GrainEffect::Off => "Off"@,
        GrainEffect::WeakSmall => "WeakSmall"@,
        GrainEffect::StrongSmall => "StrongSmall"@,
        GrainEffect::WeakLarge => "WeakLarge"@,
        GrainEffect::StrongLarge => "StrongLarge"@,
    }
}

pub open spec fn strength_label(e: EffectStrength) -> Seq<char> {
    match e {
        EffectStrength::Off => "Off"@,
        EffectStrength::Weak => "Weak"@,
        EffectStrength::Strong => "Strong"@,
    }
}

pub open spec fn wb_label(w: WhiteBalanceMode) -> Seq<char> {
    match w {
        WhiteBalanceMode::Auto => "Auto"@,
        WhiteBalanceMode::Daylight => "Daylight"@,
        WhiteBalanceMode::Shade => "Shade"@,
        WhiteBalanceMode::Fluorescent1 => "Fluorescent1"@,
        WhiteBalanceMode::Fluorescent2 => "Fluorescent2"@,
        WhiteBalanceMode::Fluorescent3 => "Fluorescent3"@,
        WhiteBalanceMode::Incandescent => "Incandescent"@,
        WhiteBalanceMode::Underwater => "Underwater"@,
        WhiteBalanceMode::ColorTemperature => "ColorTemperature"@,
        WhiteBalanceMode::AmbiencePriority => "AmbiencePriority"@,
    }
}

/// The setting that the app names `s`.
pub fn film_from(s: &str) -> (r: Option<FilmSimulation>)
    ensures
        r matches Some(x) ==> film_label(x) == s@,
        r is None ==> forall|x: FilmSimulation| film_label(x) != s@,
{
    if same_text(s, "Provia") {
        Some(FilmSimulation::Provia)
    } else if same_text(s, "Velvia") {
        Some(FilmSimulation::Velvia)
    } else if same_text(s, "Astia") {
        Some(FilmSimulation::Astia)
    } else if same_text(s, "ProNegHigh") {
        Some(FilmSimulation::ProNegHigh)
    } else if same_text(s, "ProNegStandard") {
        Some(FilmSimulation::ProNegStandard)
    } else if same_text(s, "Monochrome") {
        Some(FilmSimulation::Monochrome)
    } else if same_text(s, "MonochromeYellow") {
        Some(FilmSimulation::MonochromeYellow)
    } else if same_text(s, "MonochromeRed") {
        Some(FilmSimulation::MonochromeRed)
    } else if same_text(s, "MonochromeGreen") {
        Some(FilmSimulation::MonochromeGreen)
    } else if same_text(s, "Sepia") {
        Some(FilmSimulation::Sepia)
    } else if same_text(s, "ClassicChrome") {
        Some(FilmSimulation::ClassicChrome)
    } else if same_text(s, "Acros") {
        Some(FilmSimulation::Acros)
    } else if same_text(s, "AcrosYellow") {
        Some(FilmSimulation::AcrosYellow)
    } else if same_text(s, "AcrosRed") {
        Some(FilmSimulation::AcrosRed)
    } else if same_text(s, "AcrosGreen") {
        Some(FilmSimulation::AcrosGreen)
    } else if same_text(s, "Eterna") {
        Some(FilmSimulation::Eterna)
    } else if same_text(s, "ClassicNegative") {
        Some(FilmSimulation::ClassicNegative)
    } else if same_text(s, "EternaBleachBypass") {
        Some(FilmSimulation::EternaBleachBypass)
    } else if same_text(s, "NostalgicNegative") {
        Some(FilmSimulation::NostalgicNegative)
    } else if same_text(s, "RealaAce") {
        Some(FilmSimulation::RealaAce)
    } else {
        None
    }
}

/// The name under which the app knows a setting.
pub fn film_name(x: &FilmSimulation) -> (s: &'static str)
    ensures
        s@ == film_label(*x),
{
    match x {
        FilmSimulation::Provia => "Provia",
        FilmSimulation::Velvia => "Velvia",
        FilmSimulation::Astia => "Astia",
        FilmSimulation::ProNegHigh => "ProNegHigh",
        FilmSimulation::ProNegStandard => "ProNegStandard",
        FilmSimulation::Monochrome => "Monochrome",
        FilmSimulation::MonochromeYellow => "MonochromeYellow",
        FilmSimulation::MonochromeRed => "MonochromeRed",
        FilmSimulation::MonochromeGreen => "MonochromeGreen",
        FilmSimulation::Sepia => "Sepia",
        FilmSimulation::ClassicChrome => "ClassicChrome",
        FilmSimulation::Acros => "Acros",
        FilmSimulation::AcrosYellow => "AcrosYellow",
        FilmSimulation::AcrosRed => "AcrosRed",
        FilmSimulation::AcrosGreen => "AcrosGreen",
        FilmSimulation::Eterna => "Eterna",
        FilmSimulation::ClassicNegative => "ClassicNegative",
        FilmSimulation::EternaBleachBypass => "EternaBleachBypass",
        FilmSimulation::NostalgicNegative => "NostalgicNegative",
        FilmSimulation::RealaAce => "RealaAce",
    }
}

/// The setting that the app names `s`.
pub fn dr_from(s: &str) -> (r: Option<DynamicRange>)
    ensures
        r matches Some(x) ==> dr_label(x) == s@,
        r is None ==> forall|x: DynamicRange| dr_label(x) != s@,
{
    if same_text(s, "Dr100") {
        Some(DynamicRange::Dr100)
    } else if same_text(s, "Dr200") {
        Some(DynamicRange::Dr200)
    } else if same_text(s, "Dr400") {
        Some(DynamicRange::Dr400)
    } else {
        None
    }
}

/// The name under which the app knows a setting.
pub fn dr_name(x: &DynamicRange) -> (s: &'static str)
    ensures
        s@ == dr_label(*x),
{
    match x {
        DynamicRange::Dr100 => "Dr100",
        DynamicRange::Dr200 => "Dr200",
        DynamicRange::Dr400 => "Dr400",
    }
}

/// The setting that the app names `s`.
pub fn grain_from(s: &str) -> (r: Option<GrainEffect>)
    ensures
        r matches Some(x) ==> grain_label(x) == s@,
        r is None ==> forall|x: GrainEffect| grain_label(x) != s@,
{
    if same_text(s, "Off") {
        Some(GrainEffect::Off)
    } else if same_text(s, "WeakSmall") {
        Some(GrainEffect::WeakSmall)
    } else if same_text(s, "StrongSmall") {
        Some(GrainEffect::StrongSmall)
    } else if same_text(s, "WeakLarge") {
        Some(GrainEffect::WeakLarge)
    } else if same_text(s, "StrongLarge") {
        Some(GrainEffect::StrongLarge)
    } else {
        None
    }
}

/// The name under which the app knows a setting.
pub fn grain_name(x: &GrainEffect) -> (s: &'static str)
    ensures
        s@ == grain_label(*x),
{
    match x {
        GrainEffect::Off => "Off",
        GrainEffect::WeakSmall => "WeakSmall",
        GrainEffect::StrongSmall => "StrongSmall",
        GrainEffect::WeakLarge => "WeakLarge",
        GrainEffect::StrongLarge => "StrongLarge",
    }
}

/// The setting that the app names `s`.
pub fn strength_from(s: &str) -> (r: Option<EffectStrength>)
    ensures
        r matches Some(x) ==> strength_label(x) == s@,
        r is None ==> forall|x: EffectStrength| strength_label(x) != s@,
{
    if same_text(s, "Off") {
        Some(EffectStrength::Off)
    } else if same_text(s, "Weak") {
        Some(EffectStrength::Weak)
    } else if same_text(s, "Strong") {
        Some(EffectStrength::Strong)
    } else {
        None
    }
}

/// The name under which the app knows a setting.
pub fn strength_name(x: &EffectStrength) -> (s: &'static str)
    ensures
        s@ == strength_label(*x),
{
    match x {
        EffectStrength::Off => "Off",
        EffectStrength::Weak => "Weak",
        EffectStrength::Strong => "Strong",
    }
}

/// The setting that the app names `s`.
pub fn wb_from(s: &str) -> (r: Option<WhiteBalanceMode>)
    ensures
        r matches Some(x) ==> wb_label(x) == s@,
        r is None ==> forall|x: WhiteBalanceMode| wb_label(x) != s@,
{
    if same_text(s, "Auto") {
        Some(WhiteBalanceMode::Auto)
    } else if same_text(s, "Daylight") {
        Some(WhiteBalanceMode::Daylight)
    } else if same_text(s, "Shade") {
        Some(WhiteBalanceMode::Shade)
    } else if same_text(s, "Fluorescent1") {
        Some(WhiteBalanceMode::Fluorescent1)
    } else if same_text(s, "Fluorescent2") {
        Some(WhiteBalanceMode::Fluorescent2)
    } else if same_text(s, "Fluorescent3") {
        Some(WhiteBalanceMode::Fluorescent3)
    } else if same_text(s, "Incandescent") {
        Some(WhiteBalanceMode::Incandescent)
    } else if same_text(s, "Underwater") {
        Some(WhiteBalanceMode::Underwater)
    } else if same_text(s, "ColorTemperature") {
        Some(WhiteBalanceMode::ColorTemperature)
    } else if same_text(s, "AmbiencePriority") {
        Some(WhiteBalanceMode::AmbiencePriority)
    } else {
        None
    }
}

/// The name under which the app knows a setting.
pub fn wb_name(x: &WhiteBalanceMode) -> (s: &'static str)
    ensures
        s@ == wb_label(*x),
{
    match x {
        WhiteBalanceMode::Auto => "Auto",
        WhiteBalanceMode::Daylight => "Daylight",
        WhiteBalanceMode::Shade => "Shade",
        WhiteBalanceMode::Fluorescent1 => "Fluorescent1",
        WhiteBalanceMode::Fluorescent2 => "Fluorescent2",
        WhiteBalanceMode::Fluorescent3 => "Fluorescent3",
        WhiteBalanceMode::Incandescent => "Incandescent",
        WhiteBalanceMode::Underwater => "Underwater",
        WhiteBalanceMode::ColorTemperature => "ColorTemperature",
        WhiteBalanceMode::AmbiencePriority => "AmbiencePriority",
    }
}

/// Each FilmSimulation has a name of its own, so the name of a setting reads back as that setting.
pub proof fn law_film_names_distinct(a: FilmSimulation, b: FilmSimulation)
    ensures
        film_label(a) == film_label(b) ==> a == b,
{
    reveal_strlit("Provia");
    reveal_strlit("Velvia");
    reveal_strlit("Astia");
    reveal_strlit("ProNegHigh");
    reveal_strlit("ProNegStandard");
    reveal_strlit("Monochrome");
    reveal_strlit("MonochromeYellow");
    reveal_strlit("MonochromeRed");
    reveal_strlit("MonochromeGreen");
    reveal_strlit("Sepia");
    reveal_strlit("ClassicChrome");
    reveal_strlit("Acros");
    reveal_strlit("AcrosYellow");
    reveal_strlit("AcrosRed");
    reveal_strlit("AcrosGreen");
    reveal_strlit("Eterna");
    reveal_strlit("ClassicNegative");
    reveal_strlit("EternaBleachBypass");
    reveal_strlit("NostalgicNegative");
    reveal_strlit("RealaAce");
    if film_label(a) == film_label(b) && a != b {
        assert(film_label(a).len() == film_label(b).len());
        assert(film_label(a).len() > 0 ==> film_label(a)[0] == film_label(b)[0]);
        assert(film_label(a).len() > 1 ==> film_label(a)[1] == film_label(b)[1]);
        assert(film_label(a).len() > 2 ==> film_label(a)[2] == film_label(b)[2]);
        assert(film_label(a).len() > 3 ==> film_label(a)[3] == film_label(b)[3]);
        assert(film_label(a).len() > 4 ==> film_label(a)[4] == film_label(b)[4]);
        assert(film_label(a).len() > 5 ==> film_label(a)[5] == film_label(b)[5]);
        assert(film_label(a).len() > 6 ==> film_label(a)[6] == film_label(b)[6]);
        assert(film_label(a).len() > 7 ==> film_label(a)[7] == film_label(b)[7]);
        assert(film_label(a).len() > 8 ==> film_label(a)[8] == film_label(b)[8]);
        assert(film_label(a).len() > 9 ==> film_label(a)[9] == film_label(b)[9]);
        assert(film_label(a).len() > 10 ==> film_label(a)[10] == film_label(b)[10]);
        assert(film_label(a).len() > 11 ==> film_label(a)[11] == film_label(b)[11]);
        assert(film_label(a).len() > 12 ==> film_label(a)[12] == film_label(b)[12]);
        assert(film_label(a).len() > 13 ==> film_label(a)[13] == film_label(b)[13]);
        assert(film_label(a).len() > 14 ==> film_label(a)[14] == film_label(b)[14]);
        assert(film_label(a).len() > 15 ==> film_label(a)[15] == film_label(b)[15]);
        assert(film_label(a).len() > 16 ==> film_label(a)[16] == film_label(b)[16]);
        assert(film_label(a).len() > 17 ==> film_label(a)[17] == film_label(b)[17]);
        assert(film_label(a).len() > 18 ==> film_label(a)[18] == film_label(b)[18]);
    }
}

/// Each DynamicRange has a name of its own, so the name of a setting reads back as that setting.
pub proof fn law_dr_names_distinct(a: DynamicRange, b: DynamicRange)
    ensures
        dr_label(a) == dr_label(b) ==> a == b,
{
    reveal_strlit("Dr100");
    reveal_strlit("Dr200");
    reveal_strlit("Dr400");
    if dr_label(a) == dr_label(b) && a != b {
        assert(dr_label(a).len() == dr_label(b).len());
        assert(dr_label(a).len() > 0 ==> dr_label(a)[0] == dr_label(b)[0]);
        assert(dr_label(a).len() > 1 ==> dr_label(a)[1] == dr_label(b)[1]);
        assert(dr_label(a).len() > 2 ==> dr_label(a)[2] == dr_label(b)[2]);
        assert(dr_label(a).len() > 3 ==> dr_label(a)[3] == dr_label(b)[3]);
        assert(dr_label(a).len() > 4 ==> dr_label(a)[4] == dr_label(b)[4]);
        assert(dr_label(a).len() > 5 ==> dr_label(a)[5] == dr_label(b)[5]);
        assert(dr_label(a).len() > 6 ==> dr_label(a)[6] == dr_label(b)[6]);
        assert(dr_label(a).len() > 7 ==> dr_label(a)[7] == dr_label(b)[7]);
        assert(dr_label(a).len() > 8 ==> dr_label(a)[8] == dr_label(b)[8]);
        assert(dr_label(a).len() > 9 ==> dr_label(a)[9] == dr_label(b)[9]);
        assert(dr_label(a).len() > 10 ==> dr_label(a)[10] == dr_label(b)[10]);
        assert(dr_label(a).len() > 11 ==> dr_label(a)[11] == dr_label(b)[11]);
        assert(dr_label(a).len() > 12 ==> dr_label(a)[12] == dr_label(b)[12]);
        assert(dr_label(a).len() > 13 ==> dr_label(a)[13] == dr_label(b)[13]);
        assert(dr_label(a).len() > 14 ==> dr_label(a)[14] == dr_label(b)[14]);
        assert(dr_label(a).len() > 15 ==> dr_label(a)[15] == dr_label(b)[15]);
        assert(dr_label(a).len() > 16 ==> dr_label(a)[16] == dr_label(b)[16]);
        assert(dr_label(a).len() > 17 ==> dr_label(a)[17] == dr_label(b)[17]);
        assert(dr_label(a).len() > 18 ==> dr_label(a)[18] == dr_label(b)[18]);
    }
}

/// Each GrainEffect has a name of its own, so the name of a setting reads back as that setting.
pub proof fn law_grain_names_distinct(a: GrainEffect, b: GrainEffect)
    ensures
        grain_label(a) == grain_label(b) ==> a == b,
{
    reveal_strlit("Off");
    reveal_strlit("WeakSmall");
    reveal_strlit("StrongSmall");
    reveal_strlit("WeakLarge");
    reveal_strlit("StrongLarge");
    if grain_label(a) == grain_label(b) && a != b {
        assert(grain_label(a).len() == grain_label(b).len());
        assert(grain_label(a).len() > 0 ==> grain_label(a)[0] == grain_label(b)[0]);
        assert(grain_label(a).len() > 1 ==> grain_label(a)[1] == grain_label(b)[1]);
        assert(grain_label(a).len() > 2 ==> grain_label(a)[2] == grain_label(b)[2]);
        assert(grain_label(a).len() > 3 ==> grain_label(a)[3] == grain_label(b)[3]);
        assert(grain_label(a).len() > 4 ==> grain_label(a)[4] == grain_label(b)[4]);
        assert(grain_label(a).len() > 5 ==> grain_label(a)[5] == grain_label(b)[5]);
        assert(grain_label(a).len() > 6 ==> grain_label(a)[6] == grain_label(b)[6]);
        assert(grain_label(a).len() > 7 ==> grain_label(a)[7] == grain_label(b)[7]);
        assert(grain_label(a).len() > 8 ==> grain_label(a)[8] == grain_label(b)[8]);
        assert(grain_label(a).len() > 9 ==> grain_label(a)[9] == grain_label(b)[9]);
        assert(grain_label(a).len() > 10 ==> grain_label(a)[10] == grain_label(b)[10]);
        assert(grain_label(a).len() > 11 ==> grain_label(a)[11] == grain_label(b)[11]);
        assert(grain_label(a).len() > 12 ==> grain_label(a)[12] == grain_label(b)[12]);
        assert(grain_label(a).len() > 13 ==> grain_label(a)[13] == grain_label(b)[13]);
        assert(grain_label(a).len() > 14 ==> grain_label(a)[14] == grain_label(b)[14]);
        assert(grain_label(a).len() > 15 ==> grain_label(a)[15] == grain_label(b)[15]);
        assert(grain_label(a).len() > 16 ==> grain_label(a)[16] == grain_label(b)[16]);
        assert(grain_label(a).len() > 17 ==> grain_label(a)[17] == grain_label(b)[17]);
        assert(grain_label(a).len() > 18 ==> grain_label(a)[18] == grain_label(b)[18]);
    }
}

/// Each EffectStrength has a name of its own, so the name of a setting reads back as that setting.
pub proof fn law_strength_names_distinct(a: EffectStrength, b: EffectStrength)
    ensures
        strength_label(a) == strength_label(b) ==> a == b,
{
    reveal_strlit("Off");
    reveal_strlit("Weak");
    reveal_strlit("Strong");
    if strength_label(a) == strength_label(b) && a != b {
        assert(strength_label(a).len() == strength_label(b).len());
        assert(strength_label(a).len() > 0 ==> strength_label(a)[0] == strength_label(b)[0]);
        assert(strength_label(a).len() > 1 ==> strength_label(a)[1] == strength_label(b)[1]);
        assert(strength_label(a).len() > 2 ==> strength_label(a)[2] == strength_label(b)[2]);
        assert(strength_label(a).len() > 3 ==> strength_label(a)[3] == strength_label(b)[3]);
        assert(strength_label(a).len() > 4 ==> strength_label(a)[4] == strength_label(b)[4]);
        assert(strength_label(a).len() > 5 ==> strength_label(a)[5] == strength_label(b)[5]);
        assert(strength_label(a).len() > 6 ==> strength_label(a)[6] == strength_label(b)[6]);
        assert(strength_label(a).len() > 7 ==> strength_label(a)[7] == strength_label(b)[7]);
        assert(strength_label(a).len() > 8 ==> strength_label(a)[8] == strength_label(b)[8]);
        assert(strength_label(a).len() > 9 ==> strength_label(a)[9] == strength_label(b)[9]);
        assert(strength_label(a).len() > 10 ==> strength_label(a)[10] == strength_label(b)[10]);
        assert(strength_label(a).len() > 11 ==> strength_label(a)[11] == strength_label(b)[11]);
        assert(strength_label(a).len() > 12 ==> strength_label(a)[12] == strength_label(b)[12]);
        assert(strength_label(a).len() > 13 ==> strength_label(a)[13] == strength_label(b)[13]);
        assert(strength_label(a).len() > 14 ==> strength_label(a)[14] == strength_label(b)[14]);
        assert(strength_label(a).len() > 15 ==> strength_label(a)[15] == strength_label(b)[15]);
        assert(strength_label(a).len() > 16 ==> strength_label(a)[16] == strength_label(b)[16]);
        assert(strength_label(a).len() > 17 ==> strength_label(a)[17] == strength_label(b)[17]);
        assert(strength_label(a).len() > 18 ==> strength_label(a)[18] == strength_label(b)[18]);
    }
}

/// Each WhiteBalanceMode has a name of its own, so the name of a setting reads back as that setting.
pub proof fn law_wb_names_distinct(a: WhiteBalanceMode, b: WhiteBalanceMode)
    ensures
        wb_label(a) == wb_label(b) ==> a == b,
{
    reveal_strlit("Auto");
    reveal_strlit("Daylight");
    reveal_strlit("Shade");
    reveal_strlit("Fluorescent1");
    reveal_strlit("Fluorescent2");
    reveal_strlit("Fluorescent3");
    reveal_strlit("Incandescent");
    reveal_strlit("Underwater");
    reveal_strlit("ColorTemperature");
    reveal_strlit("AmbiencePriority");
    if wb_label(a) == wb_label(b) && a != b {
        assert(wb_label(a).len() == wb_label(b).len());
        assert(wb_label(a).len() > 0 ==> wb_label(a)[0] == wb_label(b)[0]);
        assert(wb_label(a).len() > 1 ==> wb_label(a)[1] == wb_label(b)[1]);
        assert(wb_label(a).len() > 2 ==> wb_label(a)[2] == wb_label(b)[2]);
        assert(wb_label(a).len() > 3 ==> wb_label(a)[3] == wb_label(b)[3]);
        assert(wb_label(a).len() > 4 ==> wb_label(a)[4] == wb_label(b)[4]);
        assert(wb_label(a).len() > 5 ==> wb_label(a)[5] == wb_label(b)[5]);
        assert(wb_label(a).len() > 6 ==> wb_label(a)[6] == wb_label(b)[6]);
        assert(wb_label(a).len() > 7 ==> wb_label(a)[7] == wb_label(b)[7]);
        assert(wb_label(a).len() > 8 ==> wb_label(a)[8] == wb_label(b)[8]);
        assert(wb_label(a).len() > 9 ==> wb_label(a)[9] == wb_label(b)[9]);
        assert(wb_label(a).len() > 10 ==> wb_label(a)[10] == wb_label(b)[10]);
        assert(wb_label(a).len() > 11 ==> wb_label(a)[11] == wb_label(b)[11]);
        assert(wb_label(a).len() > 12 ==> wb_label(a)[12] == wb_label(b)[12]);
        assert(wb_label(a).len() > 13 ==> wb_label(a)[13] == wb_label(b)[13]);
        assert(wb_label(a).len() > 14 ==> wb_label(a)[14] == wb_label(b)[14]);
        assert(wb_label(a).len() > 15 ==> wb_label(a)[15] == wb_label(b)[15]);
        assert(wb_label(a).len() > 16 ==> wb_label(a)[16] == wb_label(b)[16]);
        assert(wb_label(a).len() > 17 ==> wb_label(a)[17] == wb_label(b)[17]);
        assert(wb_label(a).len() > 18 ==> wb_label(a)[18] == wb_label(b)[18]);
    }
}

} // verus!

verus! {

/// How a bridge call on an open connection ended, as a session transaction.
pub open spec fn bridge_outcome(r: Result<(), BridgeError>) -> session::Outcome<()> {
    match r {
        Ok(()) => session::Outcome::Done(()),
        Err(BridgeError::OpenSessionFailed(e)) => fuji_outcome(Err(e)),
        Err(BridgeError::CloseSessionFailed(e)) => fuji_outcome(Err(e)),
        Err(BridgeError::WriteNamesFailed(e)) => fuji_outcome(Err(e)),
        Err(_) => session::Outcome::Lost,
    }
}

/// Opens a PTP session on the connection, if there is one.
pub fn open_session<T: Transport>(controller: &mut Option<FujiPtp<T>>, session_id: u32) -> (res: Result<(), BridgeError>)
    requires
        *old(controller) matches Some(f) ==> f.tx() < u32::MAX,
    ensures
        (*old(controller)) is None ==> (res matches Err(BridgeError::NotConnected) && *final(controller) == *old(controller)),
        *old(controller) matches Some(f0) ==> {
            &&& *final(controller) matches Some(f1)
            &&& session::commanded(
                f0.session_state(),
                f1.session_state(),
                session::command_packet(session::OPEN_SESSION, f1.tx(), session_id),
                PtpOp::OpenSession { session_id },
                bridge_outcome(res),
            )
            &&& (res is Ok || (res matches Err(BridgeError::OpenSessionFailed(e)) && is_exchange_error(e)))
            &&& link_reported(f0, f1, res matches Err(BridgeError::OpenSessionFailed(FujiPtpError::TransportError)))
            &&& (res matches Err(BridgeError::OpenSessionFailed(FujiPtpError::Protocol(e))) ==> answer_refused(f1.session_state(), e))
        },
{
    match controller {
        Some(fuji) => match fuji.open_session(session_id) {
            Ok(()) => Ok(()),
            Err(e) => Err(BridgeError::OpenSessionFailed(e)),
        },
        None => Err(BridgeError::NotConnected),
    }
}

/// Closes the PTP session on the connection, if there is one.
pub fn close_session<T: Transport>(controller: &mut Option<FujiPtp<T>>) -> (res: Result<(), BridgeError>)
    requires
        *old(controller) matches Some(f) ==> f.tx() < u32::MAX,
    ensures
        (*old(controller)) is None ==> (res matches Err(BridgeError::NotConnected) && *final(controller) == *old(controller)),
        *old(controller) matches Some(f0) ==> {
            &&& *final(controller) matches Some(f1)
            &&& session::commanded(
                f0.session_state(),
                f1.session_state(),
                session::command_packet_no_params(session::CLOSE_SESSION, f1.tx()),
                PtpOp::CloseSession,
                bridge_outcome(res),
            )
            &&& (res is Ok || (res matches Err(BridgeError::CloseSessionFailed(e)) && is_exchange_error(e)))
            &&& link_reported(f0, f1, res matches Err(BridgeError::CloseSessionFailed(FujiPtpError::TransportError)))
            &&& (res matches Err(BridgeError::CloseSessionFailed(FujiPtpError::Protocol(e))) ==> answer_refused(f1.session_state(), e))
        },
{
    match controller {
        Some(fuji) => match fuji.close_session() {
            Ok(()) => Ok(()),
            Err(e) => Err(BridgeError::CloseSessionFailed(e)),
        },
        None => Err(BridgeError::NotConnected),
    }
}

/// The recipes that carry only the names `names`.
pub open spec fn named_recipes(names: Seq<String>) -> Seq<RecipeView> {
    names.map_values(|n: String| crate::recipe::recipe::default_recipe(n@))
}

/// The result of writing names as a `FujiPtp` result.
pub open spec fn names_result(r: Result<(), BridgeError>) -> Result<(), FujiPtpError> {
    match r {
        Ok(()) => Ok(()),
        Err(BridgeError::WriteNamesFailed(e)) => Err(e),
        Err(_) => Err(FujiPtpError::InvalidSlot),
    }
}

proof fn lemma_names_plan_len(recipes: Seq<RecipeView>, n: nat)
    ensures
        names_plan(recipes, n).writes.len() <= 2 * n,
    decreases n,
{
    if n > 0 {
        lemma_names_plan_len(recipes, (n - 1) as nat);
    }
}

/// Writes only the names of the 7 slots, preserving every other camera value.
pub fn write_recipe_names<T: Transport>(controller: &mut Option<FujiPtp<T>>, names: Vec<String>) -> (res: Result<(), BridgeError>)
    requires
        *old(controller) matches Some(f) ==> f.tx() <= u32::MAX - 14,
    ensures
        names@.len() != 7 ==> (res matches Err(BridgeError::WrongNameCount(n)) && n == names@.len()
            && *final(controller) == *old(controller)),
        names@.len() == 7 && (*old(controller)) is None ==> (res matches Err(BridgeError::NotConnected)
            && *final(controller) == *old(controller)),
        names@.len() == 7 ==> (*old(controller) matches Some(f0) ==> {
            &&& *final(controller) matches Some(f1)
            &&& carried_out(f0, f1, names_plan(named_recipes(names@), 7), names_result(res))
            &&& (res is Ok || res is Err && res->Err_0 is WriteNamesFailed)
        }),
{
    if names.len() != 7 {
        return Err(BridgeError::WrongNameCount(names.len()));
    }
    match controller {
        Some(fuji) => {
            let ghost given = names@;
            let mut names = names;
            let n7 = names.pop().unwrap();
            let n6 = names.pop().unwrap();
            let n5 = names.pop().unwrap();
            let n4 = names.pop().unwrap();
            let n3 = names.pop().unwrap();
            let n2 = names.pop().unwrap();
            let n1 = names.pop().unwrap();
            let recipes: [Recipe; 7] = [
                Recipe::new(n1),
                Recipe::new(n2),
                Recipe::new(n3),
                Recipe::new(n4),
                Recipe::new(n5),
                Recipe::new(n6),
                Recipe::new(n7),
            ];
            let profile = Profile::new(String::from_str("Names only"), recipes);
            assert(profile@.recipes =~= named_recipes(given));
            proof {
                lemma_names_plan_len(named_recipes(given), 7);
            }
            match fuji.write_recipe_names(&profile) {
                Ok(()) => Ok(()),
                Err(e) => Err(BridgeError::WriteNamesFailed(e)),
            }
        },
        None => Err(BridgeError::NotConnected),
    }
}

/// The camera's answer to a read, as `FujiPtp::read_recipes` gave it.
pub open spec fn read_result(r: Result<Profile, BridgeError>) -> Result<Profile, FujiPtpError> {
    match r {
        Ok(p) => Ok(p),
        Err(BridgeError::ReadRecipesFailed(e)) => Err(e),
        Err(_) => Err(FujiPtpError::InvalidSlot),
    }
}

/// The camera's answer to a recipe write, as `FujiPtp::write_recipe` gave it.
pub open spec fn write_result(r: Result<(), BridgeError>) -> Result<(), FujiPtpError> {
    match r {
        Ok(()) => Ok(()),
        Err(BridgeError::WriteRecipeFailed(_, e)) => Err(e),
        Err(_) => Err(FujiPtpError::ProtocolError),
    }
}

/// Reads the seven recipes of the connected camera.
pub fn read_recipes<T: Transport>(controller: &mut Option<FujiPtp<T>>) -> (res: Result<Profile, BridgeError>)
    requires
        *old(controller) matches Some(f) ==> f.tx() + 147 <= u32::MAX,
    ensures
        (*old(controller)) is None ==> (res matches Err(BridgeError::NotConnected) && *final(controller) == *old(controller)),
        *old(controller) matches Some(f0) ==> {
            &&& *final(controller) matches Some(f1)
            &&& profile_read(f0, f1, read_result(res))
            &&& (res is Ok || (res matches Err(BridgeError::ReadRecipesFailed(_))))
        },
{
    match controller {
        Some(fuji) => match fuji.read_recipes() {
            Ok(p) => Ok(p),
            Err(e) => Err(BridgeError::ReadRecipesFailed(e)),
        },
        None => Err(BridgeError::NotConnected),
    }
}

/// Writes `recipe`, as the application sent it, to `slot` of the connected camera. Without
/// a connection nothing else is looked at; a recipe that could not be taken is refused
/// before anything is written.
pub fn write_recipe<T: Transport>(
    controller: &mut Option<FujiPtp<T>>,
    slot: u8,
    recipe: Result<Recipe, String>,
) -> (res: Result<(), BridgeError>)
    requires
        *old(controller) matches Some(f) ==> (recipe matches Ok(r) ==> (1 <= slot <= 7 ==> f.tx()
            + recipe_plan(slot, r@).writes.len() <= u32::MAX)),
    ensures
        (*old(controller)) is None ==> (res matches Err(BridgeError::NotConnected) && *final(controller) == *old(controller)),
        (*old(controller)) is Some ==> (recipe matches Err(m) ==> (res matches Err(
            BridgeError::InvalidRecipe(x),
        ) && x == m && *final(controller) == *old(controller))),
        *old(controller) matches Some(f0) ==> (recipe matches Ok(r) ==> {
            &&& *final(controller) matches Some(f1)
            &&& !(1 <= slot <= 7) ==> (res matches Err(BridgeError::WriteRecipeFailed(s, FujiPtpError::InvalidSlot))
                && s == slot && f1 == f0)
            &&& 1 <= slot <= 7 ==> carried_out(f0, f1, recipe_plan(slot, r@), write_result(res))
            &&& (res is Ok || (res matches Err(BridgeError::WriteRecipeFailed(s, _)) && s == slot))
        }),
{
    match controller {
        Some(fuji) => match recipe {
            Ok(r) => match fuji.write_recipe(slot, &r) {
                Ok(()) => Ok(()),
                Err(e) => Err(BridgeError::WriteRecipeFailed(slot, e)),
            },
            Err(m) => Err(BridgeError::InvalidRecipe(m)),
        },
        None => Err(BridgeError::NotConnected),
    }
}

/// The message for a setting name that the application sent and that names nothing.
pub open spec fn unknown_message(what: Seq<char>, value: Seq<char>) -> Seq<char> {
    "unknown "@ + what + " '"@ + value + "'"@
}

/// The named settings of a recipe that the application sent, in the order in which they are
/// looked up, or the message for the first name that names nothing.
pub open spec fn named_settings(
    film: Seq<char>,
    dr: Seq<char>,
    grain: Seq<char>,
    smooth: Seq<char>,
    cc: Seq<char>,
    fx: Seq<char>,
    wb: Seq<char>,
) -> Result<(), Seq<char>> {
    if !exists|x: FilmSimulation| film_label(x) == film {
        Err(unknown_message("film simulation"@, film))
    } else if !exists|x: DynamicRange| dr_label(x) == dr {
        Err(unknown_message("dynamic range"@, dr))
    } else if !exists|x: GrainEffect| grain_label(x) == grain {
        Err(unknown_message("grain effect"@, grain))
    } else if !exists|x: EffectStrength| strength_label(x) == smooth {
        Err(unknown_message("smooth skin"@, smooth))
    } else if !exists|x: EffectStrength| strength_label(x) == cc {
        Err(unknown_message("color chrome"@, cc))
    } else if !exists|x: EffectStrength| strength_label(x) == fx {
        Err(unknown_message("fx blue"@, fx))
    } else if !exists|x: WhiteBalanceMode| wb_label(x) == wb {
        Err(unknown_message("white balance"@, wb))
    } else {
        Ok(())
    }
}

fn unknown(what: &str, value: &str) -> (m: String)
    ensures
        m@ == unknown_message(what@, value@),
{
    let mut m = String::new();
    m.append("unknown ");
    m.append(what);
    m.append(" '");
    m.append(value);
    m.append("'");
    m
}

/// The settings that the application names: film simulation, dynamic range, grain,
/// smooth skin, Color Chrome, FX Blue and white balance preset, or the message for the
/// first name, in that order, that names nothing.
pub fn settings_from_names(
    film: &str,
    dr: &str,
    grain: &str,
    smooth: &str,
    cc: &str,
    fx: &str,
    wb: &str,
) -> (res: Result<
    (
        FilmSimulation,
        DynamicRange,
        GrainEffect,
        EffectStrength,
        EffectStrength,
        EffectStrength,
        WhiteBalanceMode,
    ),
    String,
>)
    ensures
        match named_settings(film@, dr@, grain@, smooth@, cc@, fx@, wb@) {
            Err(m) => res matches Err(x) && x@ == m,
            Ok(()) => res matches Ok(t) && film_label(t.0) == film@ && dr_label(t.1) == dr@
                && grain_label(t.2) == grain@ && strength_label(t.3) == smooth@ && strength_label(
                t.4,
            ) == cc@ && strength_label(t.5) == fx@ && wb_label(t.6) == wb@,
        },
{
    let f = match film_from(film) {
        Some(x) => x,
        None => {
            return Err(unknown("film simulation", film));
        },
    };
    let d = match dr_from(dr) {
        Some(x) => x,
        None => {
            return Err(unknown("dynamic range", dr));
        },
    };
    let g = match grain_from(grain) {
        Some(x) => x,
        None => {
            return Err(unknown("grain effect", grain));
        },
    };
    let sm = match strength_from(smooth) {
        Some(x) => x,
        None => {
            return Err(unknown("smooth skin", smooth));
        },
    };
    let c = match strength_from(cc) {
        Some(x) => x,
        None => {
            return Err(unknown("color chrome", cc));
        },
    };
    let b = match strength_from(fx) {
        Some(x) => x,
        None => {
            return Err(unknown("fx blue", fx));
        },
    };
    let w = match wb_from(wb) {
        Some(x) => x,
        None => {
            return Err(unknown("white balance", wb));
        },
    };
    Ok((f, d, g, sm, c, b, w))
}

/// Opens a connection over `transport`, unless one is open already; the transport is then
/// dropped and the open connection kept.
pub fn connect<T: Transport>(controller: &mut Option<FujiPtp<T>>, transport: T) -> (res: Result<(), BridgeError>)
    ensures
        (*old(controller)) is Some ==> (res matches Err(BridgeError::AlreadyConnected) && *final(controller) == *old(controller)),
        (*old(controller)) is None ==> {
            &&& res is Ok
            &&& *final(controller) matches Some(f)
            &&& f.io() == transport
            &&& f.tx() == 0
            &&& f.log() == Seq::<PtpOp>::empty()
            &&& f.sent() == Seq::<Seq<u8>>::empty()
        },
{
    let fuji = FujiPtp::new(transport);
    if controller.is_some() {
        return Err(BridgeError::AlreadyConnected);
    }
    *controller = Some(fuji);
    Ok(())
}

/// The application names each setting by its variant's own name: "Velvia" is Velvia,
/// "Dr200" is DR200, "StrongSmall" is strong small grain, "Weak" is a weak effect, "Daylight"
/// is the daylight preset, and so on for every setting.
pub proof fn law_setting_labels()
    ensures
        film_label(FilmSimulation::Provia) == "Provia"@,
        film_label(FilmSimulation::Velvia) == "Velvia"@,
        film_label(FilmSimulation::Astia) == "Astia"@,
        film_label(FilmSimulation::ProNegHigh) == "ProNegHigh"@,
        film_label(FilmSimulation::ProNegStandard) == "ProNegStandard"@,
        film_label(FilmSimulation::Monochrome) == "Monochrome"@,
        film_label(FilmSimulation::MonochromeYellow) == "MonochromeYellow"@,
        film_label(FilmSimulation::MonochromeRed) == "MonochromeRed"@,
        film_label(FilmSimulation::MonochromeGreen) == "MonochromeGreen"@,
        film_label(FilmSimulation::Sepia) == "Sepia"@,
        film_label(FilmSimulation::ClassicChrome) == "ClassicChrome"@,
        film_label(FilmSimulation::Acros) == "Acros"@,
        film_label(FilmSimulation::AcrosYellow) == "AcrosYellow"@,
        film_label(FilmSimulation::AcrosRed) == "AcrosRed"@,
        film_label(FilmSimulation::AcrosGreen) == "AcrosGreen"@,
        film_label(FilmSimulation::Eterna) == "Eterna"@,
        film_label(FilmSimulation::ClassicNegative) == "ClassicNegative"@,
        film_label(FilmSimulation::EternaBleachBypass) == "EternaBleachBypass"@,
        film_label(FilmSimulation::NostalgicNegative) == "NostalgicNegative"@,
        film_label(FilmSimulation::RealaAce) == "RealaAce"@,
        dr_label(DynamicRange::Dr100) == "Dr100"@,
        dr_label(DynamicRange::Dr200) == "Dr200"@,
        dr_label(DynamicRange::Dr400) == "Dr400"@,
        grain_label(GrainEffect::Off) == "Off"@,
        grain_label(GrainEffect::WeakSmall) == "WeakSmall"@,
        grain_label(GrainEffect::StrongSmall) == "StrongSmall"@,
        grain_label(GrainEffect::WeakLarge) == "WeakLarge"@,
        grain_label(GrainEffect::StrongLarge) == "StrongLarge"@,
        strength_label(EffectStrength::Off) == "Off"@,
        strength_label(EffectStrength::Weak) == "Weak"@,
        strength_label(EffectStrength::Strong) == "Strong"@,
        wb_label(WhiteBalanceMode::Auto) == "Auto"@,
        wb_label(WhiteBalanceMode::Daylight) == "Daylight"@,
        wb_label(WhiteBalanceMode::Shade) == "Shade"@,
        wb_label(WhiteBalanceMode::Fluorescent1) == "Fluorescent1"@,
        wb_label(WhiteBalanceMode::Fluorescent2) == "Fluorescent2"@,
        wb_label(WhiteBalanceMode::Fluorescent3) == "Fluorescent3"@,
        wb_label(WhiteBalanceMode::Incandescent) == "Incandescent"@,
        wb_label(WhiteBalanceMode::Underwater) == "Underwater"@,
        wb_label(WhiteBalanceMode::ColorTemperature) == "ColorTemperature"@,
        wb_label(WhiteBalanceMode::AmbiencePriority) == "AmbiencePriority"@,
{
}

/// A name that names nothing is reported as "unknown", what it was meant to name, and the
/// name itself in single quotes.
pub proof fn law_unknown_message(what: Seq<char>, value: Seq<char>)
    ensures
        unknown_message(what, value) == "unknown "@ + what + " '"@ + value + "'"@,
{
}

} // verus!
