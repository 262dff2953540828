//! How each recipe setting is stored in its camera property: the 16-bit codes that the
//! library writes, and what it makes of the codes that it reads.
use vstd::prelude::*;
use crate::recipe::{DynamicRange, EffectStrength, FilmSimulation, GrainEffect, WhiteBalanceMode};
use super::bytes;

verus! {

pub open spec fn film_code(f: FilmSimulation) -> u16 {
    match f {
        FilmSimulation::Provia => 1,
        FilmSimulation::Velvia => 2,
        FilmSimulation::Astia => 3,
        FilmSimulation::ProNegHigh => 4,
        FilmSimulation::ProNegStandard => 5,
        FilmSimulation::Monochrome => 6,
        FilmSimulation::MonochromeYellow => 7,
        FilmSimulation::MonochromeRed => 8,
        FilmSimulation::MonochromeGreen => 9,
        FilmSimulation::Sepia => 10,
        FilmSimulation::ClassicChrome => 11,
        FilmSimulation::Acros => 12,
        FilmSimulation::AcrosYellow => 13,
        FilmSimulation::AcrosRed => 14,
        FilmSimulation::AcrosGreen => 15,
        FilmSimulation::Eterna => 16,
        FilmSimulation::ClassicNegative => 17,
        FilmSimulation::EternaBleachBypass => 18,
        FilmSimulation::NostalgicNegative => 19,
        FilmSimulation::RealaAce => 20,
    }
}

pub open spec fn film_of(v: u16) -> Option<FilmSimulation> {
    match v {
        1 => Some(FilmSimulation::Provia),
        2 => Some(FilmSimulation::Velvia),
        3 => Some(FilmSimulation::Astia),
        4 => Some(FilmSimulation::ProNegHigh),
        5 => Some(FilmSimulation::ProNegStandard),
        6 => Some(FilmSimulation::Monochrome),
        7 => Some(FilmSimulation::MonochromeYellow),
        8 => Some(FilmSimulation::MonochromeRed),
        9 => Some(FilmSimulation::MonochromeGreen),
        10 => Some(FilmSimulation::Sepia),
        11 => Some(FilmSimulation::ClassicChrome),
        12 => Some(FilmSimulation::Acros),
        13 => Some(FilmSimulation::AcrosYellow),
        14 => Some(FilmSimulation::AcrosRed),
        15 => Some(FilmSimulation::AcrosGreen),
        16 => Some(FilmSimulation::Eterna),
        17 => Some(FilmSimulation::ClassicNegative),
        18 => Some(FilmSimulation::EternaBleachBypass),
        19 => Some(FilmSimulation::NostalgicNegative),
        20 => Some(FilmSimulation::RealaAce),
        _ => None,
    }
}

/// The monochrome simulations: with them the camera takes the monochrome warm/cool and
/// magenta/green shifts, and refuses Color Chrome, FX Blue and the white balance shift.
pub open spec fn is_monochrome(f: FilmSimulation) -> bool {
    match f {
        FilmSimulation::Monochrome
        | FilmSimulation::MonochromeYellow
        | FilmSimulation::MonochromeRed
        | FilmSimulation::MonochromeGreen
        | FilmSimulation::Sepia
        | FilmSimulation::Acros
        | FilmSimulation::AcrosYellow
        | FilmSimulation::AcrosRed
        | FilmSimulation::AcrosGreen => true,
        _ => false,
    }
}

pub open spec fn strength_code(s: EffectStrength) -> u16 {
    match s {
        EffectStrength::Off => 1,
        EffectStrength::Weak => 2,
        EffectStrength::Strong => 3,
    }
}

pub open spec fn strength_of(v: u16) -> Option<EffectStrength> {
    match v {
        1 => Some(EffectStrength::Off),
        2 => Some(EffectStrength::Weak),
        3 => Some(EffectStrength::Strong),
        _ => None,
    }
}

pub open spec fn grain_code(g: GrainEffect) -> u16 {
    match g {
        GrainEffect::Off => 1,
        GrainEffect::WeakSmall => 2,
        GrainEffect::StrongSmall => 3,
        GrainEffect::WeakLarge => 4,
        GrainEffect::StrongLarge => 5,
    }
}

/// Grain as read: besides the code written for Off (1), bodies store Off as 6 (X100V-era
/// firmware) or 7 (X100VI).
pub open spec fn grain_of(v: u16) -> Option<GrainEffect> {
    match v {
        1 | 6 | 7 => Some(GrainEffect::Off),
        2 => Some(GrainEffect::WeakSmall),
        3 => Some(GrainEffect::StrongSmall),
        4 => Some(GrainEffect::WeakLarge),
        5 => Some(GrainEffect::StrongLarge),
        _ => None,
    }
}

pub open spec fn wb_code(w: WhiteBalanceMode) -> u16 {
    match w {
        WhiteBalanceMode::Auto => 2,
        WhiteBalanceMode::Daylight => 4,
        WhiteBalanceMode::Shade => 0x8006,
        WhiteBalanceMode::Fluorescent1 => 0x8001,
        WhiteBalanceMode::Fluorescent2 => 0x8002,
        WhiteBalanceMode::Fluorescent3 => 0x8003,
        WhiteBalanceMode::Incandescent => 6,
        WhiteBalanceMode::Underwater => 8,
        WhiteBalanceMode::ColorTemperature => 0x8007,
        WhiteBalanceMode::AmbiencePriority => 0x8021,
    }
}

/// White balance as read: Auto is stored as 2 or 0x8020.
pub open spec fn wb_of(v: u16) -> Option<WhiteBalanceMode> {
    match v {
        2 | 0x8020 => Some(WhiteBalanceMode::Auto),
        4 => Some(WhiteBalanceMode::Daylight),
        6 => Some(WhiteBalanceMode::Incandescent),
        8 => Some(WhiteBalanceMode::Underwater),
        0x8001 => Some(WhiteBalanceMode::Fluorescent1),
        0x8002 => Some(WhiteBalanceMode::Fluorescent2),
        0x8003 => Some(WhiteBalanceMode::Fluorescent3),
        0x8006 => Some(WhiteBalanceMode::Shade),
        0x8007 => Some(WhiteBalanceMode::ColorTemperature),
        0x8021 => Some(WhiteBalanceMode::AmbiencePriority),
        _ => None,
    }
}

/// The High ISO NR code of a level from -4 to +4.
pub open spec fn nr_code(n: i8) -> Option<u16> {
    match n {
        -4 => Some(32768u16),
        -3 => Some(28672u16),
        -2 => Some(16384u16),
        -1 => Some(12288u16),
        0 => Some(8192u16),
        1 => Some(4096u16),
        2 => Some(0u16),
        3 => Some(24576u16),
        4 => Some(20480u16),
        _ => None,
    }
}

pub open spec fn nr_of(v: u16) -> Option<i8> {
    match v {
        0x8000 => Some(-4i8),
        28672 => Some(-3i8),
        16384 => Some(-2i8),
        12288 => Some(-1i8),
        8192 => Some(0i8),
        4096 => Some(1i8),
        0 => Some(2i8),
        24576 => Some(3i8),
        20480 => Some(4i8),
        _ => None,
    }
}

pub open spec fn dr_code(d: DynamicRange) -> u16 {
    match d {
        DynamicRange::Dr100 => 100,
        DynamicRange::Dr200 => 200,
        DynamicRange::Dr400 => 400,
    }
}

/// Dynamic range as read: 0 and 100 are both DR100.
pub open spec fn dr_of(v: u16) -> Option<DynamicRange> {
    match v {
        0 | 100 => Some(DynamicRange::Dr100),
        200 => Some(DynamicRange::Dr200),
        400 => Some(DynamicRange::Dr400),
        _ => None,
    }
}

/// The D-range priority code: the accepted settings are 0 (off), 1, 2 and 32768.
pub open spec fn priority_code(p: i32) -> Option<u16> {
    if p == 0 || p == 1 || p == 2 || p == 32768 {
        Some(p as u16)
    } else {
        None
    }
}

/// A dial value in tenths that the camera can hold (every `i16` but `i16::MIN`).
pub open spec fn dial_ok(tenths: i16) -> bool {
    tenths != i16::MIN
}

/// The white balance shift range that the camera accepts.
pub open spec fn shift_ok(shift: i16) -> bool {
    -9 <= shift <= 9
}

/// A property value that is one little-endian word.
pub open spec fn word_of(data: Seq<u8>) -> Option<u16> {
    if data.len() == 2 {
        Some(bytes::u16_at(data, 0))
    } else {
        None
    }
}

/// The bytes of a signed value, as the camera stores it.
pub open spec fn i16_bytes(v: i16) -> Seq<u8> {
    bytes::le16(v as u16)
}

/// Reading back the film simulation code that is written gives the same simulation, and a
/// code that reads as a simulation is the code written for it.
pub proof fn law_film_roundtrip(f: FilmSimulation, v: u16)
    ensures
        film_of(film_code(f)) == Some(f),
        film_of(v) matches Some(g) ==> film_code(g) == v,
{
}

/// Reading back the strength code that is written gives the same strength, and a code that
/// reads as a strength is the code written for it.
pub proof fn law_strength_roundtrip(s: EffectStrength, v: u16)
    ensures
        strength_of(strength_code(s)) == Some(s),
        strength_of(v) matches Some(t) ==> strength_code(t) == v,
{
}

/// Reading back the grain code that is written gives the same grain; a code that reads as a
/// grain is the code written for it, or one of the two other codes for Off.
pub proof fn law_grain_roundtrip(g: GrainEffect, v: u16)
    ensures
        grain_of(grain_code(g)) == Some(g),
        grain_of(v) matches Some(h) ==> grain_code(h) == v || (h == GrainEffect::Off && (v == 6
            || v == 7)),
{
}

/// Reading back the white balance code that is written gives the same preset; a code that
/// reads as a preset is the code written for it, or 0x8020 for Auto.
pub proof fn law_white_balance_roundtrip(w: WhiteBalanceMode, v: u16)
    ensures
        wb_of(wb_code(w)) == Some(w),
        wb_of(v) matches Some(m) ==> wb_code(m) == v || (m == WhiteBalanceMode::Auto && v
            == 0x8020),
{
}

/// High ISO NR converts both ways: every level from -4 to +4 has a code, that code reads
/// back as the level, and every code that reads as a level is that level's code.
pub proof fn law_noise_reduction_roundtrip(n: i8, v: u16)
    ensures
        nr_code(n) is Some <==> -4 <= n <= 4,
        nr_code(n) matches Some(c) ==> nr_of(c) == Some(n),
        nr_of(v) matches Some(m) ==> nr_code(m) == Some(v),
{
}

/// Reading back the dynamic range code that is written gives the same setting; a code that
/// reads as a setting is the code written for it, or 0 for DR100.
pub proof fn law_dynamic_range_roundtrip(d: DynamicRange, v: u16)
    ensures
        dr_of(dr_code(d)) == Some(d),
        dr_of(v) matches Some(e) ==> dr_code(e) == v || (e == DynamicRange::Dr100 && v == 0),
{
}

/// A dial value in tenths survives being stored as a word and read back.
pub proof fn law_dial_roundtrip(tenths: i16)
    ensures
        word_of(i16_bytes(tenths)) matches Some(w) && w as i16 == tenths,
{
    bytes::lemma_u16_roundtrip(tenths as u16);
    assert(((tenths as u16) as i16) == tenths) by (bit_vector);
}

} // verus!
