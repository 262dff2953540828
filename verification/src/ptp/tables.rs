//! The fixed values of the protocol: the Fujifilm code of each setting, the accepted
//! ranges, the property and operation numbers, and the order in which slots are written.
use vstd::prelude::*;
use super::{bytes, plan, session, text, wire};
use crate::client::{digits_value, is_digit};
use super::fuji::{names_plan, property_block, recipe_of};
use crate::recipe::{
    DynamicRange, EffectStrength, FilmSimulation, GrainEffect, RecipeView, WhiteBalanceMode,
};

verus! {

/// Each film simulation is written with its Fujifilm code, Provia 1 to Reala Ace 20; a code
/// reads as a simulation exactly when it lies in 1..=20, and then as the simulation written
/// with it.
pub proof fn law_film_codes(v: u16)
    ensures
        wire::film_code(FilmSimulation::Provia) == 1,
        wire::film_code(FilmSimulation::Velvia) == 2,
        wire::film_code(FilmSimulation::Astia) == 3,
        wire::film_code(FilmSimulation::ProNegHigh) == 4,
        wire::film_code(FilmSimulation::ProNegStandard) == 5,
        wire::film_code(FilmSimulation::Monochrome) == 6,
        wire::film_code(FilmSimulation::MonochromeYellow) == 7,
        wire::film_code(FilmSimulation::MonochromeRed) == 8,
        wire::film_code(FilmSimulation::MonochromeGreen) == 9,
        wire::film_code(FilmSimulation::Sepia) == 10,
        wire::film_code(FilmSimulation::ClassicChrome) == 11,
        wire::film_code(FilmSimulation::Acros) == 12,
        wire::film_code(FilmSimulation::AcrosYellow) == 13,
        wire::film_code(FilmSimulation::AcrosRed) == 14,
        wire::film_code(FilmSimulation::AcrosGreen) == 15,
        wire::film_code(FilmSimulation::Eterna) == 16,
        wire::film_code(FilmSimulation::ClassicNegative) == 17,
        wire::film_code(FilmSimulation::EternaBleachBypass) == 18,
        wire::film_code(FilmSimulation::NostalgicNegative) == 19,
        wire::film_code(FilmSimulation::RealaAce) == 20,
        wire::film_of(v) is Some <==> 1 <= v <= 20,
        wire::film_of(v) matches Some(f) ==> wire::film_code(f) == v,
{
}

/// The monochrome simulations are the Monochrome, Sepia and Acros families.
pub proof fn law_monochrome_films(f: FilmSimulation)
    ensures
        wire::is_monochrome(f) <==> (f == FilmSimulation::Monochrome || f
            == FilmSimulation::MonochromeYellow || f == FilmSimulation::MonochromeRed || f
            == FilmSimulation::MonochromeGreen || f == FilmSimulation::Sepia || f
            == FilmSimulation::Acros || f == FilmSimulation::AcrosYellow || f
            == FilmSimulation::AcrosRed || f == FilmSimulation::AcrosGreen),
{
}

/// Effect strengths are written as Off 1, Weak 2, Strong 3, and read back from those codes
/// only.
pub proof fn law_strength_codes(v: u16)
    ensures
        wire::strength_code(EffectStrength::Off) == 1,
        wire::strength_code(EffectStrength::Weak) == 2,
        wire::strength_code(EffectStrength::Strong) == 3,
        wire::strength_of(v) is Some <==> 1 <= v <= 3,
        wire::strength_of(v) matches Some(s) ==> wire::strength_code(s) == v,
{
}

/// Grain is written as Off 1, Weak Small 2, Strong Small 3, Weak Large 4, Strong Large 5;
/// on read, 6 and 7 are Off as well, and nothing else reads as a grain.
pub proof fn law_grain_codes(v: u16)
    ensures
        wire::grain_code(GrainEffect::Off) == 1,
        wire::grain_code(GrainEffect::WeakSmall) == 2,
        wire::grain_code(GrainEffect::StrongSmall) == 3,
        wire::grain_code(GrainEffect::WeakLarge) == 4,
        wire::grain_code(GrainEffect::StrongLarge) == 5,
        wire::grain_of(v) is Some <==> 1 <= v <= 7,
        (v == 6 || v == 7) ==> wire::grain_of(v) == Some(GrainEffect::Off),
        (1 <= v <= 5) ==> (wire::grain_of(v) matches Some(g) && wire::grain_code(g) == v),
{
}

/// White balance presets are written with their Fujifilm codes: Auto 2, Daylight 4,
/// Incandescent 6, Underwater 8, Fluorescent 1-3 0x8001-0x8003, Shade 0x8006, Color
/// Temperature 0x8007, Ambience Priority 0x8021. On read those codes give the preset back,
/// 0x8020 is Auto too, and nothing else reads as a preset.
pub proof fn law_white_balance_codes(v: u16)
    ensures
        wire::wb_code(WhiteBalanceMode::Auto) == 2,
        wire::wb_code(WhiteBalanceMode::Daylight) == 4,
        wire::wb_code(WhiteBalanceMode::Incandescent) == 6,
        wire::wb_code(WhiteBalanceMode::Underwater) == 8,
        wire::wb_code(WhiteBalanceMode::Fluorescent1) == 0x8001,
        wire::wb_code(WhiteBalanceMode::Fluorescent2) == 0x8002,
        wire::wb_code(WhiteBalanceMode::Fluorescent3) == 0x8003,
        wire::wb_code(WhiteBalanceMode::Shade) == 0x8006,
        wire::wb_code(WhiteBalanceMode::ColorTemperature) == 0x8007,
        wire::wb_code(WhiteBalanceMode::AmbiencePriority) == 0x8021,
        wire::wb_of(0x8020) == Some(WhiteBalanceMode::Auto),
        wire::wb_of(v) is Some <==> (v == 2 || v == 4 || v == 6 || v == 8 || v == 0x8001 || v
            == 0x8002 || v == 0x8003 || v == 0x8006 || v == 0x8007 || v == 0x8020 || v == 0x8021),
        v != 0x8020 ==> (wire::wb_of(v) matches Some(w) ==> wire::wb_code(w) == v),
{
}

/// High ISO NR levels -4..=4 are written as 0x8000, 0x7000, 0x4000, 0x3000, 0x2000, 0x1000,
/// 0, 0x6000 and 0x5000, in that order; no other level has a code, and exactly those codes
/// read as levels.
pub proof fn law_noise_reduction_codes(n: i8, v: u16)
    ensures
        wire::nr_code(-4i8) == Some(0x8000u16),
        wire::nr_code(-3i8) == Some(0x7000u16),
        wire::nr_code(-2i8) == Some(0x4000u16),
        wire::nr_code(-1i8) == Some(0x3000u16),
        wire::nr_code(0i8) == Some(0x2000u16),
        wire::nr_code(1i8) == Some(0x1000u16),
        wire::nr_code(2i8) == Some(0u16),
        wire::nr_code(3i8) == Some(0x6000u16),
        wire::nr_code(4i8) == Some(0x5000u16),
        wire::nr_code(n) is Some <==> -4 <= n <= 4,
        wire::nr_of(v) matches Some(m) ==> wire::nr_code(m) == Some(v),
        wire::nr_of(v) is Some <==> (v == 0x8000 || v == 0x7000 || v == 0x4000 || v == 0x3000
            || v == 0x2000 || v == 0x1000 || v == 0 || v == 0x6000 || v == 0x5000),
{
}

/// Dynamic range is written as 100, 200 or 400; on read, 0 is DR100 too, and nothing else
/// reads as a dynamic range.
pub proof fn law_dynamic_range_codes(v: u16)
    ensures
        wire::dr_code(DynamicRange::Dr100) == 100,
        wire::dr_code(DynamicRange::Dr200) == 200,
        wire::dr_code(DynamicRange::Dr400) == 400,
        wire::dr_of(0) == Some(DynamicRange::Dr100),
        wire::dr_of(v) is Some <==> (v == 0 || v == 100 || v == 200 || v == 400),
        v != 0 ==> (wire::dr_of(v) matches Some(d) ==> wire::dr_code(d) == v),
{
}

/// The accepted values: a D-range priority of 0, 1, 2 or 32768 (written as itself), a white
/// balance shift in -9..=9, any dial value but `i16::MIN`.
pub proof fn law_accepted_ranges(p: i32, shift: i16, tenths: i16)
    ensures
        wire::priority_code(p) is Some <==> (p == 0 || p == 1 || p == 2 || p == 32768),
        wire::priority_code(p) matches Some(c) ==> c == p,
        wire::shift_ok(shift) <==> -9 <= shift <= 9,
        wire::dial_ok(tenths) <==> tenths != i16::MIN,
{
}

/// The settings of a recipe are written in full exactly when its D-range priority is 0, 1,
/// 2 or 32768, both white balance shifts lie in -9..=9, High ISO NR lies in -4..=4, no dial
/// that is written holds `i16::MIN` (the monochrome shifts are written for monochrome
/// simulations only); otherwise the writing stops.
pub proof fn law_settings_accepted(r: RecipeView)
    ensures
        !plan::planned_settings(r).rejected <==> {
            &&& (r.dynamic_range_priority == 0 || r.dynamic_range_priority == 1
                || r.dynamic_range_priority == 2 || r.dynamic_range_priority == 32768)
            &&& wire::is_monochrome(r.film_simulation) ==> r.monochrome_wc != i16::MIN
                && r.monochrome_mg != i16::MIN
            &&& -9 <= r.white_balance.shift_r <= 9
            &&& -9 <= r.white_balance.shift_b <= 9
            &&& r.highlight != i16::MIN
            &&& r.shadow != i16::MIN
            &&& r.color != i16::MIN
            &&& r.sharpness != i16::MIN
            &&& r.clarity != i16::MIN
            &&& -4 <= r.noise_reduction <= 4
        },
{
}

/// The camera properties: slot cursor 0xD18C, slot name 0xD18D, and the setting block
/// 0xD190..=0xD1A2, read in ascending order.
pub proof fn law_property_numbers()
    ensures
        plan::PROP_SLOT_CURSOR == 0xD18C,
        plan::PROP_SLOT_NAME == 0xD18D,
        plan::DR == 0xD190,
        plan::DR_PRIORITY == 0xD191,
        plan::FILM == 0xD192,
        plan::MONO_WC == 0xD193,
        plan::MONO_MG == 0xD194,
        plan::GRAIN == 0xD195,
        plan::COLOR_CHROME == 0xD196,
        plan::FX_BLUE == 0xD197,
        plan::SMOOTH == 0xD198,
        plan::WB == 0xD199,
        plan::WB_R == 0xD19A,
        plan::WB_B == 0xD19B,
        plan::TEMP == 0xD19C,
        plan::HIGHLIGHT == 0xD19D,
        plan::SHADOW == 0xD19E,
        plan::COLOR == 0xD19F,
        plan::SHARPNESS == 0xD1A0,
        plan::NR == 0xD1A1,
        plan::CLARITY == 0xD1A2,
        property_block().len() == 19,
        forall|k: int| 0 <= k < 19 ==> #[trigger] property_block()[k] == 0xD190 + k,
        session::GET_DEVICE_PROP_VALUE == 0x1015,
        session::SET_DEVICE_PROP_VALUE == 0x1016,
        session::OPEN_SESSION == 0x1002,
        session::CLOSE_SESSION == 0x1003,
        session::RESPONSE_OK == 0x2001,
{
    assert forall|k: int| 0 <= k < 19 implies #[trigger] property_block()[k] == 0xD190 + k by {}
}

/// Writing the names of the first `n` recipes writes those of the first `n - 1`, then, for
/// slot `n`, moves the cursor to `n` and writes the name of recipe `n - 1`: each recipe's name
/// goes to its own slot.
pub proof fn law_names_go_to_their_slots(recipes: Seq<RecipeView>, n: nat)
    requires
        1 <= n <= 7,
    ensures
        names_plan(recipes, n) == plan::followed_by(
            names_plan(recipes, (n - 1) as nat),
            plan::followed_by(
                plan::PlanView {
                    writes: seq![(plan::PROP_SLOT_CURSOR, seq![n as u8, 0u8])],
                    rejected: false,
                },
                plan::name_plan(recipes[n - 1].name),
            ),
        ),
{
}

/// Words go least significant byte first: the two bytes of a `u16` and the four of a `u32`
/// add up to the number, and a word is read back the same way.
pub proof fn law_little_endian(v: u16, w: u32, s: Seq<u8>, i: int)
    requires
        0 <= i,
        i + 4 <= s.len(),
    ensures
        bytes::le16(v).len() == 2,
        bytes::le16(v)[0] + 256 * bytes::le16(v)[1] == v,
        bytes::le32(w).len() == 4,
        bytes::le32(w)[0] + 256 * bytes::le32(w)[1] + 65536 * bytes::le32(w)[2] + 16777216
            * bytes::le32(w)[3] == w,
        bytes::u16_at(s, i) == s[i] + 256 * s[i + 1],
        bytes::u32_at(s, i) == s[i] + 256 * s[i + 1] + 65536 * s[i + 2] + 16777216 * s[i + 3],
{
}

/// The containers: a command is 16 bytes (length, kind 1, operation, transaction,
/// parameter); a command without parameter is 12 bytes; a data container is 12 bytes of
/// header (length, kind 2, operation, transaction) and the payload; a response has kind 3.
pub proof fn law_container_layout(operation: u16, tx: u32, parameter: u32, value: Seq<u8>)
    requires
        value.len() <= u32::MAX - 12,
    ensures
        session::CONTAINER_COMMAND == 1,
        session::CONTAINER_DATA == 2,
        session::CONTAINER_RESPONSE == 3,
        session::command_packet(operation, tx, parameter) == bytes::le32(16) + bytes::le16(1)
            + bytes::le16(operation) + bytes::le32(tx) + bytes::le32(parameter),
        session::command_packet_no_params(operation, tx) == bytes::le32(12) + bytes::le16(1)
            + bytes::le16(operation) + bytes::le32(tx),
        session::data_packet(operation, tx, value) == bytes::le32((12 + value.len()) as u32)
            + bytes::le16(2) + bytes::le16(operation) + bytes::le32(tx) + value,
{
}

/// Moving the cursor to `slot` is one write of `[slot, 0]` to property 0xD18C; writing a
/// name is one write of its PTP string to 0xD18D when it can be stored, and stops the writing
/// otherwise, with nothing written.
pub proof fn law_slot_and_name_writes(slot: u8, name: Seq<char>)
    ensures
        plan::select_plan(slot) == (plan::PlanView {
            writes: seq![(0xD18Cu16, seq![slot, 0u8])],
            rejected: false,
        }),
        super::name::name_wire(name) matches Some(b) ==> plan::name_plan(name) == (plan::PlanView {
            writes: seq![(0xD18Du16, b)],
            rejected: false,
        }),
        super::name::name_wire(name) is None ==> plan::name_plan(name) == (plan::PlanView {
            writes: Seq::<(u16, Seq<u8>)>::empty(),
            rejected: true,
        }),
{
}

/// `n` in decimal: decimal digits, no leading zero, whose value is `n`.
pub proof fn law_decimal(n: nat)
    ensures
        text::decimal(n).len() > 0,
        forall|i: int| 0 <= i < text::decimal(n).len() ==> is_digit(#[trigger] text::decimal(n)[i]),
        n >= 10 ==> text::decimal(n)[0] != '0',
        digits_value(text::decimal(n)) == n,
    decreases n,
{
    if n >= 10 {
        law_decimal(n / 10);
        let d = text::decimal(n / 10);
        let s = text::decimal(n);
        assert(s == d.push(text::digit_char((n % 10) as int)));
        assert(s.drop_last() =~= d);
        assert(n == (n / 10) * 10 + n % 10);
        assert(text::digit_char((n % 10) as int) as int == 48 + n % 10);
        assert(s.last() == text::digit_char((n % 10) as int));
        assert(digits_value(s) == digits_value(s.drop_last()) * 10 + ((s.last() as int) - 48) as nat);
        assert(digits_value(s) == digits_value(d) * 10 + n % 10);
    } else {
        assert(digits_value(Seq::<char>::empty()) == 0);
        assert(text::digit_char(n as int) as int == 48 + n);
        assert(text::decimal(n).drop_last() =~= Seq::<char>::empty());
    }
}

/// The error messages: "slot C" and the slot number, then what went wrong; property codes
/// and hexadecimal values as "0x" and four upper-case digits.
pub proof fn law_messages(slot: u8, property: u16, what: Seq<char>, value: u16, code: u16)
    ensures
        text::name_message(slot) == "slot C"@ + text::decimal(slot as nat) + " name"@,
        text::property_message(slot, property) == "slot C"@ + text::decimal(slot as nat)
            + " property 0x"@ + text::hex4(property),
        text::value_message(slot, what, value) == "slot C"@ + text::decimal(slot as nat) + " "@
            + what + " "@ + text::decimal(value as nat),
        text::hex_value_message(slot, what, value) == "slot C"@ + text::decimal(slot as nat)
            + " "@ + what + " 0x"@ + text::hex4(value),
        text::write_message(property, code) == "write property 0x"@ + text::hex4(property)
            + ": camera response 0x"@ + text::hex4(code),
{
}

/// The value of an upper-case hexadecimal digit.
pub open spec fn hex_digit_value(c: char) -> int {
    if '0' <= c <= '9' {
        c as int - 48
    } else {
        c as int - 55
    }
}

/// Four hexadecimal digits: each is 0-9 or A-F, and together, most significant first, they
/// make `v`.
pub proof fn law_hex4(v: u16)
    ensures
        text::hex4(v).len() == 4,
        forall|i: int|
            0 <= i < 4 ==> ('0' <= #[trigger] text::hex4(v)[i] <= '9' || 'A' <= text::hex4(v)[i]
                <= 'F'),
        4096 * hex_digit_value(text::hex4(v)[0]) + 256 * hex_digit_value(text::hex4(v)[1]) + 16
            * hex_digit_value(text::hex4(v)[2]) + hex_digit_value(text::hex4(v)[3]) == v,
{
    let a = v / 4096;
    let b = (v / 256) % 16;
    let c = (v / 16) % 16;
    let d = v % 16;
    assert(v == 4096 * (v / 4096) + 256 * ((v / 256) % 16) + 16 * ((v / 16) % 16) + v % 16)
        by (bit_vector);
    assert(v / 4096 < 16) by (bit_vector);
    assert forall|x: int| 0 <= x < 16 implies hex_digit_value(#[trigger] text::hex_char(x)) == x
        && ('0' <= text::hex_char(x) <= '9' || 'A' <= text::hex_char(x) <= 'F') by {
        assert(text::hex_char(x) as int == if x < 10 { 48 + x } else { 55 + x });
    }
    assert(text::hex4(v)[0] == text::hex_char(a as int));
    assert(text::hex4(v)[1] == text::hex_char(b as int));
    assert(text::hex4(v)[2] == text::hex_char(c as int));
    assert(text::hex4(v)[3] == text::hex_char(d as int));
}

/// How a slot's words (read in block order, 0xD190 upwards) decode. An empty slot (first
/// word 0xFFFF) is the default recipe. Otherwise the words are checked in the order dynamic
/// range, film simulation, grain, Color Chrome, FX Blue, smooth skin, white balance, High
/// ISO NR, and the first without meaning is reported, the dynamic range and the white
/// balance in hexadecimal, the others in decimal. When all have meaning, each setting comes
/// from its own word: the signed words as two's complement, the temperature always present,
/// exposure zero.
pub proof fn law_slot_decoding(name: Seq<char>, v: Seq<u16>, slot: u8)
    requires
        v.len() == 19,
    ensures
        v[0] == 0xFFFF ==> recipe_of(name, v, slot) == Ok::<RecipeView, Seq<char>>(
            crate::recipe::recipe::default_recipe(name),
        ),
        v[0] != 0xFFFF ==> {
            let r = recipe_of(name, v, slot);
            if wire::dr_of(v[0]) is None {
                r == Err::<RecipeView, Seq<char>>(text::hex_value_message(slot, "dynamic range"@, v[0]))
            } else if wire::film_of(v[2]) is None {
                r == Err::<RecipeView, Seq<char>>(text::value_message(slot, "film simulation"@, v[2]))
            } else if wire::grain_of(v[5]) is None {
                r == Err::<RecipeView, Seq<char>>(text::value_message(slot, "grain"@, v[5]))
            } else if wire::strength_of(v[6]) is None {
                r == Err::<RecipeView, Seq<char>>(text::value_message(slot, "color chrome"@, v[6]))
            } else if wire::strength_of(v[7]) is None {
                r == Err::<RecipeView, Seq<char>>(text::value_message(slot, "fx blue"@, v[7]))
            } else if wire::strength_of(v[8]) is None {
                r == Err::<RecipeView, Seq<char>>(text::value_message(slot, "smooth skin"@, v[8]))
            } else if wire::wb_of(v[9]) is None {
                r == Err::<RecipeView, Seq<char>>(text::hex_value_message(slot, "white balance"@, v[9]))
            } else if wire::nr_of(v[17]) is None {
                r == Err::<RecipeView, Seq<char>>(text::value_message(slot, "high ISO NR"@, v[17]))
            } else {
                &&& r matches Ok(x)
                &&& x.name == name
                &&& Some(x.dynamic_range) == wire::dr_of(v[0])
                &&& x.dynamic_range_priority == v[1] as i32
                &&& Some(x.film_simulation) == wire::film_of(v[2])
                &&& x.monochrome_wc == v[3] as i16
                &&& x.monochrome_mg == v[4] as i16
                &&& Some(x.grain_effect) == wire::grain_of(v[5])
                &&& Some(x.color_chrome) == wire::strength_of(v[6])
                &&& Some(x.color_chrome_fx_blue) == wire::strength_of(v[7])
                &&& Some(x.smooth_skin) == wire::strength_of(v[8])
                &&& Some(x.white_balance.mode) == wire::wb_of(v[9])
                &&& x.white_balance.shift_r == v[10] as i16
                &&& x.white_balance.shift_b == v[11] as i16
                &&& x.white_balance.color_temperature == Some(v[12])
                &&& x.highlight == v[13] as i16
                &&& x.shadow == v[14] as i16
                &&& x.color == v[15] as i16
                &&& x.sharpness == v[16] as i16
                &&& Some(x.noise_reduction) == wire::nr_of(v[17])
                &&& x.clarity == v[18] as i16
                &&& x.exposure == 0
            }
        },
{
}

/// The properties of `ws`, in order.
pub open spec fn properties(ws: Seq<(u16, Seq<u8>)>) -> Seq<u16> {
    ws.map_values(|w: (u16, Seq<u8>)| w.0)
}

/// The order in which the settings are written: film simulation, D-range priority, the
/// dynamic range (priority 0 only), the monochrome shifts (monochrome only), grain, Color
/// Chrome and FX Blue (colour only), smooth skin, white balance, its shifts (colour only), the
/// temperature (color temperature preset with a temperature), highlight, shadow, color,
/// sharpness, clarity, High ISO NR.
pub proof fn law_settings_order(r: RecipeView)
    requires
        !plan::planned_settings(r).rejected,
    ensures
        ({
            let mono = wire::is_monochrome(r.film_simulation);
            let temp = r.white_balance.mode == WhiteBalanceMode::ColorTemperature
                && r.white_balance.color_temperature is Some;
            properties(plan::planned_settings(r).writes) == seq![plan::FILM, plan::DR_PRIORITY]
                + (if r.dynamic_range_priority == 0 { seq![plan::DR] } else { seq![] })
                + (if mono { seq![plan::MONO_WC, plan::MONO_MG] } else { seq![] })
                + seq![plan::GRAIN]
                + (if !mono { seq![plan::COLOR_CHROME, plan::FX_BLUE] } else { seq![] })
                + seq![plan::SMOOTH, plan::WB]
                + (if !mono { seq![plan::WB_R, plan::WB_B] } else { seq![] })
                + (if temp { seq![plan::TEMP] } else { seq![] })
                + seq![plan::HIGHLIGHT, plan::SHADOW, plan::COLOR, plan::SHARPNESS, plan::CLARITY, plan::NR]
        }),
{
    let mono = wire::is_monochrome(r.film_simulation);
    let temp = r.white_balance.mode == WhiteBalanceMode::ColorTemperature
        && r.white_balance.color_temperature is Some;
    let prio = wire::priority_code(r.dynamic_range_priority).unwrap();
    let s1 = seq![(plan::FILM, bytes::le16(wire::film_code(r.film_simulation)))];
    let s2a = s1.push((plan::DR_PRIORITY, bytes::le16(prio)));
    let s2 = if prio == 0 {
        s2a.push((plan::DR, bytes::le16(wire::dr_code(r.dynamic_range))))
    } else {
        s2a
    };
    let s3 = if mono { s2.push((plan::MONO_WC, wire::i16_bytes(r.monochrome_wc))) } else { s2 };
    let s4 = if mono { s3.push((plan::MONO_MG, wire::i16_bytes(r.monochrome_mg))) } else { s3 };
    assert(plan::planned_settings(r) == plan::planned_balance(r, s4));
    let head = seq![plan::FILM, plan::DR_PRIORITY]
        + (if r.dynamic_range_priority == 0 { seq![plan::DR] } else { seq![] })
        + (if mono { seq![plan::MONO_WC, plan::MONO_MG] } else { seq![] });
    assert(properties(s4) =~= head);
    lemma_balance_order(r, s4);
}

proof fn lemma_tones_order(r: RecipeView, s: Seq<(u16, Seq<u8>)>)
    requires
        !plan::planned_tones(r, s).rejected,
    ensures
        properties(plan::planned_tones(r, s).writes) == properties(s) + seq![
            plan::HIGHLIGHT,
            plan::SHADOW,
            plan::COLOR,
            plan::SHARPNESS,
            plan::CLARITY,
            plan::NR,
        ],
{
    assert(properties(plan::planned_tones(r, s).writes) =~= properties(s) + seq![
        plan::HIGHLIGHT,
        plan::SHADOW,
        plan::COLOR,
        plan::SHARPNESS,
        plan::CLARITY,
        plan::NR,
    ]);
}

proof fn lemma_balance_order(r: RecipeView, s: Seq<(u16, Seq<u8>)>)
    requires
        !plan::planned_balance(r, s).rejected,
    ensures
        ({
            let mono = wire::is_monochrome(r.film_simulation);
            let temp = r.white_balance.mode == WhiteBalanceMode::ColorTemperature
                && r.white_balance.color_temperature is Some;
            properties(plan::planned_balance(r, s).writes) == properties(s) + seq![plan::GRAIN]
                + (if !mono { seq![plan::COLOR_CHROME, plan::FX_BLUE] } else { seq![] })
                + seq![plan::SMOOTH, plan::WB]
                + (if !mono { seq![plan::WB_R, plan::WB_B] } else { seq![] })
                + (if temp { seq![plan::TEMP] } else { seq![] })
                + seq![plan::HIGHLIGHT, plan::SHADOW, plan::COLOR, plan::SHARPNESS, plan::CLARITY, plan::NR]
        }),
{
    let mono = wire::is_monochrome(r.film_simulation);
    let temp = r.white_balance.mode == WhiteBalanceMode::ColorTemperature
        && r.white_balance.color_temperature is Some;
    let s5 = s.push((plan::GRAIN, bytes::le16(wire::grain_code(r.grain_effect))));
    let s6 = if !mono {
        s5.push((plan::COLOR_CHROME, bytes::le16(wire::strength_code(r.color_chrome)))).push(
            (plan::FX_BLUE, bytes::le16(wire::strength_code(r.color_chrome_fx_blue))),
        )
    } else {
        s5
    };
    let s7 = s6.push((plan::SMOOTH, bytes::le16(wire::strength_code(r.smooth_skin)))).push(
        (plan::WB, bytes::le16(wire::wb_code(r.white_balance.mode))),
    );
    let s8 = if !mono {
        s7.push((plan::WB_R, wire::i16_bytes(r.white_balance.shift_r))).push(
            (plan::WB_B, wire::i16_bytes(r.white_balance.shift_b)),
        )
    } else {
        s7
    };
    let s9 = match r.white_balance.color_temperature {
        Some(t) => if r.white_balance.mode == WhiteBalanceMode::ColorTemperature {
            s8.push((plan::TEMP, bytes::le16(t)))
        } else {
            s8
        },
        None => s8,
    };
    assert(plan::planned_balance(r, s) == plan::planned_tones(r, s9));
    lemma_tones_order(r, s9);
    let mid = properties(s) + seq![plan::GRAIN]
        + (if !mono { seq![plan::COLOR_CHROME, plan::FX_BLUE] } else { seq![] })
        + seq![plan::SMOOTH, plan::WB]
        + (if !mono { seq![plan::WB_R, plan::WB_B] } else { seq![] })
        + (if temp { seq![plan::TEMP] } else { seq![] });
    assert(properties(s9) =~= mid);
    assert(mid + seq![plan::HIGHLIGHT, plan::SHADOW, plan::COLOR, plan::SHARPNESS, plan::CLARITY, plan::NR]
        =~= properties(s) + seq![plan::GRAIN]
        + (if !mono { seq![plan::COLOR_CHROME, plan::FX_BLUE] } else { seq![] })
        + seq![plan::SMOOTH, plan::WB]
        + (if !mono { seq![plan::WB_R, plan::WB_B] } else { seq![] })
        + (if temp { seq![plan::TEMP] } else { seq![] })
        + seq![plan::HIGHLIGHT, plan::SHADOW, plan::COLOR, plan::SHARPNESS, plan::CLARITY, plan::NR]);
}

} // verus!
