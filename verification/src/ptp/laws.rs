//! Properties that hold across the functions of the PTP layer.
use vstd::prelude::*;
use super::{bytes, plan, wire};
use crate::recipe::{RecipeView, WhiteBalanceMode};
use super::session::{
    command_packet, container_result, data_length, data_packet, response_result, PtpProtocolError,
    CONTAINER_COMMAND, CONTAINER_DATA, CONTAINER_RESPONSE, RESPONSE_OK,
};

verus! {

/// A response container for transaction `tx` with response `code`.
pub open spec fn response_packet(code: u16, tx: u32) -> Seq<u8> {
    bytes::le32(12) + bytes::le16(CONTAINER_RESPONSE) + bytes::le16(code) + bytes::le32(tx)
}

/// A data container that the session builds is accepted by the session's own check, for
/// its operation and transaction, and gives back the payload it carries.
pub proof fn law_data_container_roundtrip(operation: u16, tx: u32, value: Seq<u8>)
    requires
        value.len() <= u32::MAX - 12,
    ensures
        container_result(data_packet(operation, tx, value), CONTAINER_DATA, operation, tx) == Ok::<
            Seq<u8>,
            PtpProtocolError,
        >(value),
{
    let p = data_packet(operation, tx, value);
    bytes::lemma_u32_roundtrip(data_length(value.len()));
    bytes::lemma_u16_roundtrip(CONTAINER_DATA);
    bytes::lemma_u16_roundtrip(operation);
    bytes::lemma_u32_roundtrip(tx);
    assert(bytes::u32_at(p, 0) == bytes::u32_at(bytes::le32(data_length(value.len())), 0));
    assert(bytes::u16_at(p, 4) == bytes::u16_at(bytes::le16(CONTAINER_DATA), 0));
    assert(bytes::u16_at(p, 6) == bytes::u16_at(bytes::le16(operation), 0));
    assert(bytes::u32_at(p, 8) == bytes::u32_at(bytes::le32(tx), 0));
    assert(p.subrange(12, p.len() as int) =~= value);
}

/// A command container carries its parameter as its payload, with the command kind, the
/// operation and the transaction in its header.
pub proof fn law_command_container(operation: u16, tx: u32, parameter1: u32)
    ensures
        container_result(command_packet(operation, tx, parameter1), CONTAINER_COMMAND, operation, tx)
            == Ok::<Seq<u8>, PtpProtocolError>(bytes::le32(parameter1)),
{
    let p = command_packet(operation, tx, parameter1);
    bytes::lemma_u32_roundtrip(16);
    bytes::lemma_u16_roundtrip(CONTAINER_COMMAND);
    bytes::lemma_u16_roundtrip(operation);
    bytes::lemma_u32_roundtrip(tx);
    assert(bytes::u32_at(p, 0) == bytes::u32_at(bytes::le32(16), 0));
    assert(bytes::u16_at(p, 4) == bytes::u16_at(bytes::le16(CONTAINER_COMMAND), 0));
    assert(bytes::u16_at(p, 6) == bytes::u16_at(bytes::le16(operation), 0));
    assert(bytes::u32_at(p, 8) == bytes::u32_at(bytes::le32(tx), 0));
    assert(p.subrange(12, 16) =~= bytes::le32(parameter1));
}

/// A response for the awaited transaction is accepted exactly when its code is OK; any
/// other code is reported as that response code. A response for another transaction is a
/// transaction mismatch.
pub proof fn law_response(code: u16, tx: u32, expected: u32)
    ensures
        response_result(response_packet(code, tx), expected) == if tx != expected {
            Err(PtpProtocolError::TransactionMismatch { expected, received: tx })
        } else if code == RESPONSE_OK {
            Ok(())
        } else {
            Err(PtpProtocolError::Response(code))
        },
{
    let p = response_packet(code, tx);
    bytes::lemma_u32_roundtrip(12);
    bytes::lemma_u16_roundtrip(CONTAINER_RESPONSE);
    bytes::lemma_u16_roundtrip(code);
    bytes::lemma_u32_roundtrip(tx);
    assert(bytes::u32_at(p, 0) == bytes::u32_at(bytes::le32(12), 0));
    assert(bytes::u16_at(p, 4) == bytes::u16_at(bytes::le16(CONTAINER_RESPONSE), 0));
    assert(bytes::u16_at(p, 6) == bytes::u16_at(bytes::le16(code), 0));
    assert(bytes::u32_at(p, 8) == bytes::u32_at(bytes::le32(tx), 0));
}

} // verus!

verus! {

/// The camera's property words after it stored `writes` in order: each write sets its
/// property to the word it carries.
pub open spec fn apply_writes(store: Map<u16, u16>, writes: Seq<(u16, Seq<u8>)>) -> Map<u16, u16>
    decreases writes.len(),
{
    if writes.len() == 0 {
        store
    } else {
        apply_writes(store, writes.drop_last()).insert(
            writes.last().0,
            bytes::u16_at(writes.last().1, 0),
        )
    }
}

/// The words of the property block, as a slot read obtains them from `store`.
pub open spec fn block_words(store: Map<u16, u16>) -> Seq<u16> {
    Seq::new(19, |k: int| store[super::fuji::property_block()[k]])
}

/// `got` holds every setting of `r` that writing the settings stores: film simulation,
/// D-range priority, grain, smooth skin, white balance preset, the five dials and High ISO
/// NR always; the dynamic range with priority 0; the monochrome shifts for monochrome
/// simulations; Color Chrome, FX Blue and the white balance shifts for colour simulations;
/// the temperature for the color temperature preset when `r` has one.
pub open spec fn keeps_settings(got: RecipeView, r: RecipeView) -> bool {
    let mono = wire::is_monochrome(r.film_simulation);
    &&& got.film_simulation == r.film_simulation
    &&& got.dynamic_range_priority == r.dynamic_range_priority
    &&& got.grain_effect == r.grain_effect
    &&& got.smooth_skin == r.smooth_skin
    &&& got.white_balance.mode == r.white_balance.mode
    &&& got.highlight == r.highlight
    &&& got.shadow == r.shadow
    &&& got.color == r.color
    &&& got.sharpness == r.sharpness
    &&& got.clarity == r.clarity
    &&& got.noise_reduction == r.noise_reduction
    &&& r.dynamic_range_priority == 0 ==> got.dynamic_range == r.dynamic_range
    &&& mono ==> got.monochrome_wc == r.monochrome_wc && got.monochrome_mg == r.monochrome_mg
    &&& !mono ==> {
        &&& got.color_chrome == r.color_chrome
        &&& got.color_chrome_fx_blue == r.color_chrome_fx_blue
        &&& got.white_balance.shift_r == r.white_balance.shift_r
        &&& got.white_balance.shift_b == r.white_balance.shift_b
    }
    &&& (r.white_balance.mode == WhiteBalanceMode::ColorTemperature
        && r.white_balance.color_temperature is Some) ==> got.white_balance.color_temperature
        == r.white_balance.color_temperature
}

proof fn lemma_i16_roundtrip(x: i16)
    ensures
        (x as u16) as i16 == x,
{
    assert((x as u16) as i16 == x) by (bit_vector);
}

proof fn lemma_apply_push(store: Map<u16, u16>, s: Seq<(u16, Seq<u8>)>, w: (u16, Seq<u8>))
    ensures
        apply_writes(store, s.push(w)) == apply_writes(store, s).insert(w.0, bytes::u16_at(w.1, 0)),
{
    assert(s.push(w).drop_last() =~= s);
}

/// Stores one word write: the writes grow by it and the store takes the word.
proof fn lemma_put(
    store: Map<u16, u16>,
    s: Seq<(u16, Seq<u8>)>,
    m: Map<u16, u16>,
    p: u16,
    x: u16,
)
    requires
        apply_writes(store, s) == m,
    ensures
        apply_writes(store, s.push((p, bytes::le16(x)))) == m.insert(p, x),
{
    lemma_apply_push(store, s, (p, bytes::le16(x)));
    bytes::lemma_u16_roundtrip(x);
}

/// The store after the settings of `r` are written, when nothing stops the writing.
#[verifier::opaque]
pub open spec fn stored_settings(r: RecipeView, store: Map<u16, u16>) -> Map<u16, u16> {
    let mono = wire::is_monochrome(r.film_simulation);
    let prio = wire::priority_code(r.dynamic_range_priority).unwrap();
    let m1 = store.insert(plan::FILM, wire::film_code(r.film_simulation)).insert(plan::DR_PRIORITY, prio);
    let m2 = if prio == 0 {
        m1.insert(plan::DR, wire::dr_code(r.dynamic_range))
    } else {
        m1
    };
    let m3 = if mono {
        m2.insert(plan::MONO_WC, r.monochrome_wc as u16).insert(plan::MONO_MG, r.monochrome_mg as u16)
    } else {
        m2
    };
    let m4 = m3.insert(plan::GRAIN, wire::grain_code(r.grain_effect));
    let m5 = if !mono {
        m4.insert(plan::COLOR_CHROME, wire::strength_code(r.color_chrome)).insert(
            plan::FX_BLUE,
            wire::strength_code(r.color_chrome_fx_blue),
        )
    } else {
        m4
    };
    let m6 = m5.insert(plan::SMOOTH, wire::strength_code(r.smooth_skin)).insert(
        plan::WB,
        wire::wb_code(r.white_balance.mode),
    );
    let m7 = if !mono {
        m6.insert(plan::WB_R, r.white_balance.shift_r as u16).insert(
            plan::WB_B,
            r.white_balance.shift_b as u16,
        )
    } else {
        m6
    };
    let m8 = match r.white_balance.color_temperature {
        Some(t) => if r.white_balance.mode == WhiteBalanceMode::ColorTemperature {
            m7.insert(plan::TEMP, t)
        } else {
            m7
        },
        None => m7,
    };
    m8.insert(plan::HIGHLIGHT, r.highlight as u16).insert(plan::SHADOW, r.shadow as u16).insert(
        plan::COLOR,
        r.color as u16,
    ).insert(plan::SHARPNESS, r.sharpness as u16).insert(plan::CLARITY, r.clarity as u16).insert(
        plan::NR,
        wire::nr_code(r.noise_reduction).unwrap(),
    )
}

/// Storing the writes of a settings plan that nothing stops gives `stored_settings`.
#[verifier::rlimit(40)]
proof fn lemma_stored_settings(r: RecipeView, store: Map<u16, u16>)
    requires
        !plan::planned_settings(r).rejected,
    ensures
        apply_writes(store, plan::planned_settings(r).writes) == stored_settings(r, store),
{
    let mono = wire::is_monochrome(r.film_simulation);
    let prio = wire::priority_code(r.dynamic_range_priority).unwrap();
    let e: Seq<(u16, Seq<u8>)> = seq![];
    lemma_put(store, e, store, plan::FILM, wire::film_code(r.film_simulation));
    let s = e.push((plan::FILM, bytes::le16(wire::film_code(r.film_simulation))));
    let m = store.insert(plan::FILM, wire::film_code(r.film_simulation));
    lemma_put(store, s, m, plan::DR_PRIORITY, prio);
    let s = s.push((plan::DR_PRIORITY, bytes::le16(prio)));
    let m = m.insert(plan::DR_PRIORITY, prio);
    let (s, m) = if prio == 0 {
        lemma_put(store, s, m, plan::DR, wire::dr_code(r.dynamic_range));
        (
            s.push((plan::DR, bytes::le16(wire::dr_code(r.dynamic_range)))),
            m.insert(plan::DR, wire::dr_code(r.dynamic_range)),
        )
    } else {
        (s, m)
    };
    let (s, m) = if mono {
        lemma_put(store, s, m, plan::MONO_WC, r.monochrome_wc as u16);
        let s = s.push((plan::MONO_WC, wire::i16_bytes(r.monochrome_wc)));
        let m = m.insert(plan::MONO_WC, r.monochrome_wc as u16);
        lemma_put(store, s, m, plan::MONO_MG, r.monochrome_mg as u16);
        (
            s.push((plan::MONO_MG, wire::i16_bytes(r.monochrome_mg))),
            m.insert(plan::MONO_MG, r.monochrome_mg as u16),
        )
    } else {
        (s, m)
    };
    assert(plan::planned_settings(r) == plan::planned_balance(r, s));
    lemma_put(store, s, m, plan::GRAIN, wire::grain_code(r.grain_effect));
    let s = s.push((plan::GRAIN, bytes::le16(wire::grain_code(r.grain_effect))));
    let m = m.insert(plan::GRAIN, wire::grain_code(r.grain_effect));
    let (s, m) = if !mono {
        lemma_put(store, s, m, plan::COLOR_CHROME, wire::strength_code(r.color_chrome));
        let s = s.push((plan::COLOR_CHROME, bytes::le16(wire::strength_code(r.color_chrome))));
        let m = m.insert(plan::COLOR_CHROME, wire::strength_code(r.color_chrome));
        lemma_put(store, s, m, plan::FX_BLUE, wire::strength_code(r.color_chrome_fx_blue));
        (
            s.push((plan::FX_BLUE, bytes::le16(wire::strength_code(r.color_chrome_fx_blue)))),
            m.insert(plan::FX_BLUE, wire::strength_code(r.color_chrome_fx_blue)),
        )
    } else {
        (s, m)
    };
    lemma_put(store, s, m, plan::SMOOTH, wire::strength_code(r.smooth_skin));
    let s = s.push((plan::SMOOTH, bytes::le16(wire::strength_code(r.smooth_skin))));
    let m = m.insert(plan::SMOOTH, wire::strength_code(r.smooth_skin));
    lemma_put(store, s, m, plan::WB, wire::wb_code(r.white_balance.mode));
    let s = s.push((plan::WB, bytes::le16(wire::wb_code(r.white_balance.mode))));
    let m = m.insert(plan::WB, wire::wb_code(r.white_balance.mode));
    let (s, m) = if !mono {
        lemma_put(store, s, m, plan::WB_R, r.white_balance.shift_r as u16);
        let s = s.push((plan::WB_R, wire::i16_bytes(r.white_balance.shift_r)));
        let m = m.insert(plan::WB_R, r.white_balance.shift_r as u16);
        lemma_put(store, s, m, plan::WB_B, r.white_balance.shift_b as u16);
        (
            s.push((plan::WB_B, wire::i16_bytes(r.white_balance.shift_b))),
            m.insert(plan::WB_B, r.white_balance.shift_b as u16),
        )
    } else {
        (s, m)
    };
    let (s, m) = match r.white_balance.color_temperature {
        Some(t) => if r.white_balance.mode == WhiteBalanceMode::ColorTemperature {
            lemma_put(store, s, m, plan::TEMP, t);
            (s.push((plan::TEMP, bytes::le16(t))), m.insert(plan::TEMP, t))
        } else {
            (s, m)
        },
        None => (s, m),
    };
    assert(plan::planned_settings(r) == plan::planned_tones(r, s));
    lemma_put(store, s, m, plan::HIGHLIGHT, r.highlight as u16);
    let s = s.push((plan::HIGHLIGHT, wire::i16_bytes(r.highlight)));
    let m = m.insert(plan::HIGHLIGHT, r.highlight as u16);
    lemma_put(store, s, m, plan::SHADOW, r.shadow as u16);
    let s = s.push((plan::SHADOW, wire::i16_bytes(r.shadow)));
    let m = m.insert(plan::SHADOW, r.shadow as u16);
    lemma_put(store, s, m, plan::COLOR, r.color as u16);
    let s = s.push((plan::COLOR, wire::i16_bytes(r.color)));
    let m = m.insert(plan::COLOR, r.color as u16);
    lemma_put(store, s, m, plan::SHARPNESS, r.sharpness as u16);
    let s = s.push((plan::SHARPNESS, wire::i16_bytes(r.sharpness)));
    let m = m.insert(plan::SHARPNESS, r.sharpness as u16);
    lemma_put(store, s, m, plan::CLARITY, r.clarity as u16);
    let s = s.push((plan::CLARITY, wire::i16_bytes(r.clarity)));
    let m = m.insert(plan::CLARITY, r.clarity as u16);
    let c = wire::nr_code(r.noise_reduction).unwrap();
    lemma_put(store, s, m, plan::NR, c);
    let s = s.push((plan::NR, bytes::le16(c)));
    let m = m.insert(plan::NR, c);
    assert(plan::planned_settings(r).writes == s);
    reveal(stored_settings);
    assert(m == stored_settings(r, store));
}

/// The word that each property of the block holds after the settings of `r` are stored.
proof fn lemma_stored_lookups(r: RecipeView, store: Map<u16, u16>)
    ensures
        ({
            let m = stored_settings(r, store);
            let mono = wire::is_monochrome(r.film_simulation);
            let prio = wire::priority_code(r.dynamic_range_priority).unwrap();
            &&& m[plan::FILM] == wire::film_code(r.film_simulation)
            &&& m[plan::DR_PRIORITY] == prio
            &&& m[plan::DR] == if prio == 0 { wire::dr_code(r.dynamic_range) } else { store[plan::DR] }
            &&& m[plan::MONO_WC] == if mono { r.monochrome_wc as u16 } else { store[plan::MONO_WC] }
            &&& m[plan::MONO_MG] == if mono { r.monochrome_mg as u16 } else { store[plan::MONO_MG] }
            &&& m[plan::GRAIN] == wire::grain_code(r.grain_effect)
            &&& m[plan::COLOR_CHROME] == if !mono { wire::strength_code(r.color_chrome) } else { store[plan::COLOR_CHROME] }
            &&& m[plan::FX_BLUE] == if !mono { wire::strength_code(r.color_chrome_fx_blue) } else { store[plan::FX_BLUE] }
            &&& m[plan::SMOOTH] == wire::strength_code(r.smooth_skin)
            &&& m[plan::WB] == wire::wb_code(r.white_balance.mode)
            &&& m[plan::WB_R] == if !mono { r.white_balance.shift_r as u16 } else { store[plan::WB_R] }
            &&& m[plan::WB_B] == if !mono { r.white_balance.shift_b as u16 } else { store[plan::WB_B] }
            &&& (r.white_balance.mode == WhiteBalanceMode::ColorTemperature
                && r.white_balance.color_temperature is Some) ==> m[plan::TEMP] == r.white_balance.color_temperature.unwrap()
            &&& m[plan::HIGHLIGHT] == r.highlight as u16
            &&& m[plan::SHADOW] == r.shadow as u16
            &&& m[plan::COLOR] == r.color as u16
            &&& m[plan::SHARPNESS] == r.sharpness as u16
            &&& m[plan::CLARITY] == r.clarity as u16
            &&& m[plan::NR] == wire::nr_code(r.noise_reduction).unwrap()
        }),
{
    reveal(stored_settings);
}

/// What a read gives back of a write: when the camera stores the settings of `r` as they
/// are written, reading the slot gives back every setting that was written.
///
/// The read needs the settings that were not written to be readable: with a D-range
/// priority other than 0 the stored dynamic range must be a dynamic range (an empty
/// slot's 0xFFFF would read as the default recipe), and with a monochrome simulation the
/// stored Color Chrome and FX Blue must be strengths.
#[verifier::spinoff_prover]
#[verifier::rlimit(30)]
pub proof fn law_read_back_settings(r: RecipeView, store: Map<u16, u16>, name: Seq<char>, slot: u8)
    requires
        !plan::planned_settings(r).rejected,
        r.dynamic_range_priority != 0 ==> store[plan::DR] != 0xFFFF && wire::dr_of(store[plan::DR]) is Some,
        wire::is_monochrome(r.film_simulation) ==> wire::strength_of(store[plan::COLOR_CHROME]) is Some
            && wire::strength_of(store[plan::FX_BLUE]) is Some,
    ensures
        super::fuji::recipe_of(name, block_words(apply_writes(store, plan::planned_settings(r).writes)), slot)
            matches Ok(got) && got.name == name && keeps_settings(got, r),
{
    lemma_stored_settings(r, store);
    lemma_stored_lookups(r, store);
    let m = stored_settings(r, store);
    let v = block_words(m);
    let b = super::fuji::property_block();
    assert(v[0] == m[plan::DR] && v[1] == m[plan::DR_PRIORITY] && v[2] == m[plan::FILM]);
    assert(v[3] == m[plan::MONO_WC] && v[4] == m[plan::MONO_MG] && v[5] == m[plan::GRAIN]);
    assert(v[6] == m[plan::COLOR_CHROME] && v[7] == m[plan::FX_BLUE] && v[8] == m[plan::SMOOTH]);
    assert(v[9] == m[plan::WB] && v[10] == m[plan::WB_R] && v[11] == m[plan::WB_B]);
    assert(v[12] == m[plan::TEMP] && v[13] == m[plan::HIGHLIGHT] && v[14] == m[plan::SHADOW]);
    assert(v[15] == m[plan::COLOR] && v[16] == m[plan::SHARPNESS] && v[17] == m[plan::NR]);
    assert(v[18] == m[plan::CLARITY]);
    lemma_i16_roundtrip(r.monochrome_wc);
    lemma_i16_roundtrip(r.monochrome_mg);
    lemma_i16_roundtrip(r.white_balance.shift_r);
    lemma_i16_roundtrip(r.white_balance.shift_b);
    lemma_i16_roundtrip(r.highlight);
    lemma_i16_roundtrip(r.shadow);
    lemma_i16_roundtrip(r.color);
    lemma_i16_roundtrip(r.sharpness);
    lemma_i16_roundtrip(r.clarity);
}

} // verus!

verus! {

/// What writing the settings of `r` stores in each property, when nothing stops the writing
/// (`store` is what the camera held before): the film simulation's code in FILM, the
/// priority in DR_PRIORITY, the dynamic range's code with priority 0, the monochrome shifts
/// for monochrome simulations, the grain and smooth skin codes, Color Chrome, FX Blue and
/// the white balance shifts for colour simulations, the preset's code in WB, the dials as
/// their two's-complement words, and the High ISO NR code; a property that is not written
/// keeps its word.
pub proof fn law_settings_write_values(r: RecipeView, store: Map<u16, u16>)
    requires
        !plan::planned_settings(r).rejected,
    ensures
        ({
            let m = apply_writes(store, plan::planned_settings(r).writes);
            let mono = wire::is_monochrome(r.film_simulation);
            let prio = r.dynamic_range_priority as u16;
            &&& m[plan::FILM] == wire::film_code(r.film_simulation)
            &&& m[plan::DR_PRIORITY] == prio
            &&& m[plan::DR] == if prio == 0 { wire::dr_code(r.dynamic_range) } else { store[plan::DR] }
            &&& m[plan::MONO_WC] == if mono { r.monochrome_wc as u16 } else { store[plan::MONO_WC] }
            &&& m[plan::MONO_MG] == if mono { r.monochrome_mg as u16 } else { store[plan::MONO_MG] }
            &&& m[plan::GRAIN] == wire::grain_code(r.grain_effect)
            &&& m[plan::COLOR_CHROME] == if !mono { wire::strength_code(r.color_chrome) } else { store[plan::COLOR_CHROME] }
            &&& m[plan::FX_BLUE] == if !mono { wire::strength_code(r.color_chrome_fx_blue) } else { store[plan::FX_BLUE] }
            &&& m[plan::SMOOTH] == wire::strength_code(r.smooth_skin)
            &&& m[plan::WB] == wire::wb_code(r.white_balance.mode)
            &&& m[plan::WB_R] == if !mono { r.white_balance.shift_r as u16 } else { store[plan::WB_R] }
            &&& m[plan::WB_B] == if !mono { r.white_balance.shift_b as u16 } else { store[plan::WB_B] }
            &&& m[plan::TEMP] == if r.white_balance.mode == WhiteBalanceMode::ColorTemperature
                && r.white_balance.color_temperature is Some {
                r.white_balance.color_temperature.unwrap()
            } else {
                store[plan::TEMP]
            }
            &&& m[plan::HIGHLIGHT] == r.highlight as u16
            &&& m[plan::SHADOW] == r.shadow as u16
            &&& m[plan::COLOR] == r.color as u16
            &&& m[plan::SHARPNESS] == r.sharpness as u16
            &&& m[plan::CLARITY] == r.clarity as u16
            &&& m[plan::NR] == wire::nr_code(r.noise_reduction).unwrap()
        }),
{
    lemma_stored_settings(r, store);
    lemma_stored_lookups(r, store);
    reveal(stored_settings);
}

} // verus!
