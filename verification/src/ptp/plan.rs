//! The property writes that store a recipe's settings, in the order in which the camera
//! receives them, and where a setting that the camera cannot take stops the writing.
use vstd::prelude::*;
use crate::recipe::{Recipe, RecipeView, WhiteBalanceMode};
use super::session::PtpOp;
use super::{bytes, wire};

verus! {

pub const PROP_SLOT_CURSOR: u16 = 0xD18C;
pub const PROP_SLOT_NAME: u16 = 0xD18D;
pub const PRESET_BLOCK_START: u16 = 0xD18E;
pub const PRESET_BLOCK_END: u16 = 0xD1A5;

pub const DR: u16 = 0xD190;
pub const DR_PRIORITY: u16 = 0xD191;
pub const FILM: u16 = 0xD192;
pub const MONO_WC: u16 = 0xD193;
pub const MONO_MG: u16 = 0xD194;
pub const GRAIN: u16 = 0xD195;
pub const COLOR_CHROME: u16 = 0xD196;
pub const FX_BLUE: u16 = 0xD197;
pub const SMOOTH: u16 = 0xD198;
pub const WB: u16 = 0xD199;
pub const WB_R: u16 = 0xD19A;
pub const WB_B: u16 = 0xD19B;
pub const TEMP: u16 = 0xD19C;
pub const HIGHLIGHT: u16 = 0xD19D;
pub const SHADOW: u16 = 0xD19E;
pub const COLOR: u16 = 0xD19F;
pub const SHARPNESS: u16 = 0xD1A0;
pub const NR: u16 = 0xD1A1;
pub const CLARITY: u16 = 0xD1A2;

/// One property value to hand to the camera.
pub struct PropertyWrite {
    pub property: u16,
    pub value: Vec<u8>,
}

/// The writes that store some settings, and whether a setting that the camera cannot take
/// stops the writing after them.
pub struct WritePlan {
    pub writes: Vec<PropertyWrite>,
    pub rejected: bool,
}

pub struct PlanView {
    pub writes: Seq<(u16, Seq<u8>)>,
    pub rejected: bool,
}

impl View for WritePlan {
    type V = PlanView;

    open spec fn view(&self) -> PlanView {
        PlanView {
            writes: self.writes@.map_values(|w: PropertyWrite| (w.property, w.value@)),
            rejected: self.rejected,
        }
    }
}

/// The history entries of a sequence of property writes.
pub open spec fn set_ops(writes: Seq<(u16, Seq<u8>)>) -> Seq<PtpOp> {
    writes.map_values(|w: (u16, Seq<u8>)| PtpOp::SetProperty { property: w.0, value: w.1 })
}

/// `a` followed by, unless `a` stopped, `b`.
pub open spec fn followed_by(a: PlanView, b: PlanView) -> PlanView {
    if a.rejected {
        a
    } else {
        PlanView { writes: a.writes + b.writes, rejected: b.rejected }
    }
}

/// One write.
pub open spec fn put(property: u16, value: Seq<u8>) -> PlanView {
    PlanView { writes: seq![(property, value)], rejected: false }
}

/// A condition: nothing is written, and the writing stops unless it holds.
pub open spec fn require(ok: bool) -> PlanView {
    PlanView { writes: seq![], rejected: !ok }
}

pub open spec fn stop(writes: Seq<(u16, Seq<u8>)>) -> PlanView {
    PlanView { writes, rejected: true }
}

/// Moving the slot cursor to `slot`.
pub open spec fn select_plan(slot: u8) -> PlanView {
    put(PROP_SLOT_CURSOR, seq![slot, 0u8])
}

/// Writing a preset name, which stops when the name cannot be stored.
pub open spec fn name_plan(name: Seq<char>) -> PlanView {
    match super::name::name_wire(name) {
        Some(b) => put(PROP_SLOT_NAME, b),
        None => require(false),
    }
}

/// The writes that store the settings of `r` (everything but its name), in order:
/// film simulation; D-range priority, which must be 0, 1, 2 or 32768; dynamic range, only
/// with priority 0; for monochrome simulations the warm/cool and magenta/green shifts;
/// grain; for colour simulations Color Chrome and FX Blue; smooth skin; white balance; the
/// red/blue shifts, which must lie in -9..=9 and are written for colour simulations only;
/// the temperature, for the color temperature preset when it has one; highlight, shadow,
/// color, sharpness, clarity; High ISO NR, which must lie in -4..=4. A dial value that the
/// camera cannot hold stops the writing where it would have been written.
pub open spec fn planned_settings(r: RecipeView) -> PlanView {
    let mono = wire::is_monochrome(r.film_simulation);
    let s1 = seq![(FILM, bytes::le16(wire::film_code(r.film_simulation)))];
    match wire::priority_code(r.dynamic_range_priority) {
        None => stop(s1),
        Some(prio) => {
            let s2 = if prio == 0 {
                s1.push((DR_PRIORITY, bytes::le16(prio))).push(
                    (DR, bytes::le16(wire::dr_code(r.dynamic_range))),
                )
            } else {
                s1.push((DR_PRIORITY, bytes::le16(prio)))
            };
            if mono && !wire::dial_ok(r.monochrome_wc) {
                stop(s2)
            } else {
                let s3 = if mono {
                    s2.push((MONO_WC, wire::i16_bytes(r.monochrome_wc)))
                } else {
                    s2
                };
                if mono && !wire::dial_ok(r.monochrome_mg) {
                    stop(s3)
                } else {
                    let s4 = if mono {
                        s3.push((MONO_MG, wire::i16_bytes(r.monochrome_mg)))
                    } else {
                        s3
                    };
                    planned_balance(r, s4)
                }
            }
        },
    }
}

/// Grain, Color Chrome and FX Blue (colour simulations), smooth skin, white balance, its
/// shifts (colour simulations) and temperature, then the dials, after the writes `s`.
pub open spec fn planned_balance(r: RecipeView, s: Seq<(u16, Seq<u8>)>) -> PlanView {
    let mono = wire::is_monochrome(r.film_simulation);
    let s5 = s.push((GRAIN, bytes::le16(wire::grain_code(r.grain_effect))));
    let s6 = if !mono {
        s5.push((COLOR_CHROME, bytes::le16(wire::strength_code(r.color_chrome)))).push(
            (FX_BLUE, bytes::le16(wire::strength_code(r.color_chrome_fx_blue))),
        )
    } else {
        s5
    };
    let s7 = s6.push((SMOOTH, bytes::le16(wire::strength_code(r.smooth_skin)))).push(
        (WB, bytes::le16(wire::wb_code(r.white_balance.mode))),
    );
    if !(wire::shift_ok(r.white_balance.shift_r) && wire::shift_ok(r.white_balance.shift_b)) {
        stop(s7)
    } else {
        let s8 = if !mono {
            s7.push((WB_R, wire::i16_bytes(r.white_balance.shift_r))).push(
                (WB_B, wire::i16_bytes(r.white_balance.shift_b)),
            )
        } else {
            s7
        };
        let s9 = match r.white_balance.color_temperature {
            Some(t) => if r.white_balance.mode == WhiteBalanceMode::ColorTemperature {
                s8.push((TEMP, bytes::le16(t)))
            } else {
                s8
            },
            None => s8,
        };
        planned_tones(r, s9)
    }
}

/// The dial writes (highlight, shadow, color, sharpness, clarity) and High ISO NR, after
/// the writes `s`.
pub open spec fn planned_tones(r: RecipeView, s: Seq<(u16, Seq<u8>)>) -> PlanView {
    if !wire::dial_ok(r.highlight) {
        stop(s)
    } else {
        let s1 = s.push((HIGHLIGHT, wire::i16_bytes(r.highlight)));
        if !wire::dial_ok(r.shadow) {
            stop(s1)
        } else {
            let s2 = s1.push((SHADOW, wire::i16_bytes(r.shadow)));
            if !wire::dial_ok(r.color) {
                stop(s2)
            } else {
                let s3 = s2.push((COLOR, wire::i16_bytes(r.color)));
                if !wire::dial_ok(r.sharpness) {
                    stop(s3)
                } else {
                    let s4 = s3.push((SHARPNESS, wire::i16_bytes(r.sharpness)));
                    if !wire::dial_ok(r.clarity) {
                        stop(s4)
                    } else {
                        let s5 = s4.push((CLARITY, wire::i16_bytes(r.clarity)));
                        match wire::nr_code(r.noise_reduction) {
                            None => stop(s5),
                            Some(c) => PlanView {
                                writes: s5.push((NR, bytes::le16(c))),
                                rejected: false,
                            },
                        }
                    }
                }
            }
        }
    }
}

/// Every value of the writes fits one data container.
pub open spec fn values_fit(writes: Seq<(u16, Seq<u8>)>) -> bool {
    forall|i: int| 0 <= i < writes.len() ==> (#[trigger] writes[i]).1.len() <= 1024
}

pub fn put_word(writes: &mut Vec<PropertyWrite>, property: u16, v: u16)
    ensures
        final(writes)@.map_values(|w: PropertyWrite| (w.property, w.value@)) == old(
            writes,
        )@.map_values(|w: PropertyWrite| (w.property, w.value@)).push(
            (property, bytes::le16(v)),
        ),
{
    let mut value = Vec::new();
    bytes::write_u16_le(&mut value, v);
    let ghost before = writes@;
    writes.push(PropertyWrite { property, value });
    assert(writes@.map_values(|w: PropertyWrite| (w.property, w.value@)) =~= before.map_values(
        |w: PropertyWrite| (w.property, w.value@),
    ).push((property, bytes::le16(v))));
}

} // verus!

verus! {

pub proof fn lemma_set_ops_add(a: Seq<(u16, Seq<u8>)>, b: Seq<(u16, Seq<u8>)>)
    ensures
        set_ops(a + b) == set_ops(a) + set_ops(b),
{
    assert(set_ops(a + b) =~= set_ops(a) + set_ops(b));
}

pub proof fn lemma_set_ops_push(a: Seq<(u16, Seq<u8>)>, w: (u16, Seq<u8>))
    ensures
        set_ops(a.push(w)) == set_ops(a).push(PtpOp::SetProperty { property: w.0, value: w.1 }),
{
    assert(set_ops(a.push(w)) =~= set_ops(a).push(PtpOp::SetProperty { property: w.0, value: w.1 }));
}

} // verus!
