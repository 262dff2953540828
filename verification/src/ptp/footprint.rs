//! Which properties each kind of recipe write can touch.
use vstd::prelude::*;
use super::{bytes, plan, wire};
use crate::recipe::{RecipeView, WhiteBalanceMode};
use crate::transport::Transport;
use super::fuji::{
    carried_out, names_plan, profile_plan, recipe_plan, settings_only_plan, slot_plan, FujiPtp,
    FujiPtpError,
};
use super::session::PtpOp;

verus! {

/// Every write of `writes` is to a property that `allowed` admits.
pub open spec fn writes_within(writes: Seq<(u16, Seq<u8>)>, allowed: spec_fn(u16) -> bool) -> bool {
    forall|i: int| 0 <= i < writes.len() ==> allowed(#[trigger] writes[i].0)
}

/// `op` is a property write to a property that `allowed` admits.
pub open spec fn is_write_within(op: PtpOp, allowed: spec_fn(u16) -> bool) -> bool {
    match op {
        PtpOp::SetProperty { property, .. } => allowed(property),
        _ => false,
    }
}

/// Every transaction that `f1` completed beyond `f0` is a write that `allowed` admits.
pub open spec fn new_writes_within<T: Transport>(
    f0: FujiPtp<T>,
    f1: FujiPtp<T>,
    allowed: spec_fn(u16) -> bool,
) -> bool {
    forall|i: int|
        f0.log().len() <= i < f1.log().len() ==> is_write_within(#[trigger] f1.log()[i], allowed)
}

/// The properties of the setting block, `DR` to `CLARITY`.
pub open spec fn in_block(p: u16) -> bool {
    plan::DR <= p <= plan::CLARITY
}

/// Carrying out a plan completes only writes of that plan.
proof fn lemma_carried_writes<T: Transport>(
    f0: FujiPtp<T>,
    f1: FujiPtp<T>,
    p: plan::PlanView,
    res: Result<(), FujiPtpError>,
    allowed: spec_fn(u16) -> bool,
)
    requires
        carried_out(f0, f1, p, res),
        writes_within(p.writes, allowed),
    ensures
        new_writes_within(f0, f1, allowed),
{
    let n = f0.log().len() as int;
    let all = f0.log() + plan::set_ops(p.writes);
    assert forall|i: int| n <= i < f1.log().len() implies is_write_within(#[trigger] f1.log()[i], allowed) by {
        assert(f1.log()[i] == all[i]);
        assert(all[i] == plan::set_ops(p.writes)[i - n]);
        assert(allowed(p.writes[i - n].0));
    }
}

proof fn lemma_followed_by_within(a: plan::PlanView, b: plan::PlanView, allowed: spec_fn(u16) -> bool)
    requires
        writes_within(a.writes, allowed),
        writes_within(b.writes, allowed),
    ensures
        writes_within(plan::followed_by(a, b).writes, allowed),
{
    if !a.rejected {
        let w = a.writes + b.writes;
        assert forall|i: int| 0 <= i < w.len() implies allowed(#[trigger] w[i].0) by {
            if i < a.writes.len() {
                assert(w[i] == a.writes[i]);
            } else {
                assert(w[i] == b.writes[i - a.writes.len()]);
            }
        }
    }
}

proof fn lemma_name_plan_within(name: Seq<char>, allowed: spec_fn(u16) -> bool)
    requires
        allowed(plan::PROP_SLOT_NAME),
    ensures
        writes_within(plan::name_plan(name).writes, allowed),
{
}

proof fn lemma_names_plan_within(recipes: Seq<RecipeView>, n: nat, allowed: spec_fn(u16) -> bool)
    requires
        allowed(plan::PROP_SLOT_CURSOR),
        allowed(plan::PROP_SLOT_NAME),
    ensures
        writes_within(names_plan(recipes, n).writes, allowed),
    decreases n,
{
    if n > 0 {
        lemma_names_plan_within(recipes, (n - 1) as nat, allowed);
        let slot = n as u8;
        lemma_name_plan_within(recipes[n - 1].name, allowed);
        lemma_followed_by_within(plan::select_plan(slot), plan::name_plan(recipes[n - 1].name), allowed);
        lemma_followed_by_within(
            names_plan(recipes, (n - 1) as nat),
            super::fuji::name_slot_plan(slot, recipes[n - 1].name),
            allowed,
        );
    }
}

/// A push keeps every write within `allowed` when the pushed one is.
proof fn lemma_push_within(s: Seq<(u16, Seq<u8>)>, w: (u16, Seq<u8>), allowed: spec_fn(u16) -> bool)
    requires
        writes_within(s, allowed),
        allowed(w.0),
    ensures
        writes_within(s.push(w), allowed),
{
    assert forall|i: int| 0 <= i < s.push(w).len() implies allowed(#[trigger] s.push(w)[i].0) by {
        if i < s.len() {
            assert(s.push(w)[i] == s[i]);
        }
    }
}

/// The settings of `r` are written to properties of the setting block only, among which
/// `allowed` admits every one that is written for a simulation of `r`'s kind.
proof fn lemma_settings_within(r: RecipeView, allowed: spec_fn(u16) -> bool)
    requires
        forall|p: u16| in_block(p) && (wire::is_monochrome(r.film_simulation) ==> p != plan::COLOR_CHROME
            && p != plan::FX_BLUE && p != plan::WB_R && p != plan::WB_B) && (!wire::is_monochrome(
            r.film_simulation,
        ) ==> p != plan::MONO_WC && p != plan::MONO_MG) ==> #[trigger] allowed(p),
    ensures
        writes_within(plan::planned_settings(r).writes, allowed),
{
    let mono = wire::is_monochrome(r.film_simulation);
    let s1 = seq![(plan::FILM, bytes::le16(wire::film_code(r.film_simulation)))];
    assert(allowed(plan::FILM));
    assert(allowed(plan::DR_PRIORITY));
    assert(allowed(plan::DR));
    assert(allowed(plan::GRAIN));
    assert(allowed(plan::SMOOTH));
    assert(allowed(plan::WB));
    assert(allowed(plan::TEMP));
    assert(allowed(plan::HIGHLIGHT));
    assert(allowed(plan::SHADOW));
    assert(allowed(plan::COLOR));
    assert(allowed(plan::SHARPNESS));
    assert(allowed(plan::CLARITY));
    assert(allowed(plan::NR));
    assert(mono ==> allowed(plan::MONO_WC) && allowed(plan::MONO_MG));
    assert(!mono ==> allowed(plan::COLOR_CHROME) && allowed(plan::FX_BLUE) && allowed(plan::WB_R)
        && allowed(plan::WB_B));
    assert(writes_within(s1, allowed));
    match wire::priority_code(r.dynamic_range_priority) {
        None => {},
        Some(prio) => {
            let s2a = s1.push((plan::DR_PRIORITY, bytes::le16(prio)));
            lemma_push_within(s1, (plan::DR_PRIORITY, bytes::le16(prio)), allowed);
            lemma_push_within(s2a, (plan::DR, bytes::le16(wire::dr_code(r.dynamic_range))), allowed);
            let s2 = if prio == 0 {
                s2a.push((plan::DR, bytes::le16(wire::dr_code(r.dynamic_range))))
            } else {
                s2a
            };
            let s3 = if mono {
                s2.push((plan::MONO_WC, wire::i16_bytes(r.monochrome_wc)))
            } else {
                s2
            };
            if mono {
                lemma_push_within(s2, (plan::MONO_WC, wire::i16_bytes(r.monochrome_wc)), allowed);
                lemma_push_within(s3, (plan::MONO_MG, wire::i16_bytes(r.monochrome_mg)), allowed);
            }
            let s4 = if mono {
                s3.push((plan::MONO_MG, wire::i16_bytes(r.monochrome_mg)))
            } else {
                s3
            };
            if !(mono && !wire::dial_ok(r.monochrome_wc)) && !(mono && !wire::dial_ok(r.monochrome_mg)) {
                lemma_balance_within(r, s4, allowed);
            }
        },
    }
}

proof fn lemma_balance_within(r: RecipeView, s: Seq<(u16, Seq<u8>)>, allowed: spec_fn(u16) -> bool)
    requires
        writes_within(s, allowed),
        allowed(plan::GRAIN),
        allowed(plan::SMOOTH),
        allowed(plan::WB),
        allowed(plan::TEMP),
        allowed(plan::HIGHLIGHT),
        allowed(plan::SHADOW),
        allowed(plan::COLOR),
        allowed(plan::SHARPNESS),
        allowed(plan::CLARITY),
        allowed(plan::NR),
        !wire::is_monochrome(r.film_simulation) ==> allowed(plan::COLOR_CHROME) && allowed(
            plan::FX_BLUE,
        ) && allowed(plan::WB_R) && allowed(plan::WB_B),
    ensures
        writes_within(plan::planned_balance(r, s).writes, allowed),
{
    let mono = wire::is_monochrome(r.film_simulation);
    let s5 = s.push((plan::GRAIN, bytes::le16(wire::grain_code(r.grain_effect))));
    lemma_push_within(s, (plan::GRAIN, bytes::le16(wire::grain_code(r.grain_effect))), allowed);
    let cc = (plan::COLOR_CHROME, bytes::le16(wire::strength_code(r.color_chrome)));
    let fx = (plan::FX_BLUE, bytes::le16(wire::strength_code(r.color_chrome_fx_blue)));
    if !mono {
        lemma_push_within(s5, cc, allowed);
        lemma_push_within(s5.push(cc), fx, allowed);
    }
    let s6 = if !mono { s5.push(cc).push(fx) } else { s5 };
    let sm = (plan::SMOOTH, bytes::le16(wire::strength_code(r.smooth_skin)));
    let wb = (plan::WB, bytes::le16(wire::wb_code(r.white_balance.mode)));
    lemma_push_within(s6, sm, allowed);
    lemma_push_within(s6.push(sm), wb, allowed);
    let s7 = s6.push(sm).push(wb);
    if wire::shift_ok(r.white_balance.shift_r) && wire::shift_ok(r.white_balance.shift_b) {
        let wr = (plan::WB_R, wire::i16_bytes(r.white_balance.shift_r));
        let wbb = (plan::WB_B, wire::i16_bytes(r.white_balance.shift_b));
        if !mono {
            lemma_push_within(s7, wr, allowed);
            lemma_push_within(s7.push(wr), wbb, allowed);
        }
        let s8 = if !mono { s7.push(wr).push(wbb) } else { s7 };
        match r.white_balance.color_temperature {
            Some(t) => {
                lemma_push_within(s8, (plan::TEMP, bytes::le16(t)), allowed);
            },
            None => {},
        }
        let s9 = match r.white_balance.color_temperature {
            Some(t) => if r.white_balance.mode == WhiteBalanceMode::ColorTemperature {
                s8.push((plan::TEMP, bytes::le16(t)))
            } else {
                s8
            },
            None => s8,
        };
        lemma_tones_within(r, s9, allowed);
    }
}

proof fn lemma_tones_within(r: RecipeView, s: Seq<(u16, Seq<u8>)>, allowed: spec_fn(u16) -> bool)
    requires
        writes_within(s, allowed),
        allowed(plan::HIGHLIGHT),
        allowed(plan::SHADOW),
        allowed(plan::COLOR),
        allowed(plan::SHARPNESS),
        allowed(plan::CLARITY),
        allowed(plan::NR),
    ensures
        writes_within(plan::planned_tones(r, s).writes, allowed),
{
    let s1 = s.push((plan::HIGHLIGHT, wire::i16_bytes(r.highlight)));
    lemma_push_within(s, (plan::HIGHLIGHT, wire::i16_bytes(r.highlight)), allowed);
    let s2 = s1.push((plan::SHADOW, wire::i16_bytes(r.shadow)));
    lemma_push_within(s1, (plan::SHADOW, wire::i16_bytes(r.shadow)), allowed);
    let s3 = s2.push((plan::COLOR, wire::i16_bytes(r.color)));
    lemma_push_within(s2, (plan::COLOR, wire::i16_bytes(r.color)), allowed);
    let s4 = s3.push((plan::SHARPNESS, wire::i16_bytes(r.sharpness)));
    lemma_push_within(s3, (plan::SHARPNESS, wire::i16_bytes(r.sharpness)), allowed);
    let s5 = s4.push((plan::CLARITY, wire::i16_bytes(r.clarity)));
    lemma_push_within(s4, (plan::CLARITY, wire::i16_bytes(r.clarity)), allowed);
    match wire::nr_code(r.noise_reduction) {
        Some(c) => {
            lemma_push_within(s5, (plan::NR, bytes::le16(c)), allowed);
        },
        None => {},
    }
}

/// Writing the names of a profile leaves every setting as it was: each transaction that
/// `write_recipe_names` completes moves the slot cursor or stores a name, whatever the
/// camera answers.
pub proof fn law_names_write_keeps_settings<T: Transport>(
    f0: FujiPtp<T>,
    f1: FujiPtp<T>,
    recipes: Seq<RecipeView>,
    res: Result<(), FujiPtpError>,
)
    requires
        carried_out(f0, f1, names_plan(recipes, 7), res),
    ensures
        new_writes_within(f0, f1, |p: u16| p == plan::PROP_SLOT_CURSOR || p == plan::PROP_SLOT_NAME),
{
    let allowed = |p: u16| p == plan::PROP_SLOT_CURSOR || p == plan::PROP_SLOT_NAME;
    lemma_names_plan_within(recipes, 7, allowed);
    lemma_carried_writes(f0, f1, names_plan(recipes, 7), res, allowed);
}

/// Writing the settings of a recipe keeps the slot's name: each transaction that
/// `write_recipe_settings` completes moves the slot cursor or writes a property of the
/// setting block.
pub proof fn law_settings_write_keeps_name<T: Transport>(
    f0: FujiPtp<T>,
    f1: FujiPtp<T>,
    slot: u8,
    r: RecipeView,
    res: Result<(), FujiPtpError>,
)
    requires
        carried_out(f0, f1, settings_only_plan(slot, r), res),
    ensures
        new_writes_within(f0, f1, |p: u16| p == plan::PROP_SLOT_CURSOR || in_block(p)),
{
    let allowed = |p: u16| p == plan::PROP_SLOT_CURSOR || in_block(p);
    lemma_settings_within(r, allowed);
    lemma_followed_by_within(plan::select_plan(slot), plan::planned_settings(r), allowed);
    lemma_carried_writes(f0, f1, settings_only_plan(slot, r), res, allowed);
}

/// The camera takes each setting only for the simulations it belongs to, so writing a
/// recipe never writes the monochrome warm/cool and magenta/green shifts for a colour
/// simulation, nor Color Chrome, FX Blue or the white balance shifts for a monochrome one.
pub proof fn law_write_respects_simulation<T: Transport>(
    f0: FujiPtp<T>,
    f1: FujiPtp<T>,
    slot: u8,
    r: RecipeView,
    res: Result<(), FujiPtpError>,
)
    requires
        carried_out(f0, f1, recipe_plan(slot, r), res),
    ensures
        !wire::is_monochrome(r.film_simulation) ==> new_writes_within(
            f0,
            f1,
            |p: u16| p != plan::MONO_WC && p != plan::MONO_MG,
        ),
        wire::is_monochrome(r.film_simulation) ==> new_writes_within(
            f0,
            f1,
            |p: u16| p != plan::COLOR_CHROME && p != plan::FX_BLUE && p != plan::WB_R && p != plan::WB_B,
        ),
{
    let allowed = if wire::is_monochrome(r.film_simulation) {
        |p: u16| p != plan::COLOR_CHROME && p != plan::FX_BLUE && p != plan::WB_R && p != plan::WB_B
    } else {
        |p: u16| p != plan::MONO_WC && p != plan::MONO_MG
    };
    lemma_settings_within(r, allowed);
    lemma_name_plan_within(r.name, allowed);
    lemma_followed_by_within(plan::name_plan(r.name), plan::planned_settings(r), allowed);
    lemma_followed_by_within(
        plan::select_plan(slot),
        plan::followed_by(plan::name_plan(r.name), plan::planned_settings(r)),
        allowed,
    );
    lemma_carried_writes(f0, f1, recipe_plan(slot, r), res, allowed);
}

/// Writing `a`, then `b`, then `c` is the same plan however the steps are grouped.
pub proof fn lemma_followed_by_assoc(a: plan::PlanView, b: plan::PlanView, c: plan::PlanView)
    ensures
        plan::followed_by(a, plan::followed_by(b, c)) == plan::followed_by(plan::followed_by(a, b), c),
{
    if !a.rejected && !b.rejected {
        assert(a.writes + (b.writes + c.writes) =~= (a.writes + b.writes) + c.writes);
    }
}

/// Writing the settings of a recipe does not depend on its name, and, when the name can be
/// stored, it is writing the whole recipe without the name: the same writes in the same
/// order, stopping at the same setting.
pub proof fn law_settings_write_is_recipe_write_without_name(slot: u8, r: RecipeView, other: Seq<char>)
    ensures
        settings_only_plan(slot, r) == settings_only_plan(slot, RecipeView { name: other, ..r }),
        super::name::name_wire(r.name) matches Some(b) ==> {
            &&& recipe_plan(slot, r).writes == seq![(plan::PROP_SLOT_CURSOR, seq![slot, 0u8]), (plan::PROP_SLOT_NAME, b)]
                + plan::planned_settings(r).writes
            &&& settings_only_plan(slot, r).writes == seq![(plan::PROP_SLOT_CURSOR, seq![slot, 0u8])]
                + plan::planned_settings(r).writes
            &&& recipe_plan(slot, r).rejected == settings_only_plan(slot, r).rejected
        },
{
    assert(plan::planned_settings(r) == plan::planned_settings(RecipeView { name: other, ..r }));
    if let Some(b) = super::name::name_wire(r.name) {
        assert(seq![(plan::PROP_SLOT_CURSOR, seq![slot, 0u8])] + seq![(plan::PROP_SLOT_NAME, b)]
            =~= seq![(plan::PROP_SLOT_CURSOR, seq![slot, 0u8]), (plan::PROP_SLOT_NAME, b)]);
        lemma_followed_by_assoc(
            plan::select_plan(slot),
            plan::name_plan(r.name),
            plan::planned_settings(r),
        );
    }
}

/// Writing a profile writes the slots C1 to C7 in order, each as writing its settings (as
/// `write_recipe_settings` does) followed by writing its name.
pub proof fn law_profile_write_is_settings_then_name(recipes: Seq<RecipeView>, n: nat)
    requires
        1 <= n <= 7,
    ensures
        profile_plan(recipes, n) == plan::followed_by(
            profile_plan(recipes, (n - 1) as nat),
            plan::followed_by(
                settings_only_plan(n as u8, recipes[n - 1]),
                plan::name_plan(recipes[n - 1].name),
            ),
        ),
{
    lemma_followed_by_assoc(
        plan::select_plan(n as u8),
        plan::planned_settings(recipes[n - 1]),
        plan::name_plan(recipes[n - 1].name),
    );
    assert(slot_plan(n as u8, recipes[n - 1]) == plan::followed_by(
        settings_only_plan(n as u8, recipes[n - 1]),
        plan::name_plan(recipes[n - 1].name),
    ));
}

} // verus!
