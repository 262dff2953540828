//! What a read of the slots gives back of a recipe that was written to one of them, on a
//! camera that keeps what it is sent.
use vstd::prelude::*;
use super::{name, plan, wire};
use super::fuji::{
    carried_out, op_value, profile_read, recipe_of, recipe_plan, slot_chunk, slot_read, words,
    FujiPtp,
};
use super::laws::{apply_writes, block_words, keeps_settings, law_read_back_settings};
use crate::recipe::{Profile, RecipeView};
use crate::transport::Transport;
use super::session::PtpOp;

verus! {

/// The read `ops` of a slot found what the write of `r` stored there: the name bytes that
/// were written, and for each property of the setting block the word that the camera holds
/// after the settings writes, on top of what it held before (`store`).
pub open spec fn kept_write(ops: Seq<PtpOp>, r: RecipeView, store: Map<u16, u16>) -> bool {
    &&& name::name_wire(r.name) matches Some(b) && op_value(ops[1]) == b
    &&& forall|j: int|
        0 <= j < 19 ==> wire::word_of(op_value(#[trigger] ops[2 + j])) == Some(
            block_words(apply_writes(store, plan::planned_settings(r).writes))[j],
        )
}

/// What a read gives back of a write: after `write_recipe(slot, r)` succeeded (from `f0` to
/// `f1`) and `read_recipes` then succeeded with `p` (from `f1` to `f2`), on a camera that
/// answered the read of `slot` with what the write stored there, the recipe read for `slot`
/// holds every setting of `r` that was written, and, for a name from the Basic Multilingual
/// Plane, its name.
///
/// As for `law_read_back_settings`, the settings that were not written must read as
/// settings: with a D-range priority other than 0 the stored dynamic range must be one (not
/// the 0xFFFF of an empty slot), and with a monochrome simulation the stored Color Chrome
/// and FX Blue must be strengths.
#[verifier::spinoff_prover]
#[verifier::rlimit(40)]
pub proof fn law_write_then_read<T: Transport>(
    f0: FujiPtp<T>,
    f1: FujiPtp<T>,
    f2: FujiPtp<T>,
    slot: u8,
    r: RecipeView,
    p: Profile,
    store: Map<u16, u16>,
)
    requires
        1 <= slot <= 7,
        carried_out(f0, f1, recipe_plan(slot, r), Ok(())),
        profile_read(f1, f2, Ok(p)),
        kept_write(slot_chunk(f2.log().skip(f1.log().len() as int), slot - 1), r, store),
        r.dynamic_range_priority != 0 ==> store[plan::DR] != 0xFFFF && wire::dr_of(store[plan::DR]) is Some,
        wire::is_monochrome(r.film_simulation) ==> wire::strength_of(store[plan::COLOR_CHROME]) is Some
            && wire::strength_of(store[plan::FX_BLUE]) is Some,
    ensures
        keeps_settings(p@.recipes[slot - 1], r),
        name::is_bmp(r.name) ==> p@.recipes[slot - 1].name == r.name,
{
    let new = f2.log().skip(f1.log().len() as int);
    let s = slot - 1;
    let ops = slot_chunk(new, s);
    assert(slot_read(((s + 1) as u8), slot_chunk(new, s)) == Some(
        Ok::<RecipeView, Seq<char>>(p@.recipes[s]),
    ));
    assert(((s + 1) as u8) == slot);
    let n = name::name_of(op_value(ops[1])).unwrap();
    assert(ops.len() == 21);
    let m = apply_writes(store, plan::planned_settings(r).writes);
    assert forall|j: int| 0 <= j < 19 implies words(ops)[j] == block_words(m)[j] by {
        assert(wire::word_of(op_value(ops[2 + j])) == Some(block_words(m)[j]));
    }
    assert(words(ops) =~= block_words(m));
    assert(recipe_of(n, words(ops), slot) == Ok::<RecipeView, Seq<char>>(p@.recipes[s]));
    law_read_back_settings(r, store, n, slot);
    if name::is_bmp(r.name) {
        name::lemma_stored_name_reads_back(r.name);
    }
}

} // verus!
