//! The Fujifilm layer: the custom recipe slots C1-C7 read and written as camera
//! properties over a PTP session.
use vstd::prelude::*;
use crate::recipe::{
    DynamicRange, EffectStrength, FilmSimulation, GrainEffect, Profile, Recipe, RecipeView,
    WhiteBalance, WhiteBalanceMode,
};
use crate::transport::{Transport, TransportError};
use super::session::{
    self, Outcome, PtpOp, PtpProtocolError, PtpSession, PtpSessionError,
};
use super::plan::{
    self, PropertyWrite, WritePlan, CLARITY, COLOR, COLOR_CHROME, DR, DR_PRIORITY, FILM, FX_BLUE,
    GRAIN, HIGHLIGHT, MONO_MG, MONO_WC, NR, PROP_SLOT_CURSOR, PROP_SLOT_NAME, SHADOW, SHARPNESS,
    SMOOTH, TEMP, WB, WB_B, WB_R,
};
use super::{bytes, name, text, wire};

verus! {

#[derive(Debug)]
pub enum FujiPtpError {
    InvalidSlot,
    InvalidData,
    InvalidDataAt(String),
    TransportError,
    ProtocolError,
    Protocol(PtpProtocolError),
}

/// How a transaction ended, as reported by `FujiPtp`.
pub open spec fn fuji_outcome(r: Result<(), FujiPtpError>) -> Outcome<()> {
    match r {
        Ok(()) => Outcome::Done(()),
        Err(FujiPtpError::Protocol(e)) => Outcome::Refused(e),
        Err(_) => Outcome::Lost,
    }
}

pub open spec fn fuji_bytes_outcome(r: Result<Vec<u8>, FujiPtpError>) -> Outcome<Seq<u8>> {
    match r {
        Ok(p) => Outcome::Done(p@),
        Err(FujiPtpError::Protocol(e)) => Outcome::Refused(e),
        Err(_) => Outcome::Lost,
    }
}

/// An error that comes from the link or from the camera's answer.
pub open spec fn is_exchange_error(e: FujiPtpError) -> bool {
    e matches FujiPtpError::TransportError || e matches FujiPtpError::Protocol(_)
}

/// The property values read per slot, in the order in which they are read.
pub open spec fn property_block() -> Seq<u16> {
    seq![
        DR, DR_PRIORITY, FILM, MONO_WC, MONO_MG, GRAIN, COLOR_CHROME, FX_BLUE, SMOOTH, WB, WB_R,
        WB_B, TEMP, HIGHLIGHT, SHADOW, COLOR, SHARPNESS, NR, CLARITY,
    ]
}

/// What reading a slot gives for the slot name `name` and the property words `v` (in the
/// order of `property_block`), or the message of the first value that has no meaning.
/// An empty slot (0xFFFF as first word) reads as the default recipe.
pub open spec fn recipe_of(name: Seq<char>, v: Seq<u16>, slot: u8) -> Result<RecipeView, Seq<char>> {
    if v[0] == 0xFFFF {
        Ok(crate::recipe::recipe::default_recipe(name))
    } else if wire::dr_of(v[0]) is None {
        Err(text::hex_value_message(slot, "dynamic range"@, v[0]))
    } else if wire::film_of(v[2]) is None {
        Err(text::value_message(slot, "film simulation"@, v[2]))
    } else if wire::grain_of(v[5]) is None {
        Err(text::value_message(slot, "grain"@, v[5]))
    } else if wire::strength_of(v[6]) is None {
        Err(text::value_message(slot, "color chrome"@, v[6]))
    } else if wire::strength_of(v[7]) is None {
        Err(text::value_message(slot, "fx blue"@, v[7]))
    } else if wire::strength_of(v[8]) is None {
        Err(text::value_message(slot, "smooth skin"@, v[8]))
    } else if wire::wb_of(v[9]) is None {
        Err(text::hex_value_message(slot, "white balance"@, v[9]))
    } else if wire::nr_of(v[17]) is None {
        Err(text::value_message(slot, "high ISO NR"@, v[17]))
    } else {
        Ok(
            RecipeView {
                name,
                film_simulation: wire::film_of(v[2]).unwrap(),
                dynamic_range: wire::dr_of(v[0]).unwrap(),
                grain_effect: wire::grain_of(v[5]).unwrap(),
                smooth_skin: wire::strength_of(v[8]).unwrap(),
                color_chrome: wire::strength_of(v[6]).unwrap(),
                color_chrome_fx_blue: wire::strength_of(v[7]).unwrap(),
                white_balance: WhiteBalance {
                    mode: wire::wb_of(v[9]).unwrap(),
                    shift_r: v[10] as i16,
                    shift_b: v[11] as i16,
                    color_temperature: Some(v[12]),
                },
                highlight: v[13] as i16,
                shadow: v[14] as i16,
                color: v[15] as i16,
                sharpness: v[16] as i16,
                noise_reduction: wire::nr_of(v[17]).unwrap(),
                clarity: v[18] as i16,
                exposure: 0,
                dynamic_range_priority: v[1] as i32,
                monochrome_wc: v[3] as i16,
                monochrome_mg: v[4] as i16,
            },
        )
    }
}

/// `res` is what `expected` describes: the recipe, or `InvalidDataAt` with the message.
pub open spec fn read_as(res: Result<Recipe, FujiPtpError>, expected: Result<RecipeView, Seq<char>>) -> bool {
    match expected {
        Ok(r) => res matches Ok(x) && x@ == r,
        Err(m) => res matches Err(FujiPtpError::InvalidDataAt(s)) && s@ == m,
    }
}

pub open spec fn is_get(op: PtpOp, property: u16) -> bool {
    op matches PtpOp::GetProperty { property: p, .. } && p == property
}

pub open spec fn op_value(op: PtpOp) -> Seq<u8> {
    match op {
        PtpOp::GetProperty { value, .. } => value,
        PtpOp::SetProperty { value, .. } => value,
        _ => seq![],
    }
}

/// The first `k` property reads of a slot read (after the cursor move and the name) each
/// read the expected property and obtained a word.
pub open spec fn words_read(ops: Seq<PtpOp>, k: int) -> bool {
    forall|j: int|
        0 <= j < k ==> is_get(#[trigger] ops[2 + j], property_block()[j]) && wire::word_of(
            op_value(ops[2 + j]),
        ) is Some
}

pub open spec fn words(ops: Seq<PtpOp>) -> Seq<u16> {
    Seq::new(19, |j: int| wire::word_of(op_value(ops[2 + j])).unwrap())
}

/// What a completed read of `slot` gives when `ops` is the history it left: the cursor
/// move, the name, then one read per property of the block until a value is not a word.
/// `None` when `ops` is not such a history.
pub open spec fn slot_read(slot: u8, ops: Seq<PtpOp>) -> Option<Result<RecipeView, Seq<char>>> {
    if ops.len() < 2 || ops[0] != (PtpOp::SetProperty {
        property: PROP_SLOT_CURSOR,
        value: seq![slot, 0u8],
    }) || !is_get(ops[1], PROP_SLOT_NAME) {
        None
    } else {
        match name::name_of(op_value(ops[1])) {
            None => if ops.len() == 2 {
                Some(Err(text::name_message(slot)))
            } else {
                None
            },
            Some(n) => {
                let k = ops.len() - 3;
                if ops.len() == 21 && words_read(ops, 19) {
                    Some(recipe_of(n, words(ops), slot))
                } else if 0 <= k < 19 && words_read(ops, k) && is_get(
                    ops[2 + k],
                    property_block()[k],
                ) && wire::word_of(op_value(ops[2 + k])) is None {
                    Some(Err(text::property_message(slot, property_block()[k])))
                } else {
                    None
                }
            },
        }
    }
}

/// Entry `j` of the read of `slot` is what that read plans there: the cursor move, then
/// the name, then the properties of the block in order.
pub open spec fn read_step(slot: u8, j: int, op: PtpOp) -> bool {
    if j == 0 {
        op == (PtpOp::SetProperty { property: PROP_SLOT_CURSOR, value: seq![slot, 0u8] })
    } else if j == 1 {
        is_get(op, PROP_SLOT_NAME)
    } else {
        is_get(op, property_block()[j - 2])
    }
}

/// A slot read that decoded is the planned read of the slot.
proof fn lemma_slot_read_steps(slot: u8, ops: Seq<PtpOp>)
    requires
        slot_read(slot, ops) matches Some(Ok(_)),
    ensures
        ops.len() == 21,
        forall|j: int| 0 <= j < 21 ==> read_step(slot, j, #[trigger] ops[j]),
{
    assert forall|j: int| 0 <= j < 21 implies read_step(slot, j, #[trigger] ops[j]) by {
        if j >= 2 {
            assert(is_get(ops[2 + (j - 2)], property_block()[j - 2]));
        }
    }
}

/// The packets that read `slot` as the transactions after `tx`: the SetDevicePropValue
/// command and data container that move the cursor, then a GetDevicePropValue command for
/// the name and for each property of the block, in order.
pub open spec fn slot_read_packets(slot: u8, tx: int) -> Seq<Seq<u8>> {
    Seq::new(
        22,
        |i: int|
            if i == 0 {
                session::command_packet(session::SET_DEVICE_PROP_VALUE, (tx + 1) as u32, PROP_SLOT_CURSOR as u32)
            } else if i == 1 {
                session::data_packet(session::SET_DEVICE_PROP_VALUE, (tx + 1) as u32, seq![slot, 0u8])
            } else if i == 2 {
                session::command_packet(session::GET_DEVICE_PROP_VALUE, (tx + 2) as u32, PROP_SLOT_NAME as u32)
            } else {
                session::command_packet(
                    session::GET_DEVICE_PROP_VALUE,
                    (tx + i) as u32,
                    property_block()[i - 3] as u32,
                )
            },
    )
}

/// The packets that read slots 1 to `n` in order, as the transactions after `tx`.
pub open spec fn reads_packets(n: nat, tx: int) -> Seq<Seq<u8>>
    decreases n,
{
    if n == 0 {
        seq![]
    } else {
        reads_packets((n - 1) as nat, tx) + slot_read_packets(n as u8, tx + 21 * (n - 1))
    }
}

proof fn lemma_reads_packets_prefix(k: nat, n: nat, tx: int)
    requires
        k <= n,
    ensures
        reads_packets(n, tx).len() == 22 * n,
        reads_packets(n, tx).take((22 * k) as int) == reads_packets(k, tx),
    decreases n,
{
    if n == 0 {
        assert(reads_packets(n, tx).take(0) =~= reads_packets(0, tx));
    } else if k == n {
        lemma_reads_packets_prefix((n - 1) as nat, (n - 1) as nat, tx);
        assert(reads_packets(n, tx).take((22 * k) as int) =~= reads_packets(n, tx));
    } else {
        lemma_reads_packets_prefix(k, (n - 1) as nat, tx);
        assert(reads_packets(n, tx).take((22 * k) as int) =~= reads_packets((n - 1) as nat, tx).take((22 * k) as int));
    }
}

/// Every entry of `ops` is what a whole read of the slots plans at its place.
pub open spec fn read_steps(ops: Seq<PtpOp>) -> bool {
    forall|s: int, j: int|
        0 <= s < 7 && 0 <= j < 21 && 21 * s + j < ops.len() ==> read_step(
            (s + 1) as u8,
            j,
            #[trigger] slot_rest(ops, s)[j],
        )
}

/// The read of `slot` follows reads that went as planned, and goes as planned itself.
proof fn lemma_read_steps_grow(before: Seq<PtpOp>, mine: Seq<PtpOp>, slot: u8)
    requires
        1 <= slot <= 7,
        before.len() == 21 * (slot - 1),
        mine.len() <= 21,
        read_steps(before),
        forall|j: int| 0 <= j < mine.len() ==> read_step(slot, j, #[trigger] mine[j]),
    ensures
        read_steps(before + mine),
{
    let after = before + mine;
    assert forall|s: int, j: int|
        0 <= s < 7 && 0 <= j < 21 && 21 * s + j < after.len() implies read_step(
            (s + 1) as u8,
            j,
            #[trigger] slot_rest(after, s)[j],
        ) by {
        assert(slot_rest(after, s)[j] == after[21 * s + j]);
        if s < slot - 1 {
            assert(slot_rest(before, s)[j] == before[21 * s + j]);
        } else {
            assert(s == slot - 1);
            assert(after[21 * s + j] == mine[j]);
        }
    }
}

/// The history entries of the read of slot `s + 1` within a whole read.
pub open spec fn slot_chunk(ops: Seq<PtpOp>, s: int) -> Seq<PtpOp> {
    ops.subrange(21 * s, 21 * s + 21)
}

/// The history entries from the read of slot `s + 1` on.
pub open spec fn slot_rest(ops: Seq<PtpOp>, s: int) -> Seq<PtpOp> {
    ops.skip(21 * s)
}

/// The result of reading the seven slots from `f0` to `f1`: the history grows by the reads
/// of the slots in order, each as `slot_read` describes it, and the link takes the packets of
/// those reads, in order, up to where the reading ended. The profile holds what they read;
/// a value without meaning ends the reading, after slots that all decoded, with the message
/// of `slot_read`.
pub open spec fn profile_read<T: Transport>(
    f0: FujiPtp<T>,
    f1: FujiPtp<T>,
    res: Result<Profile, FujiPtpError>,
) -> bool {
    let new = f1.log().skip(f0.log().len() as int);
    &&& f0.log().len() <= f1.log().len()
    &&& f1.log().take(f0.log().len() as int) == f0.log()
    &&& f1.tx() <= f0.tx() + 147
    &&& new.len() <= 147
    &&& read_steps(new)
    &&& f0.sent().len() <= f1.sent().len() <= f0.sent().len() + 154
    &&& f1.sent() == (f0.sent() + reads_packets(7, f0.tx() as int)).take(f1.sent().len() as int)
    &&& link_reported(f0, f1, res matches Err(FujiPtpError::TransportError))
    &&& match res {
        Ok(p) => {
            &&& new.len() == 147
            &&& f1.tx() == f0.tx() + 147
            &&& f1.sent() == f0.sent() + reads_packets(7, f0.tx() as int)
            &&& p@.name == "Fujifilm Custom Recipes"@
            &&& forall|s: int|
                0 <= s < 7 ==> slot_read((s + 1) as u8, #[trigger] slot_chunk(new, s)) == Some(
                    Ok::<RecipeView, Seq<char>>(p@.recipes[s]),
                )
        },
        Err(FujiPtpError::InvalidDataAt(m)) => exists|s: int|
            {
                &&& 0 <= s < 7
                &&& new.len() >= 21 * s
                &&& (forall|j: int|
                    0 <= j < s ==> (#[trigger] slot_read((j + 1) as u8, slot_chunk(new, j)) matches Some(
                        Ok(_),
                    )))
                &&& slot_read((s + 1) as u8, #[trigger] slot_rest(new, s)) == Some(
                    Err::<RecipeView, Seq<char>>(m@),
                )
            },
        Err(FujiPtpError::Protocol(e)) => read_refused(f1.session_state(), e),
        Err(e) => is_exchange_error(e),
    }
}

/// From `f0` to `f1` the link reported one more failure when `failed`, and none otherwise.
pub open spec fn link_reported<T: Transport>(f0: FujiPtp<T>, f1: FujiPtp<T>, failed: bool) -> bool {
    if failed {
        exists|e: TransportError| f1.failures() == #[trigger] f0.failures().push(e)
    } else {
        f1.failures() == f0.failures()
    }
}

/// The last packet that `s` received is a response to its last transaction that refuses it
/// with `e`.
pub open spec fn answer_refused<T: Transport>(s: PtpSession<T>, e: PtpProtocolError) -> bool {
    &&& s.received().len() > 0
    &&& session::response_result(s.received().last(), s.tx()) == Err::<(), PtpProtocolError>(e)
}

/// The camera answered the last write of `s` with a response, not empty, that refuses it
/// with `e`.
pub open spec fn write_refused<T: Transport>(s: PtpSession<T>, e: PtpProtocolError) -> bool {
    &&& answer_refused(s, e)
    &&& s.received().last().len() > 0
}

/// The last packet that `s` received refuses its last transaction with `e`, as a response
/// or as the data container of a property read.
pub open spec fn read_refused<T: Transport>(s: PtpSession<T>, e: PtpProtocolError) -> bool {
    ||| answer_refused(s, e)
    ||| s.received().len() > 0 && session::container_result(
        s.received().last(),
        session::CONTAINER_DATA,
        session::GET_DEVICE_PROP_VALUE,
        s.tx(),
    ) == Err::<Seq<u8>, PtpProtocolError>(e)
}

/// The Fujifilm layer: custom recipe slots over a PTP session.
pub struct FujiPtp<T: Transport> {
    session: PtpSession<T>,
}

/// The packets that hand `writes` to the camera as the transactions after `tx`: for each
/// write, in order, a SetDevicePropValue command and the data container with its value.
pub open spec fn write_packets(writes: Seq<(u16, Seq<u8>)>, tx: int) -> Seq<Seq<u8>>
    decreases writes.len(),
{
    if writes.len() == 0 {
        seq![]
    } else {
        let t = (tx + writes.len()) as u32;
        let w = writes.last();
        write_packets(writes.drop_last(), tx) + seq![
            session::command_packet(session::SET_DEVICE_PROP_VALUE, t, w.0 as u32),
            session::data_packet(session::SET_DEVICE_PROP_VALUE, t, w.1),
        ]
    }
}

pub proof fn lemma_write_packets_len(writes: Seq<(u16, Seq<u8>)>, tx: int)
    ensures
        write_packets(writes, tx).len() == 2 * writes.len(),
    decreases writes.len(),
{
    if writes.len() > 0 {
        lemma_write_packets_len(writes.drop_last(), tx);
    }
}

/// The packets of two runs of writes, one after the other, are those of the writes joined.
pub proof fn lemma_write_packets_add(a: Seq<(u16, Seq<u8>)>, b: Seq<(u16, Seq<u8>)>, tx: int)
    ensures
        write_packets(a + b, tx) == write_packets(a, tx) + write_packets(b, tx + a.len()),
    decreases b.len(),
{
    if b.len() == 0 {
        assert(a + b =~= a);
        assert(write_packets(a, tx) + write_packets(b, tx + a.len()) =~= write_packets(a, tx));
    } else {
        lemma_write_packets_add(a, b.drop_last(), tx);
        assert((a + b).drop_last() =~= a + b.drop_last());
        assert((a + b).last() == b.last());
        let t = (tx + (a + b).len()) as u32;
        let last = seq![
            session::command_packet(session::SET_DEVICE_PROP_VALUE, t, b.last().0 as u32),
            session::data_packet(session::SET_DEVICE_PROP_VALUE, t, b.last().1),
        ];
        assert(write_packets(a + b, tx) == write_packets(a + b.drop_last(), tx) + last);
        assert(write_packets(b, tx + a.len()) == write_packets(b.drop_last(), tx + a.len()) + last);
        assert(write_packets(a, tx) + write_packets(b, tx + a.len()) =~= write_packets(a, tx) + (
        write_packets(b.drop_last(), tx + a.len()) + last));
    }
}

/// The packets of one write.
pub proof fn lemma_put_packets(p: u16, v: Seq<u8>, tx: int)
    ensures
        write_packets(plan::put(p, v).writes, tx) == seq![
            session::command_packet(session::SET_DEVICE_PROP_VALUE, (tx + 1) as u32, p as u32),
            session::data_packet(session::SET_DEVICE_PROP_VALUE, (tx + 1) as u32, v),
        ],
{
    let w = plan::put(p, v).writes;
    assert(w.drop_last() =~= Seq::<(u16, Seq<u8>)>::empty());
    assert(write_packets(w.drop_last(), tx) == Seq::<Seq<u8>>::empty());
    assert(write_packets(w, tx) =~= seq![
        session::command_packet(session::SET_DEVICE_PROP_VALUE, (tx + 1) as u32, p as u32),
        session::data_packet(session::SET_DEVICE_PROP_VALUE, (tx + 1) as u32, v),
    ]);
}

/// The packets that storing `v` in property `p` handed to the link: all of the command and
/// the data container when the camera answered, a prefix of them when the link failed.
pub proof fn lemma_stored_packets<T: Transport>(
    s0: PtpSession<T>,
    s1: PtpSession<T>,
    p: u16,
    v: Seq<u8>,
    out: Outcome<()>,
)
    requires
        session::stored(s0, s1, p, v, out),
    ensures
        s0.sent().len() <= s1.sent().len() <= s0.sent().len() + 2,
        s1.sent() == (s0.sent() + write_packets(plan::put(p, v).writes, s0.tx() as int)).take(
            s1.sent().len() as int,
        ),
        !(out is Lost) ==> s1.sent().len() == s0.sent().len() + 2,
{
    lemma_put_packets(p, v, s0.tx() as int);
    let all = s0.sent() + write_packets(plan::put(p, v).writes, s0.tx() as int);
    assert(all.take(s0.sent().len() as int) =~= s0.sent());
    let n = s0.sent().len() as int;
    assert(all.take(n + 1) =~= s0.sent().push(all[n]));
    assert(all.take(n + 2) =~= all);
    assert(all =~= s0.sent().push(all[n]).push(all[n + 1]));
}

/// The result of carrying out `plan` from `f0` to `f1`: what the history records, which
/// packets the link took, and the result for each way the writing can end. The packets are
/// those of the planned writes, in order, up to where the writing ended. A write that the
/// link or the camera failed ends it early; the history then holds the writes up to it. A
/// write that the camera refused is the last one recorded and was handed over whole; the
/// camera's last answer is the refusal, and for a response code the error names the
/// property and the code.
pub open spec fn carried_out<T: Transport>(
    f0: FujiPtp<T>,
    f1: FujiPtp<T>,
    p: plan::PlanView,
    res: Result<(), FujiPtpError>,
) -> bool {
    let all = f0.log() + plan::set_ops(p.writes);
    let packets = f0.sent() + write_packets(p.writes, f0.tx() as int);
    let done = f1.log().len() - f0.log().len();
    &&& f0.log().len() <= f1.log().len() <= all.len()
    &&& f1.log() == all.take(f1.log().len() as int)
    &&& f0.tx() <= f1.tx() <= f0.tx() + p.writes.len()
    &&& f0.sent().len() <= f1.sent().len() <= packets.len()
    &&& f1.sent() == packets.take(f1.sent().len() as int)
    &&& link_reported(f0, f1, res matches Err(FujiPtpError::TransportError))
    &&& match res {
        Ok(()) => !p.rejected && f1.log() == all && f1.tx() == f0.tx() + p.writes.len()
            && f1.sent() == packets,
        Err(FujiPtpError::InvalidData) => p.rejected && f1.log() == all && f1.tx() == f0.tx()
            + p.writes.len() && f1.sent() == packets,
        Err(FujiPtpError::TransportError) => true,
        Err(FujiPtpError::Protocol(e)) => write_refused(f1.session_state(), e) && f1.sent().len()
            == f0.sent().len() + 2 * done,
        Err(FujiPtpError::InvalidDataAt(m)) => refused_write(
            f1.session_state(),
            p,
            done as int,
            m@,
        ) && f1.sent().len() == f0.sent().len() + 2 * done,
        Err(_) => false,
    }
}

/// The camera refused write `k` (counted from 1) of `p`, the last one recorded: the last
/// answer that `s` received refuses it with a response code, and `m` names the property
/// and that code.
pub open spec fn refused_write<T: Transport>(s: PtpSession<T>, p: plan::PlanView, k: int, m: Seq<char>) -> bool {
    &&& 0 < k <= p.writes.len()
    &&& exists|code: u16|
        answer_refused(s, PtpProtocolError::Response(code)) && m == #[trigger] text::write_message(
            p.writes[k - 1].0,
            code,
        )
}

/// Writing `r` to `slot`: cursor, name, then the settings.
pub open spec fn recipe_plan(slot: u8, r: RecipeView) -> plan::PlanView {
    plan::followed_by(
        plan::select_plan(slot),
        plan::followed_by(plan::name_plan(r.name), plan::planned_settings(r)),
    )
}

/// Writing the settings of `r` to `slot`, keeping the slot's name.
pub open spec fn settings_only_plan(slot: u8, r: RecipeView) -> plan::PlanView {
    plan::followed_by(plan::select_plan(slot), plan::planned_settings(r))
}

/// Writing `r` to `slot` as part of a whole profile: cursor, settings, then name.
pub open spec fn slot_plan(slot: u8, r: RecipeView) -> plan::PlanView {
    plan::followed_by(
        plan::select_plan(slot),
        plan::followed_by(plan::planned_settings(r), plan::name_plan(r.name)),
    )
}

/// Writing the first `n` recipes to slots 1..=n: for each, cursor, settings, then name.
pub open spec fn profile_plan(recipes: Seq<RecipeView>, n: nat) -> plan::PlanView
    decreases n,
{
    if n == 0 {
        plan::require(true)
    } else {
        plan::followed_by(profile_plan(recipes, (n - 1) as nat), slot_plan(n as u8, recipes[n - 1]))
    }
}

/// Writing `name` as the name of `slot`: cursor, then name.
pub open spec fn name_slot_plan(slot: u8, name: Seq<char>) -> plan::PlanView {
    plan::followed_by(plan::select_plan(slot), plan::name_plan(name))
}

/// Writing the names of the first `n` recipes to slots 1..=n.
pub open spec fn names_plan(recipes: Seq<RecipeView>, n: nat) -> plan::PlanView
    decreases n,
{
    if n == 0 {
        plan::require(true)
    } else {
        plan::followed_by(names_plan(recipes, (n - 1) as nat), name_slot_plan(n as u8, recipes[n - 1].name))
    }
}

/// When `a` ends as `res` with an error, so does `a` followed by anything.
pub proof fn lemma_carried_prefix<T: Transport>(
    f0: FujiPtp<T>,
    f1: FujiPtp<T>,
    a: plan::PlanView,
    b: plan::PlanView,
    res: Result<(), FujiPtpError>,
)
    requires
        carried_out(f0, f1, a, res),
        res is Err,
    ensures
        carried_out(f0, f1, plan::followed_by(a, b), res),
{
    if !a.rejected {
        plan::lemma_set_ops_add(a.writes, b.writes);
        let all_a = f0.log() + plan::set_ops(a.writes);
        let all = f0.log() + plan::set_ops(a.writes + b.writes);
        assert(all =~= all_a + plan::set_ops(b.writes));
        assert(all.take(f1.log().len() as int) =~= all_a.take(f1.log().len() as int));
        lemma_write_packets_add(a.writes, b.writes, f0.tx() as int);
        lemma_write_packets_len(a.writes, f0.tx() as int);
        lemma_write_packets_len(b.writes, f0.tx() + a.writes.len());
        let pa = f0.sent() + write_packets(a.writes, f0.tx() as int);
        let pab = f0.sent() + write_packets(a.writes + b.writes, f0.tx() as int);
        assert(pab =~= pa + write_packets(b.writes, f0.tx() + a.writes.len()));
        assert(pab.take(f1.sent().len() as int) =~= pa.take(f1.sent().len() as int));
        if let Err(FujiPtpError::InvalidDataAt(m)) = res {
            let k = (f1.log().len() - f0.log().len()) as int;
            let w = a.writes + b.writes;
            assert(w[k - 1] == a.writes[k - 1]);
            let code = choose|code: u16|
                answer_refused(f1.session_state(), PtpProtocolError::Response(code)) && m@
                    == #[trigger] text::write_message(a.writes[k - 1].0, code);
            assert(m@ == text::write_message(w[k - 1].0, code));
        }
    }
}

/// A plan that completed, then `b` carried out from there, is `a` followed by `b` carried
/// out.
pub proof fn lemma_carried_then<T: Transport>(
    f0: FujiPtp<T>,
    fm: FujiPtp<T>,
    f1: FujiPtp<T>,
    a: plan::PlanView,
    b: plan::PlanView,
    res: Result<(), FujiPtpError>,
)
    requires
        !a.rejected,
        fm.log() == f0.log() + plan::set_ops(a.writes),
        fm.tx() == f0.tx() + a.writes.len(),
        fm.failures() == f0.failures(),
        fm.sent() == f0.sent() + write_packets(a.writes, f0.tx() as int),
        carried_out(fm, f1, b, res),
    ensures
        carried_out(f0, f1, plan::followed_by(a, b), res),
{
    plan::lemma_set_ops_add(a.writes, b.writes);
    let all_m = fm.log() + plan::set_ops(b.writes);
    let all = f0.log() + plan::set_ops(a.writes + b.writes);
    assert(all =~= all_m);
    lemma_write_packets_add(a.writes, b.writes, f0.tx() as int);
    lemma_write_packets_len(a.writes, f0.tx() as int);
    assert(f0.sent() + write_packets(a.writes + b.writes, f0.tx() as int) =~= fm.sent()
        + write_packets(b.writes, fm.tx() as int));
    if let Err(FujiPtpError::InvalidDataAt(m)) = res {
        let j = (f1.log().len() - fm.log().len()) as int;
        let k = (f1.log().len() - f0.log().len()) as int;
        let w = a.writes + b.writes;
        assert(k == a.writes.len() + j);
        assert(w[k - 1] == b.writes[j - 1]);
        let code = choose|code: u16|
            answer_refused(f1.session_state(), PtpProtocolError::Response(code)) && m@
                == #[trigger] text::write_message(b.writes[j - 1].0, code);
        assert(m@ == text::write_message(w[k - 1].0, code));
    }
}

/// The plan for the first `k` recipes is carried out whenever it ends in error, so is the
/// plan for the first `n`.
proof fn lemma_profile_prefix<T: Transport>(
    f0: FujiPtp<T>,
    f1: FujiPtp<T>,
    recipes: Seq<RecipeView>,
    k: nat,
    n: nat,
    res: Result<(), FujiPtpError>,
)
    requires
        k <= n,
        carried_out(f0, f1, profile_plan(recipes, k), res),
        res is Err,
    ensures
        carried_out(f0, f1, profile_plan(recipes, n), res),
    decreases n - k,
{
    if k < n {
        lemma_carried_prefix(
            f0,
            f1,
            profile_plan(recipes, k),
            slot_plan((k + 1) as u8, recipes[k as int]),
            res,
        );
        lemma_profile_prefix(f0, f1, recipes, k + 1, n, res);
    }
}

proof fn lemma_profile_len(recipes: Seq<RecipeView>, k: nat, n: nat)
    requires
        k <= n,
    ensures
        profile_plan(recipes, k).writes.len() <= profile_plan(recipes, n).writes.len(),
        profile_plan(recipes, k).rejected ==> profile_plan(recipes, n) == profile_plan(recipes, k),
    decreases n - k,
{
    if k < n {
        lemma_profile_len(recipes, k, (n - 1) as nat);
    }
}

proof fn lemma_names_prefix<T: Transport>(
    f0: FujiPtp<T>,
    f1: FujiPtp<T>,
    recipes: Seq<RecipeView>,
    k: nat,
    n: nat,
    res: Result<(), FujiPtpError>,
)
    requires
        k <= n,
        carried_out(f0, f1, names_plan(recipes, k), res),
        res is Err,
    ensures
        carried_out(f0, f1, names_plan(recipes, n), res),
    decreases n - k,
{
    if k < n {
        lemma_carried_prefix(
            f0,
            f1,
            names_plan(recipes, k),
            name_slot_plan((k + 1) as u8, recipes[k as int].name),
            res,
        );
        lemma_names_prefix(f0, f1, recipes, k + 1, n, res);
    }
}

proof fn lemma_names_len(recipes: Seq<RecipeView>, k: nat, n: nat)
    requires
        k <= n,
    ensures
        names_plan(recipes, k).writes.len() <= names_plan(recipes, n).writes.len(),
        names_plan(recipes, k).rejected ==> names_plan(recipes, n) == names_plan(recipes, k),
    decreases n - k,
{
    if k < n {
        lemma_names_len(recipes, k, (n - 1) as nat);
    }
}

impl<T: Transport> FujiPtp<T> {
    pub closed spec fn session_state(&self) -> PtpSession<T> {
        self.session
    }

    /// Every transaction completed so far.
    pub open spec fn log(&self) -> Seq<PtpOp> {
        self.session_state().log()
    }

    /// The number of the last transaction.
    pub open spec fn tx(&self) -> u32 {
        self.session_state().tx()
    }

    /// Every packet that the link accepted.
    pub open spec fn sent(&self) -> Seq<Seq<u8>> {
        self.session_state().sent()
    }

    /// Every failure that the link reported.
    pub open spec fn failures(&self) -> Seq<TransportError> {
        self.session_state().failures()
    }

    /// The transport.
    pub open spec fn io(&self) -> T {
        self.session_state().io()
    }

    pub fn new(transport: T) -> (f: Self)
        ensures
            f.io() == transport,
            f.tx() == 0,
            f.log() == Seq::<PtpOp>::empty(),
            f.sent() == Seq::<Seq<u8>>::empty(),
            f.failures() == Seq::<TransportError>::empty(),
    {
        Self { session: PtpSession::new(transport) }
    }

    pub fn transport(&self) -> (t: &T)
        ensures
            *t == self.io(),
    {
        self.session.transport()
    }

    /// The number of the last transaction.
    pub fn transaction_id(&self) -> (tx: u32)
        ensures
            tx == self.tx(),
    {
        self.session.transaction_id()
    }

    pub fn open_session(&mut self, session_id: u32) -> (res: Result<(), FujiPtpError>)
        requires
            old(self).tx() < u32::MAX,
        ensures
            session::commanded(
                old(self).session_state(),
                final(self).session_state(),
                session::command_packet(session::OPEN_SESSION, final(self).tx(), session_id),
                PtpOp::OpenSession { session_id },
                fuji_outcome(res),
            ),
            res is Ok || is_exchange_error(res->Err_0),
            link_reported(*old(self), *final(self), res matches Err(FujiPtpError::TransportError)),
            res matches Err(FujiPtpError::Protocol(e)) ==> answer_refused(final(self).session_state(), e),
    {
        let r = self.session.open_session(session_id);
        proof {
            Self::lemma_link(*old(self), *self, r);
        }
        match r {
            Ok(()) => Ok(()),
            Err(e) => Err(Self::session_error(e)),
        }
    }

    pub fn close_session(&mut self) -> (res: Result<(), FujiPtpError>)
        requires
            old(self).tx() < u32::MAX,
        ensures
            session::commanded(
                old(self).session_state(),
                final(self).session_state(),
                session::command_packet_no_params(session::CLOSE_SESSION, final(self).tx()),
                PtpOp::CloseSession,
                fuji_outcome(res),
            ),
            res is Ok || is_exchange_error(res->Err_0),
            link_reported(*old(self), *final(self), res matches Err(FujiPtpError::TransportError)),
            res matches Err(FujiPtpError::Protocol(e)) ==> answer_refused(final(self).session_state(), e),
    {
        let r = self.session.close_session();
        proof {
            Self::lemma_link(*old(self), *self, r);
        }
        match r {
            Ok(()) => Ok(()),
            Err(e) => Err(Self::session_error(e)),
        }
    }

    /// A link failure that the session recorded is one more failure of the link.
    proof fn lemma_link<V>(f0: Self, f1: Self, r: Result<V, PtpSessionError>)
        requires
            session::failures_after(f0.failures(), f1.failures(), session::link_failure(r)),
        ensures
            link_reported(f0, f1, session::link_failure(r) is Some),
    {
        if let Some(e) = session::link_failure(r) {
            assert(f1.failures() == f0.failures().push(e));
        }
    }

    /// The error that a failed session transaction is reported as.
    pub fn session_error(e: PtpSessionError) -> (r: FujiPtpError)
        ensures
            e matches PtpSessionError::Transport(_) ==> r matches FujiPtpError::TransportError,
            e matches PtpSessionError::Protocol(p) ==> (r matches FujiPtpError::Protocol(q) && p
                == q),
    {
        match e {
            PtpSessionError::Transport(_) => FujiPtpError::TransportError,
            PtpSessionError::Protocol(e) => FujiPtpError::Protocol(e),
        }
    }

    /// The error that a failed property write is reported as: a refusal by the camera names
    /// the property and the response code.
    pub fn set_error(property: u16, e: PtpSessionError) -> (r: FujiPtpError)
        ensures
            match e {
                PtpSessionError::Transport(_) => r matches FujiPtpError::TransportError,
                PtpSessionError::Protocol(PtpProtocolError::Response(code)) => r matches FujiPtpError::InvalidDataAt(m)
                    && m@ == text::write_message(property, code),
                PtpSessionError::Protocol(p) => r matches FujiPtpError::Protocol(q) && p == q,
            },
    {
        match e {
            PtpSessionError::Transport(_) => FujiPtpError::TransportError,
            PtpSessionError::Protocol(PtpProtocolError::Response(code)) => FujiPtpError::InvalidDataAt(
                text::write_text(property, code),
            ),
            PtpSessionError::Protocol(other) => FujiPtpError::Protocol(other),
        }
    }

    /// Moves the camera's slot cursor to custom slot `slot` (1..=7).
    pub fn select_slot(&mut self, slot: u8) -> (res: Result<(), FujiPtpError>)
        requires
            1 <= slot <= 7 ==> old(self).tx() < u32::MAX,
        ensures
            !(1 <= slot <= 7) ==> (res matches Err(FujiPtpError::InvalidSlot) && *final(self)
                == *old(self)),
            1 <= slot <= 7 ==> session::stored(
                old(self).session_state(),
                final(self).session_state(),
                PROP_SLOT_CURSOR,
                seq![slot, 0u8],
                fuji_outcome(res),
            ) && (res is Ok || is_exchange_error(res->Err_0)),
            1 <= slot <= 7 ==> carried_out(*old(self), *final(self), plan::select_plan(slot), res),
    {
        if !(1 <= slot && slot <= 7) {
            return Err(FujiPtpError::InvalidSlot);
        }
        let value = [slot, 0u8];
        proof {
            assert(value@ =~= seq![slot, 0u8]);
        }
        let r = self.session.set_device_prop_value_wait(PROP_SLOT_CURSOR, &value);
        proof {
            Self::lemma_link(*old(self), *self, r);
            lemma_stored_packets(
                old(self).session_state(),
                self.session_state(),
                PROP_SLOT_CURSOR,
                value@,
                session::unit_outcome(r),
            );
        }
        let res = match r {
            Ok(()) => Ok(()),
            Err(e) => Err(Self::session_error(e)),
        };
        proof {
            Self::lemma_single_write(*old(self), *self, PROP_SLOT_CURSOR, value@, res);
        }
        res
    }

    fn get(&mut self, property: u16) -> (res: Result<Vec<u8>, FujiPtpError>)
        requires
            old(self).tx() < u32::MAX,
        ensures
            session::fetched(
                old(self).session_state(),
                final(self).session_state(),
                property,
                fuji_bytes_outcome(res),
            ),
            res is Ok || is_exchange_error(res->Err_0),
            link_reported(*old(self), *final(self), res matches Err(FujiPtpError::TransportError)),
            res matches Err(FujiPtpError::Protocol(e)) ==> read_refused(final(self).session_state(), e),
    {
        let r = self.session.get_device_prop_value(property);
        proof {
            Self::lemma_link(*old(self), *self, r);
        }
        match r {
            Ok(v) => Ok(v),
            Err(e) => Err(Self::session_error(e)),
        }
    }

    fn set(&mut self, p: u16, v: &[u8]) -> (res: Result<(), FujiPtpError>)
        requires
            old(self).tx() < u32::MAX,
            v@.len() <= 1024,
        ensures
            final(self).tx() == old(self).tx() + 1,
            res is Ok ==> final(self).log() == old(self).log().push(
                PtpOp::SetProperty { property: p, value: v@ },
            ),
            res is Err ==> final(self).log() == old(self).log() || final(self).log() == old(
                self,
            ).log().push(PtpOp::SetProperty { property: p, value: v@ }),
            res matches Err(e) ==> is_exchange_error(e) || e is InvalidDataAt,
            res matches Err(FujiPtpError::InvalidDataAt(m)) ==> final(self).log() == old(self).log().push(
                PtpOp::SetProperty { property: p, value: v@ },
            ) && exists|code: u16|
                answer_refused(final(self).session_state(), PtpProtocolError::Response(code)) && m@
                    == #[trigger] text::write_message(p, code),
            link_reported(*old(self), *final(self), res matches Err(FujiPtpError::TransportError)),
            res matches Err(FujiPtpError::Protocol(e)) ==> write_refused(final(self).session_state(), e)
                && final(self).log() == old(self).log().push(PtpOp::SetProperty { property: p, value: v@ }),
            old(self).sent().len() <= final(self).sent().len() <= old(self).sent().len() + 2,
            final(self).sent() == (old(self).sent() + write_packets(
                plan::put(p, v@).writes,
                old(self).tx() as int,
            )).take(final(self).sent().len() as int),
            (res is Ok || res matches Err(FujiPtpError::InvalidDataAt(_)) || res matches Err(
                FujiPtpError::Protocol(_),
            )) ==> final(self).sent().len() == old(self).sent().len() + 2,
            carried_out(*old(self), *final(self), plan::put(p, v@), res),
    {
        let r = self.session.set_device_prop_value_wait(p, v);
        proof {
            Self::lemma_link(*old(self), *self, r);
            lemma_stored_packets(
                old(self).session_state(),
                self.session_state(),
                p,
                v@,
                session::unit_outcome(r),
            );
        }
        proof {
            if let Err(PtpSessionError::Protocol(PtpProtocolError::Response(code))) = r {
                assert(answer_refused(self.session_state(), PtpProtocolError::Response(code)));
            }
        }
        let res = match r {
            Ok(()) => Ok(()),
            Err(e) => Err(Self::set_error(p, e)),
        };
        proof {
            Self::lemma_single_write(*old(self), *self, p, v@, res);
        }
        res
    }

    /// The word that a property value holds.
    pub fn word(data: &[u8]) -> (res: Result<u16, FujiPtpError>)
        ensures
            match wire::word_of(data@) {
                Some(w) => res matches Ok(x) && x == w,
                None => res matches Err(FujiPtpError::InvalidData),
            },
    {
        if data.len() != 2 {
            Err(FujiPtpError::InvalidData)
        } else {
            Ok(bytes::read_u16_le(data, 0))
        }
    }

    /// The name that a PTP string holds.
    pub fn ptp_name(data: &[u8]) -> (res: Result<String, FujiPtpError>)
        ensures
            match name::name_of(data@) {
                Some(n) => res matches Ok(s) && s@ == n,
                None => res matches Err(FujiPtpError::InvalidData),
            },
    {
        if data.len() == 0 {
            return Err(FujiPtpError::InvalidData);
        }
        let n = data[0] as usize;
        // The camera encodes an empty PTP string as the single byte [0]: a valid, empty
        // recipe name.
        if n == 0 {
            return if data.len() == 1 {
                let empty = String::new();
                assert(empty@ =~= Seq::<char>::empty());
                Ok(empty)
            } else {
                Err(FujiPtpError::InvalidData)
            };
        }
        if data.len() != 1 + n * 2 || bytes::read_u16_le(data, data.len() - 2) != 0 {
            return Err(FujiPtpError::InvalidData);
        }
        let ghost units = name::ptp_units(data@, n as int);
        let mut s = String::new();
        let mut i: usize = 0;
        while i < n - 1
            invariant
                n == data@[0] as int,
                1 <= n,
                data@.len() == 1 + 2 * n,
                units == name::ptp_units(data@, n as int),
                0 <= i <= n - 1,
                s@ == units.take(i as int).map_values(|u: u16| u as char),
                forall|j: int| 0 <= j < i ==> !name::is_surrogate(#[trigger] units[j]),
            decreases n - 1 - i,
        {
            let c = bytes::read_u16_le(data, 1 + i * 2);
            assert(c == units[i as int]);
            match char_from_u16(c) {
                Some(ch) => {
                    text::push_char(&mut s, ch);
                    assert(units.take(i + 1).map_values(|u: u16| u as char) =~= units.take(
                        i as int,
                    ).map_values(|u: u16| u as char).push(ch));
                },
                None => {
                    assert(name::is_surrogate(units[i as int]));
                    return Err(FujiPtpError::InvalidData);
                },
            }
            i = i + 1;
        }
        assert(units.take(i as int) =~= units);
        Ok(s)
    }

    pub fn film(v: u16) -> (r: Option<FilmSimulation>)
        ensures
            r == wire::film_of(v),
    {
        match v {
            1 => Some(FilmSimulation::Provia),
            2 => Some(FilmSimulation::Velvia),
            3 => Some(FilmSimulation::Astia),
            4 => Some(FilmSimulation::ProNegHigh),
            5 => Some(FilmSimulation::ProNegStandard),
            6 => Some(FilmSimulation::Monochrome),
            7 => Some(FilmSimulation::MonochromeYellow),
            8 => Some(FilmSimulation::MonochromeRed),
            9 => Some(FilmSimulation::MonochromeGreen),
            10 => Some(FilmSimulation::Sepia),
            11 => Some(FilmSimulation::ClassicChrome),
            12 => Some(FilmSimulation::Acros),
            13 => Some(FilmSimulation::AcrosYellow),
            14 => Some(FilmSimulation::AcrosRed),
            15 => Some(FilmSimulation::AcrosGreen),
            16 => Some(FilmSimulation::Eterna),
            17 => Some(FilmSimulation::ClassicNegative),
            18 => Some(FilmSimulation::EternaBleachBypass),
            19 => Some(FilmSimulation::NostalgicNegative),
            20 => Some(FilmSimulation::RealaAce),
            _ => None,
        }
    }

    pub fn strength(v: u16) -> (r: Option<EffectStrength>)
        ensures
            r == wire::strength_of(v),
    {
        match v {
            1 => Some(EffectStrength::Off),
            2 => Some(EffectStrength::Weak),
            3 => Some(EffectStrength::Strong),
            _ => None,
        }
    }

    pub fn grain(v: u16) -> (r: Option<GrainEffect>)
        ensures
            r == wire::grain_of(v),
    {
        match v {
            // X100VI reports 7 for Off (the wire value it stores); the
            // X100V-era firmware used 6. Accept both on read.
            1 | 6 | 7 => Some(GrainEffect::Off),
            2 => Some(GrainEffect::WeakSmall),
            3 => Some(GrainEffect::StrongSmall),
            4 => Some(GrainEffect::WeakLarge),
            5 => Some(GrainEffect::StrongLarge),
            _ => None,
        }
    }

    /// The white balance preset that a code reads as.
    pub fn white_balance_mode(v: u16) -> (r: Option<WhiteBalanceMode>)
        ensures
            r == wire::wb_of(v),
    {
        match v {
            2 | 0x8020 => Some(WhiteBalanceMode::Auto),
            4 => Some(WhiteBalanceMode::Daylight),
            6 => Some(WhiteBalanceMode::Incandescent),
            8 => Some(WhiteBalanceMode::Underwater),
            0x8001 => Some(WhiteBalanceMode::Fluorescent1),
            0x8002 => Some(WhiteBalanceMode::Fluorescent2),
            0x8003 => Some(WhiteBalanceMode::Fluorescent3),
            0x8006 => Some(WhiteBalanceMode::Shade),
            0x8007 => Some(WhiteBalanceMode::ColorTemperature),
            0x8021 => Some(WhiteBalanceMode::AmbiencePriority),
            _ => None,
        }
    }

    /// The High ISO NR level that a code reads as.
    pub fn noise_reduction(v: u16) -> (r: Option<i8>)
        ensures
            r == wire::nr_of(v),
    {
        match v {
            0x8000 => Some(-4),
            28672 => Some(-3),
            16384 => Some(-2),
            12288 => Some(-1),
            8192 => Some(0),
            4096 => Some(1),
            0 => Some(2),
            24576 => Some(3),
            20480 => Some(4),
            _ => None,
        }
    }

    /// The dynamic range that a code reads as.
    pub fn dynamic_range(v: u16) -> (r: Option<DynamicRange>)
        ensures
            r == wire::dr_of(v),
    {
        match v {
            0 | 100 => Some(DynamicRange::Dr100),
            200 => Some(DynamicRange::Dr200),
            400 => Some(DynamicRange::Dr400),
            _ => None,
        }
    }

    pub fn u16v(v: u16) -> (b: Vec<u8>)
        ensures
            b@ == bytes::le16(v),
    {
        let mut b = Vec::new();
        bytes::write_u16_le(&mut b, v);
        b
    }

    pub fn i16v(v: i16) -> (b: Vec<u8>)
        ensures
            b@ == wire::i16_bytes(v),
    {
        Self::u16v(v as u16)
    }

    /// The PTP string that stores a preset name.
    #[verifier::spinoff_prover]
    #[verifier::rlimit(30)]
    pub fn name_bytes(name: &str) -> (res: Result<Vec<u8>, FujiPtpError>)
        ensures
            match name::name_wire(name@) {
                Some(b) => res matches Ok(x) && x@ == b,
                None => res matches Err(FujiPtpError::InvalidData),
            },
    {
        broadcast use vstd::string::group_string_axioms;

        let mut units: Vec<u16> = Vec::new();
        let mut has_nul = false;
        let ghost chars = name@;
        for c in it: name.chars()
            invariant
                it.seq() == chars,
                units@ == name::utf16_units(chars.take(it.index() as int)),
                has_nul == chars.take(it.index() as int).contains('\0'),
        {
            assert(chars.take(it.index() + 1).drop_last() =~= chars.take(it.index() as int));
            proof {
                name::lemma_char_range(c);
            }
            let v = c as u32;
            assert(v as int == c as int);
            if v < 0x10000 {
                units.push(v as u16);
            } else {
                let w = v - 0x10000;
                units.push((0xD800 + w / 1024) as u16);
                units.push((0xDC00 + w % 1024) as u16);
            }
            if c == '\0' {
                has_nul = true;
            }
            proof {
                let t = chars.take(it.index() + 1);
                assert(t.last() == c);
                assert(units@ =~= name::utf16_units(t));
                if c == '\0' {
                    assert(t[t.len() - 1] == '\0');
                }
                if t.contains('\0') && !chars.take(it.index() as int).contains('\0') {
                    let k = choose|k: int| 0 <= k < t.len() && t[k] == '\0';
                    if k < t.len() - 1 {
                        assert(chars.take(it.index() as int)[k] == '\0');
                    }
                }
            }
        }
        assert(chars.take(chars.len() as int) =~= chars);
        if units.len() > 254 || has_nul {
            return Err(FujiPtpError::InvalidData);
        }
        let mut b: Vec<u8> = Vec::new();
        b.push((units.len() + 1) as u8);
        let mut i: usize = 0;
        while i < units.len()
            invariant
                units@.len() <= 254,
                0 <= i <= units@.len(),
                b@ == seq![(units@.len() + 1) as u8] + name::units_le(units@.take(i as int)),
            decreases units@.len() - i,
        {
            bytes::write_u16_le(&mut b, units[i]);
            assert(units@.take(i + 1).drop_last() =~= units@.take(i as int));
            i = i + 1;
        }
        assert(units@.take(i as int) =~= units@);
        b.push(0);
        b.push(0);
        assert(b@ =~= seq![(units@.len() + 1) as u8] + name::units_le(units@) + seq![0u8, 0u8]);
        Ok(b)
    }

    /// A dial value in tenths, checked to be one that the camera can hold.
    pub fn dial(x: i16) -> (res: Result<i16, FujiPtpError>)
        ensures
            wire::dial_ok(x) ==> (res matches Ok(v) && v == x),
            !wire::dial_ok(x) ==> res matches Err(FujiPtpError::InvalidData),
    {
        if x == i16::MIN {
            Err(FujiPtpError::InvalidData)
        } else {
            Ok(x)
        }
    }

    pub fn is_mono(f: &FilmSimulation) -> (b: bool)
        ensures
            b == wire::is_monochrome(*f),
    {
        matches!(
            f,
            FilmSimulation::Monochrome
                | FilmSimulation::MonochromeYellow
                | FilmSimulation::MonochromeRed
                | FilmSimulation::MonochromeGreen
                | FilmSimulation::Sepia
                | FilmSimulation::Acros
                | FilmSimulation::AcrosYellow
                | FilmSimulation::AcrosRed
                | FilmSimulation::AcrosGreen
        )
    }

    pub fn nr_wire(v: i8) -> (res: Result<u16, FujiPtpError>)
        ensures
            match wire::nr_code(v) {
                Some(c) => res matches Ok(x) && x == c,
                None => res matches Err(FujiPtpError::InvalidData),
            },
    {
        match v {
            -4 => Ok(32768),
            -3 => Ok(28672),
            -2 => Ok(16384),
            -1 => Ok(12288),
            0 => Ok(8192),
            1 => Ok(4096),
            2 => Ok(0),
            3 => Ok(24576),
            4 => Ok(20480),
            _ => Err(FujiPtpError::InvalidData),
        }
    }

    pub fn film_wire(f: &FilmSimulation) -> (v: u16)
        ensures
            v == wire::film_code(*f),
    {
        match f {
            FilmSimulation::Provia => 1,
            FilmSimulation::Velvia => 2,
            FilmSimulation::Astia => 3,
            FilmSimulation::ProNegHigh => 4,
            FilmSimulation::ProNegStandard => 5,
            FilmSimulation::Monochrome => 6,
            FilmSimulation::MonochromeYellow => 7,
            FilmSimulation::MonochromeRed => 8,
            FilmSimulation::MonochromeGreen => 9,
            FilmSimulation::Sepia => 10,
            FilmSimulation::ClassicChrome => 11,
            FilmSimulation::Acros => 12,
            FilmSimulation::AcrosYellow => 13,
            FilmSimulation::AcrosRed => 14,
            FilmSimulation::AcrosGreen => 15,
            FilmSimulation::Eterna => 16,
            FilmSimulation::ClassicNegative => 17,
            FilmSimulation::EternaBleachBypass => 18,
            FilmSimulation::NostalgicNegative => 19,
            FilmSimulation::RealaAce => 20,
        }
    }

    pub fn strength_wire(s: &EffectStrength) -> (v: u16)
        ensures
            v == wire::strength_code(*s),
    {
        match s {
            EffectStrength::Off => 1,
            EffectStrength::Weak => 2,
            EffectStrength::Strong => 3,
        }
    }

    pub fn grain_wire(g: &GrainEffect) -> (v: u16)
        ensures
            v == wire::grain_code(*g),
    {
        match g {
            GrainEffect::Off => 1,
            GrainEffect::WeakSmall => 2,
            GrainEffect::StrongSmall => 3,
            GrainEffect::WeakLarge => 4,
            GrainEffect::StrongLarge => 5,
        }
    }

    pub fn wb_wire(w: &WhiteBalanceMode) -> (v: u16)
        ensures
            v == wire::wb_code(*w),
    {
        match w {
            WhiteBalanceMode::Auto => 2,
            WhiteBalanceMode::Daylight => 4,
            WhiteBalanceMode::Shade => 0x8006,
            WhiteBalanceMode::Fluorescent1 => 0x8001,
            WhiteBalanceMode::Fluorescent2 => 0x8002,
            WhiteBalanceMode::Fluorescent3 => 0x8003,
            WhiteBalanceMode::Incandescent => 6,
            WhiteBalanceMode::Underwater => 8,
            WhiteBalanceMode::ColorTemperature => 0x8007,
            WhiteBalanceMode::AmbiencePriority => 0x8021,
        }
    }

    /// The code written for a dynamic range.
    pub fn dr_wire(d: &DynamicRange) -> (v: u16)
        ensures
            v == wire::dr_code(*d),
    {
        match d {
            DynamicRange::Dr100 => 100,
            DynamicRange::Dr200 => 200,
            DynamicRange::Dr400 => 400,
        }
    }

    /// The writes that store the settings of `r` (everything but its name).
    #[verifier::spinoff_prover]
    #[verifier::rlimit(30)]
    pub fn settings_plan(r: &Recipe) -> (p: WritePlan)
        ensures
            p@ == plan::planned_settings(r@),
            plan::values_fit(p@.writes),
    {
        let mono = Self::is_mono(&r.film_simulation);
        let mut w: Vec<PropertyWrite> = Vec::new();
        plan::put_word(&mut w, FILM, Self::film_wire(&r.film_simulation));
        assert(w@.map_values(|x: PropertyWrite| (x.property, x.value@)) =~= seq![
            (FILM, bytes::le16(wire::film_code(r.film_simulation))),
        ]);
        let priority: u16 = match r.dynamic_range_priority {
            0 => 0,
            1 => 1,
            2 => 2,
            32768 => 32768,
            _ => {
                return WritePlan { writes: w, rejected: true };
            },
        };
        plan::put_word(&mut w, DR_PRIORITY, priority);
        if priority == 0 {
            plan::put_word(&mut w, DR, Self::dr_wire(&r.dynamic_range));
        }
        // These controls are only accepted by bodies when a monochrome
        // simulation is active.
        if mono {
            match Self::dial(r.monochrome_wc) {
                Ok(x) => plan::put_word(&mut w, MONO_WC, x as u16),
                Err(_) => {
                    return WritePlan { writes: w, rejected: true };
                },
            }
            match Self::dial(r.monochrome_mg) {
                Ok(x) => plan::put_word(&mut w, MONO_MG, x as u16),
                Err(_) => {
                    return WritePlan { writes: w, rejected: true };
                },
            }
        }
        Self::plan_balance(r, w)
    }

    fn plan_balance(r: &Recipe, w: Vec<PropertyWrite>) -> (p: WritePlan)
        requires
            plan::values_fit(w@.map_values(|x: PropertyWrite| (x.property, x.value@))),
        ensures
            p@ == plan::planned_balance(
                r@,
                w@.map_values(|x: PropertyWrite| (x.property, x.value@)),
            ),
            plan::values_fit(p@.writes),
    {
        let mut w = w;
        let mono = Self::is_mono(&r.film_simulation);
        plan::put_word(&mut w, GRAIN, Self::grain_wire(&r.grain_effect));
        if !mono {
            plan::put_word(&mut w, COLOR_CHROME, Self::strength_wire(&r.color_chrome));
            plan::put_word(&mut w, FX_BLUE, Self::strength_wire(&r.color_chrome_fx_blue));
        }
        plan::put_word(&mut w, SMOOTH, Self::strength_wire(&r.smooth_skin));
        plan::put_word(&mut w, WB, Self::wb_wire(&r.white_balance.mode));
        if !(-9 <= r.white_balance.shift_r && r.white_balance.shift_r <= 9)
            || !(-9 <= r.white_balance.shift_b && r.white_balance.shift_b <= 9) {
            return WritePlan { writes: w, rejected: true };
        }
        if !mono {
            plan::put_word(&mut w, WB_R, r.white_balance.shift_r as u16);
            plan::put_word(&mut w, WB_B, r.white_balance.shift_b as u16);
        }
        if matches!(r.white_balance.mode, WhiteBalanceMode::ColorTemperature) {
            if let Some(t) = r.white_balance.color_temperature {
                plan::put_word(&mut w, TEMP, t);
            }
        }
        Self::plan_tones(r, w)
    }

    fn plan_tones(r: &Recipe, w: Vec<PropertyWrite>) -> (p: WritePlan)
        requires
            plan::values_fit(w@.map_values(|x: PropertyWrite| (x.property, x.value@))),
        ensures
            p@ == plan::planned_tones(r@, w@.map_values(|x: PropertyWrite| (x.property, x.value@))),
            plan::values_fit(p@.writes),
    {
        let mut w = w;
        match Self::dial(r.highlight) {
            Ok(x) => plan::put_word(&mut w, HIGHLIGHT, x as u16),
            Err(_) => {
                return WritePlan { writes: w, rejected: true };
            },
        }
        match Self::dial(r.shadow) {
            Ok(x) => plan::put_word(&mut w, SHADOW, x as u16),
            Err(_) => {
                return WritePlan { writes: w, rejected: true };
            },
        }
        match Self::dial(r.color) {
            Ok(x) => plan::put_word(&mut w, COLOR, x as u16),
            Err(_) => {
                return WritePlan { writes: w, rejected: true };
            },
        }
        match Self::dial(r.sharpness) {
            Ok(x) => plan::put_word(&mut w, SHARPNESS, x as u16),
            Err(_) => {
                return WritePlan { writes: w, rejected: true };
            },
        }
        match Self::dial(r.clarity) {
            Ok(x) => plan::put_word(&mut w, CLARITY, x as u16),
            Err(_) => {
                return WritePlan { writes: w, rejected: true };
            },
        }
        match Self::nr_wire(r.noise_reduction) {
            Ok(c) => {
                plan::put_word(&mut w, NR, c);
                WritePlan { writes: w, rejected: false }
            },
            Err(_) => WritePlan { writes: w, rejected: true },
        }
    }

    #[verifier::spinoff_prover]
    proof fn lemma_single_write(
        f0: Self,
        f1: Self,
        p: u16,
        v: Seq<u8>,
        res: Result<(), FujiPtpError>,
    )
        requires
            f1.tx() == f0.tx() + 1,
            res is Ok ==> f1.log() == f0.log().push(PtpOp::SetProperty { property: p, value: v }),
            res is Err ==> f1.log() == f0.log() || f1.log() == f0.log().push(
                PtpOp::SetProperty { property: p, value: v },
            ),
            res matches Err(e) ==> is_exchange_error(e) || e is InvalidDataAt,
            res matches Err(FujiPtpError::InvalidDataAt(m)) ==> f1.log() == f0.log().push(
                PtpOp::SetProperty { property: p, value: v },
            ) && exists|code: u16|
                answer_refused(f1.session_state(), PtpProtocolError::Response(code)) && m@
                    == #[trigger] text::write_message(p, code),
            link_reported(f0, f1, res matches Err(FujiPtpError::TransportError)),
            res matches Err(FujiPtpError::Protocol(e)) ==> write_refused(f1.session_state(), e)
                && f1.log() == f0.log().push(PtpOp::SetProperty { property: p, value: v }),
            f0.sent().len() <= f1.sent().len() <= f0.sent().len() + 2,
            f1.sent() == (f0.sent() + write_packets(plan::put(p, v).writes, f0.tx() as int)).take(
                f1.sent().len() as int,
            ),
            (res is Ok || res matches Err(FujiPtpError::InvalidDataAt(_)) || res matches Err(
                FujiPtpError::Protocol(_),
            )) ==> f1.sent().len() == f0.sent().len() + 2,
        ensures
            carried_out(f0, f1, plan::put(p, v), res),
    {
        lemma_write_packets_len(plan::put(p, v).writes, f0.tx() as int);
        let packets = f0.sent() + write_packets(plan::put(p, v).writes, f0.tx() as int);
        if f1.sent().len() == f0.sent().len() + 2 {
            assert(packets.take(packets.len() as int) =~= packets);
        }
        let all = f0.log() + plan::set_ops(plan::put(p, v).writes);
        assert(plan::set_ops(plan::put(p, v).writes) =~= seq![
            PtpOp::SetProperty { property: p, value: v },
        ]);
        assert(all =~= f0.log().push(PtpOp::SetProperty { property: p, value: v }));
        assert(all.take(f0.log().len() as int) =~= f0.log());
        assert(all.take(all.len() as int) =~= all);
        if let Err(FujiPtpError::InvalidDataAt(m)) = res {
            let code = choose|code: u16|
                answer_refused(f1.session_state(), PtpProtocolError::Response(code)) && m@
                    == #[trigger] text::write_message(p, code);
            assert(f1.log().len() == f0.log().len() + 1);
            assert(plan::put(p, v).writes[1 - 1].0 == p);
            assert(m@ == text::write_message(plan::put(p, v).writes[1 - 1].0, code));
        }
    }

    /// Hands each write to the camera in order, stopping at the first that fails.
    #[verifier::spinoff_prover]
    #[verifier::rlimit(30)]
    fn run_writes(&mut self, writes: &Vec<PropertyWrite>) -> (res: Result<(), FujiPtpError>)
        requires
            old(self).tx() + writes@.len() <= u32::MAX,
            plan::values_fit(writes@.map_values(|w: PropertyWrite| (w.property, w.value@))),
        ensures
            carried_out(
                *old(self),
                *final(self),
                plan::PlanView {
                    writes: writes@.map_values(|w: PropertyWrite| (w.property, w.value@)),
                    rejected: false,
                },
                res,
            ),
    {
        let ghost view = writes@.map_values(|w: PropertyWrite| (w.property, w.value@));
        let ghost f0 = *self;
        let mut i: usize = 0;
        assert(view.take(0) =~= Seq::<(u16, Seq<u8>)>::empty());
        assert(plan::set_ops(view.take(0)) =~= Seq::<PtpOp>::empty());
        assert(f0.log() + plan::set_ops(view.take(0)) =~= f0.log());
        while i < writes.len()
            invariant
                f0 == *old(self),
                view == writes@.map_values(|w: PropertyWrite| (w.property, w.value@)),
                f0.tx() + view.len() <= u32::MAX,
                plan::values_fit(view),
                0 <= i <= view.len(),
                self.log() == f0.log() + plan::set_ops(view.take(i as int)),
                self.tx() == f0.tx() + i,
                self.failures() == f0.failures(),
                self.sent() == f0.sent() + write_packets(view.take(i as int), f0.tx() as int),
            decreases view.len() - i,
        {
            let ghost fm = *self;
            assert(view[i as int] == (writes@[i as int].property, writes@[i as int].value@));
            let r = self.set(writes[i].property, writes[i].value.as_slice());
            assert(view.take(i + 1) =~= view.take(i as int).push(view[i as int]));
            proof {
                plan::lemma_set_ops_push(view.take(i as int), view[i as int]);
                lemma_write_packets_add(view.take(i as int), seq![view[i as int]], f0.tx() as int);
                assert(view.take(i + 1) =~= view.take(i as int) + seq![view[i as int]]);
                assert(plan::put(writes@[i as int].property, writes@[i as int].value@).writes
                    =~= seq![view[i as int]]);
            }
            match r {
                Ok(()) => {},
                Err(e) => {
                    proof {
                        let whole = plan::PlanView { writes: view, rejected: false };
                        let done = plan::PlanView { writes: view.take(i as int), rejected: false };
                        let rest = plan::PlanView { writes: view.skip(i as int), rejected: false };
                        assert(view.skip(i as int) =~= seq![view[i as int]] + view.skip(i + 1));
                        lemma_carried_prefix(
                            fm,
                            *self,
                            plan::put(writes@[i as int].property, writes@[i as int].value@),
                            plan::PlanView { writes: view.skip(i + 1), rejected: false },
                            r,
                        );
                        assert(plan::followed_by(
                            plan::put(writes@[i as int].property, writes@[i as int].value@),
                            plan::PlanView { writes: view.skip(i + 1), rejected: false },
                        ) == rest);
                        lemma_carried_then(f0, fm, *self, done, rest, r);
                        assert(view.take(i as int) + view.skip(i as int) =~= view);
                        assert(plan::followed_by(done, rest) == whole);
                    }
                    return Err(e);
                },
            }
            i = i + 1;
        }
        assert(view.take(i as int) =~= view);
        assert((f0.log() + plan::set_ops(view)).take(self.log().len() as int) =~= self.log());
        let ghost packets = f0.sent() + write_packets(view, f0.tx() as int);
        assert(packets.take(packets.len() as int) =~= packets);
        Ok(())
    }

    /// Writes one complete recipe to one slot. Intended for cautious hardware tests.
    #[verifier::spinoff_prover]
    #[verifier::rlimit(30)]
    pub fn write_recipe(&mut self, slot: u8, r: &Recipe) -> (res: Result<(), FujiPtpError>)
        requires
            1 <= slot <= 7 ==> old(self).tx() + recipe_plan(slot, r@).writes.len() <= u32::MAX,
        ensures
            !(1 <= slot <= 7) ==> (res matches Err(FujiPtpError::InvalidSlot) && *final(self)
                == *old(self)),
            1 <= slot <= 7 ==> carried_out(*old(self), *final(self), recipe_plan(slot, r@), res),
    {
        let ghost f0 = *self;
        let ghost rest = plan::followed_by(plan::name_plan(r@.name), plan::planned_settings(r@));
        match self.select_slot(slot) {
            Ok(()) => {},
            Err(e) => {
                proof {
                    if 1 <= slot <= 7 {
                        lemma_carried_prefix(f0, *self, plan::select_plan(slot), rest, Err(e));
                    }
                }
                return Err(e);
            },
        }
        let ghost f1 = *self;
        assert(plan::set_ops(plan::select_plan(slot).writes) =~= seq![
            PtpOp::SetProperty { property: PROP_SLOT_CURSOR, value: seq![slot, 0u8] },
        ]);
        // Name FIRST: it's the property that gets dropped when the camera
        // truncates the last operation, so write it while the slot is fresh.
        let name = match Self::name_bytes(r.name.as_str()) {
            Ok(b) => b,
            Err(e) => {
                proof {
                    assert(plan::set_ops(seq![]) =~= Seq::<PtpOp>::empty());
                    assert(f1.log() + plan::set_ops(seq![]) =~= f1.log());
                    lemma_carried_then(f0, f1, *self, plan::select_plan(slot), rest, Err(e));
                }
                return Err(e);
            },
        };
        proof {
            name::lemma_name_wire_len(r@.name);
        }
        let res = self.set(PROP_SLOT_NAME, name.as_slice());
        let ghost f2 = *self;
        let ghost settings = plan::planned_settings(r@);
        match res {
            Ok(()) => {},
            Err(e) => {
                proof {
                    lemma_carried_prefix(f1, f2, plan::name_plan(r@.name), settings, res);
                    lemma_carried_then(f0, f1, f2, plan::select_plan(slot), rest, res);
                }
                return Err(e);
            },
        }
        let p = Self::settings_plan(r);
        let res = self.run_writes(&p.writes);
        let res = match res {
            Ok(()) => if p.rejected {
                Err(FujiPtpError::InvalidData)
            } else {
                Ok(())
            },
            Err(e) => Err(e),
        };
        proof {
            lemma_carried_then(f1, f2, *self, plan::name_plan(r@.name), settings, res);
            lemma_carried_then(f0, f1, *self, plan::select_plan(slot), rest, res);
        }
        res
    }

    /// Writes every recipe setting EXCEPT the slot name. The camera keeps
    /// whatever name the slot already had. This is what the Android app uses
    /// when pushing recipes, so an imported recipe never garbles the name
    /// stored on the camera (name changes are done explicitly via
    /// [`Self::write_recipe_names`]).
    #[verifier::spinoff_prover]
    #[verifier::rlimit(30)]
    pub fn write_recipe_settings(&mut self, slot: u8, r: &Recipe) -> (res: Result<(), FujiPtpError>)
        requires
            1 <= slot <= 7 ==> old(self).tx() + settings_only_plan(slot, r@).writes.len() <= u32::MAX,
        ensures
            !(1 <= slot <= 7) ==> (res matches Err(FujiPtpError::InvalidSlot) && *final(self)
                == *old(self)),
            1 <= slot <= 7 ==> carried_out(*old(self), *final(self), settings_only_plan(slot, r@), res),
    {
        let ghost f0 = *self;
        let ghost settings = plan::planned_settings(r@);
        match self.select_slot(slot) {
            Ok(()) => {},
            Err(e) => {
                proof {
                    if 1 <= slot <= 7 {
                        lemma_carried_prefix(f0, *self, plan::select_plan(slot), settings, Err(e));
                    }
                }
                return Err(e);
            },
        }
        let ghost f1 = *self;
        let p = Self::settings_plan(r);
        let res = self.run_writes(&p.writes);
        let res = match res {
            Ok(()) => if p.rejected {
                Err(FujiPtpError::InvalidData)
            } else {
                Ok(())
            },
            Err(e) => Err(e),
        };
        proof {
            lemma_carried_then(f0, f1, *self, plan::select_plan(slot), settings, res);
        }
        res
    }

    /// Writes recipe `r` to `slot`: cursor, settings, then name.
    #[verifier::spinoff_prover]
    #[verifier::rlimit(30)]
    fn write_slot(&mut self, slot: u8, r: &Recipe) -> (res: Result<(), FujiPtpError>)
        requires
            1 <= slot <= 7,
            old(self).tx() + slot_plan(slot, r@).writes.len() <= u32::MAX,
        ensures
            carried_out(*old(self), *final(self), slot_plan(slot, r@), res),
    {
        let ghost fi = *self;
        let ghost tail = plan::followed_by(plan::planned_settings(r@), plan::name_plan(r@.name));
        match self.select_slot(slot) {
            Ok(()) => {},
            Err(e) => {
                proof {
                    lemma_carried_prefix(fi, *self, plan::select_plan(slot), tail, Err(e));
                }
                return Err(e);
            },
        }
        let ghost f1 = *self;
        let p = Self::settings_plan(r);
        let res = self.run_writes(&p.writes);
        let ghost f2 = *self;
        let res = match res {
            Ok(()) => if p.rejected {
                Err(FujiPtpError::InvalidData)
            } else {
                Ok(())
            },
            Err(e) => Err(e),
        };
        if let Err(e) = res {
            proof {
                lemma_carried_prefix(f1, f2, plan::planned_settings(r@), plan::name_plan(r@.name), res);
                lemma_carried_then(fi, f1, f2, plan::select_plan(slot), tail, res);
            }
            return Err(e);
        }
        let name = match Self::name_bytes(r.name.as_str()) {
            Ok(b) => b,
            Err(e) => {
                proof {
                    assert(plan::set_ops(seq![]) =~= Seq::<PtpOp>::empty());
                    assert(f2.log() + plan::set_ops(seq![]) =~= f2.log());
                    lemma_carried_then(f1, f2, f2, plan::planned_settings(r@), plan::name_plan(r@.name), Err(e));
                    lemma_carried_then(fi, f1, f2, plan::select_plan(slot), tail, Err(e));
                }
                return Err(e);
            },
        };
        proof {
            name::lemma_name_wire_len(r@.name);
        }
        let res = self.set(PROP_SLOT_NAME, name.as_slice());
        proof {
            lemma_carried_then(f1, f2, *self, plan::planned_settings(r@), plan::name_plan(r@.name), res);
            lemma_carried_then(fi, f1, *self, plan::select_plan(slot), tail, res);
        }
        res
    }

    /// Writes the seven recipes of `profile` to C1-C7: for each slot its settings, then its
    /// name.
    #[verifier::spinoff_prover]
    #[verifier::rlimit(30)]
    pub fn write_recipes(&mut self, profile: &Profile) -> (res: Result<(), FujiPtpError>)
        requires
            old(self).tx() + profile_plan(profile@.recipes, 7).writes.len() <= u32::MAX,
        ensures
            carried_out(*old(self), *final(self), profile_plan(profile@.recipes, 7), res),
    {
        let ghost f0 = *self;
        let ghost recipes = profile@.recipes;
        let mut i: usize = 0;
        while i < 7
            invariant
                f0 == *old(self),
                recipes == profile@.recipes,
                recipes.len() == 7,
                f0.tx() + profile_plan(recipes, 7).writes.len() <= u32::MAX,
                0 <= i <= 7,
                !profile_plan(recipes, i as nat).rejected,
                self.log() == f0.log() + plan::set_ops(profile_plan(recipes, i as nat).writes),
                self.tx() == f0.tx() + profile_plan(recipes, i as nat).writes.len(),
                self.failures() == f0.failures(),
                self.sent() == f0.sent() + write_packets(profile_plan(recipes, i as nat).writes, f0.tx() as int),
            decreases 7 - i,
        {
            let ghost fi = *self;
            let r = &profile.recipes[i];
            assert(r@ == recipes[i as int]);
            let ghost done = profile_plan(recipes, i as nat);
            let ghost step = slot_plan((i + 1) as u8, r@);
            assert(profile_plan(recipes, (i + 1) as nat) == plan::followed_by(done, step));
            proof {
                lemma_profile_len(recipes, (i + 1) as nat, 7);
                plan::lemma_set_ops_add(done.writes, step.writes);
            }
            let step_res = self.write_slot((i + 1) as u8, r);
            proof {
                lemma_carried_then(f0, fi, *self, done, step, step_res);
            }
            match step_res {
                Ok(()) => {},
                Err(e) => {
                    proof {
                        lemma_profile_prefix(f0, *self, recipes, (i + 1) as nat, 7, step_res);
                    }
                    return Err(e);
                },
            }
            i = i + 1;
        }
        let ghost all = f0.log() + plan::set_ops(profile_plan(recipes, 7).writes);
        assert(all.take(all.len() as int) =~= all);
        let ghost packets = f0.sent() + write_packets(profile_plan(recipes, 7).writes, f0.tx() as int);
        assert(packets.take(packets.len() as int) =~= packets);
        Ok(())
    }

    fn write_slot_name(&mut self, slot: u8, r: &Recipe) -> (res: Result<(), FujiPtpError>)
        requires
            1 <= slot <= 7,
            old(self).tx() + name_slot_plan(slot, r@.name).writes.len() <= u32::MAX,
        ensures
            carried_out(*old(self), *final(self), name_slot_plan(slot, r@.name), res),
    {
        let ghost fi = *self;
        match self.select_slot(slot) {
            Ok(()) => {},
            Err(e) => {
                proof {
                    lemma_carried_prefix(fi, *self, plan::select_plan(slot), plan::name_plan(r@.name), Err(e));
                }
                return Err(e);
            },
        }
        let ghost f1 = *self;
        let name = match Self::name_bytes(r.name.as_str()) {
            Ok(b) => b,
            Err(e) => {
                proof {
                    assert(plan::set_ops(seq![]) =~= Seq::<PtpOp>::empty());
                    assert(f1.log() + plan::set_ops(seq![]) =~= f1.log());
                    lemma_carried_then(fi, f1, f1, plan::select_plan(slot), plan::name_plan(r@.name), Err(e));
                }
                return Err(e);
            },
        };
        proof {
            name::lemma_name_wire_len(r@.name);
        }
        let res = self.set(PROP_SLOT_NAME, name.as_slice());
        proof {
            lemma_carried_then(fi, f1, *self, plan::select_plan(slot), plan::name_plan(r@.name), res);
        }
        res
    }

    /// Round-trip helper: changes only the preset names, preserving every
    /// other value already stored in the camera.
    #[verifier::spinoff_prover]
    #[verifier::rlimit(30)]
    pub fn write_recipe_names(&mut self, profile: &Profile) -> (res: Result<(), FujiPtpError>)
        requires
            old(self).tx() + names_plan(profile@.recipes, 7).writes.len() <= u32::MAX,
        ensures
            carried_out(*old(self), *final(self), names_plan(profile@.recipes, 7), res),
    {
        let ghost f0 = *self;
        let ghost recipes = profile@.recipes;
        let mut i: usize = 0;
        while i < 7
            invariant
                f0 == *old(self),
                recipes == profile@.recipes,
                recipes.len() == 7,
                f0.tx() + names_plan(recipes, 7).writes.len() <= u32::MAX,
                0 <= i <= 7,
                !names_plan(recipes, i as nat).rejected,
                self.log() == f0.log() + plan::set_ops(names_plan(recipes, i as nat).writes),
                self.tx() == f0.tx() + names_plan(recipes, i as nat).writes.len(),
                self.failures() == f0.failures(),
                self.sent() == f0.sent() + write_packets(names_plan(recipes, i as nat).writes, f0.tx() as int),
            decreases 7 - i,
        {
            let ghost fi = *self;
            let r = &profile.recipes[i];
            assert(r@ == recipes[i as int]);
            let ghost done = names_plan(recipes, i as nat);
            let ghost step = name_slot_plan((i + 1) as u8, r@.name);
            assert(names_plan(recipes, (i + 1) as nat) == plan::followed_by(done, step));
            proof {
                lemma_names_len(recipes, (i + 1) as nat, 7);
                plan::lemma_set_ops_add(done.writes, step.writes);
            }
            let step_res = self.write_slot_name((i + 1) as u8, r);
            proof {
                lemma_carried_then(f0, fi, *self, done, step, step_res);
            }
            match step_res {
                Ok(()) => {},
                Err(e) => {
                    proof {
                        lemma_names_prefix(f0, *self, recipes, (i + 1) as nat, 7, step_res);
                    }
                    return Err(e);
                },
            }
            i = i + 1;
        }
        let ghost all = f0.log() + plan::set_ops(names_plan(recipes, 7).writes);
        assert(all.take(all.len() as int) =~= all);
        let ghost packets = f0.sent() + write_packets(names_plan(recipes, 7).writes, f0.tx() as int);
        assert(packets.take(packets.len() as int) =~= packets);
        Ok(())
    }

    /// The properties read per slot, in order.
    fn property_codes() -> (v: Vec<u16>)
        ensures
            v@ == property_block(),
    {
        let v = vec![
            DR, DR_PRIORITY, FILM, MONO_WC, MONO_MG, GRAIN, COLOR_CHROME, FX_BLUE, SMOOTH, WB, WB_R,
            WB_B, TEMP, HIGHLIGHT, SHADOW, COLOR, SHARPNESS, NR, CLARITY,
        ];
        assert(v@ =~= property_block());
        v
    }

    /// The recipe that a slot holds, from its name and its property words (in the order of
    /// the property block).
    #[verifier::spinoff_prover]
    #[verifier::rlimit(30)]
    pub fn decode_recipe(name: String, v: &Vec<u16>, slot: u8) -> (res: Result<Recipe, FujiPtpError>)
        requires
            v@.len() == 19,
        ensures
            read_as(res, recipe_of(name@, v@, slot)),
    {
        // Empty custom slots return 0xFFFF for the first property block
        // value. They are valid and must remain representable as a
        // default Recipe rather than being rejected.
        if v[0] == 0xFFFF {
            return Ok(Recipe::new(name));
        }
        let dynamic_range = match Self::dynamic_range(v[0]) {
            Some(d) => d,
            None => {
                return Err(FujiPtpError::InvalidDataAt(text::hex_value_text(slot, "dynamic range", v[0])));
            },
        };
        let film_simulation = match Self::film(v[2]) {
            Some(f) => f,
            None => {
                return Err(FujiPtpError::InvalidDataAt(text::value_text(slot, "film simulation", v[2])));
            },
        };
        let grain_effect = match Self::grain(v[5]) {
            Some(g) => g,
            None => {
                return Err(FujiPtpError::InvalidDataAt(text::value_text(slot, "grain", v[5])));
            },
        };
        let color_chrome = match Self::strength(v[6]) {
            Some(x) => x,
            None => {
                return Err(FujiPtpError::InvalidDataAt(text::value_text(slot, "color chrome", v[6])));
            },
        };
        let color_chrome_fx_blue = match Self::strength(v[7]) {
            Some(x) => x,
            None => {
                return Err(FujiPtpError::InvalidDataAt(text::value_text(slot, "fx blue", v[7])));
            },
        };
        let smooth_skin = match Self::strength(v[8]) {
            Some(x) => x,
            None => {
                return Err(FujiPtpError::InvalidDataAt(text::value_text(slot, "smooth skin", v[8])));
            },
        };
        let mode = match Self::white_balance_mode(v[9]) {
            Some(m) => m,
            None => {
                return Err(FujiPtpError::InvalidDataAt(text::hex_value_text(slot, "white balance", v[9])));
            },
        };
        let noise_reduction = match Self::noise_reduction(v[17]) {
            Some(n) => n,
            None => {
                return Err(FujiPtpError::InvalidDataAt(text::value_text(slot, "high ISO NR", v[17])));
            },
        };
        let mut r = Recipe::new(name);
        r.dynamic_range = dynamic_range;
        r.dynamic_range_priority = v[1] as i32;
        r.film_simulation = film_simulation;
        r.monochrome_wc = v[3] as i16;
        r.monochrome_mg = v[4] as i16;
        r.grain_effect = grain_effect;
        r.color_chrome = color_chrome;
        r.color_chrome_fx_blue = color_chrome_fx_blue;
        r.smooth_skin = smooth_skin;
        r.white_balance = WhiteBalance {
            mode,
            shift_r: v[10] as i16,
            shift_b: v[11] as i16,
            color_temperature: Some(v[12]),
        };
        r.highlight = v[13] as i16;
        r.shadow = v[14] as i16;
        r.color = v[15] as i16;
        r.sharpness = v[16] as i16;
        r.noise_reduction = noise_reduction;
        r.clarity = v[18] as i16;
        Ok(r)
    }

    /// Reads slot `slot`: moves the cursor, reads the name, then each property of the block.
    #[verifier::rlimit(50)]
    #[verifier::spinoff_prover]
    fn read_slot(&mut self, slot: u8) -> (res: Result<Recipe, FujiPtpError>)
        requires
            1 <= slot <= 7,
            old(self).tx() + 21 <= u32::MAX,
        ensures
            old(self).log().len() <= final(self).log().len(),
            final(self).log().take(old(self).log().len() as int) == old(self).log(),
            final(self).tx() <= old(self).tx() + 21,
            ({
                let new = final(self).log().skip(old(self).log().len() as int);
                match res {
                    Ok(r) => slot_read(slot, new) == Some(Ok::<RecipeView, Seq<char>>(r@))
                        && final(self).tx() == old(self).tx() + 21,
                    Err(FujiPtpError::InvalidDataAt(m)) => slot_read(slot, new) == Some(
                        Err::<RecipeView, Seq<char>>(m@),
                    ),
                    Err(e) => is_exchange_error(e),
                }
            }),
            link_reported(*old(self), *final(self), res matches Err(FujiPtpError::TransportError)),
            res matches Err(FujiPtpError::Protocol(e)) ==> read_refused(final(self).session_state(), e),
            ({
                let new = final(self).log().skip(old(self).log().len() as int);
                &&& new.len() <= 21
                &&& forall|j: int| 0 <= j < new.len() ==> read_step(slot, j, #[trigger] new[j])
            }),
            old(self).sent().len() <= final(self).sent().len() <= old(self).sent().len() + 22,
            final(self).sent() == (old(self).sent() + slot_read_packets(slot, old(self).tx() as int)).take(
                final(self).sent().len() as int,
            ),
            res is Ok ==> final(self).sent() == old(self).sent() + slot_read_packets(slot, old(self).tx() as int),
    {
        let ghost f0 = *self;
        let ghost n0 = f0.log().len() as int;
        let ghost n1 = f0.sent().len() as int;
        let ghost all = f0.sent() + slot_read_packets(slot, f0.tx() as int);
        let sel = self.select_slot(slot);
        proof {
            lemma_put_packets(PROP_SLOT_CURSOR, seq![slot, 0u8], f0.tx() as int);
            let wp = write_packets(plan::select_plan(slot).writes, f0.tx() as int);
            assert(all.take(n1 + 2) =~= f0.sent() + wp);
            assert(all.take(self.sent().len() as int) =~= (f0.sent() + wp).take(self.sent().len() as int));
        }
        assert(self.log().take(n0) =~= f0.log());
        sel?;
        let ghost sel_op = PtpOp::SetProperty { property: PROP_SLOT_CURSOR, value: seq![slot, 0u8] };
        assert(plan::set_ops(plan::select_plan(slot).writes) =~= seq![sel_op]);
        assert(self.log() =~= f0.log().push(sel_op));
        assert(self.sent() == all.take(n1 + 2));
        let data = self.get(PROP_SLOT_NAME);
        proof {
            assert(all[n1 + 2] == session::command_packet(
                session::GET_DEVICE_PROP_VALUE,
                self.tx(),
                PROP_SLOT_NAME as u32,
            ));
            assert(all.take(n1 + 3) =~= all.take(n1 + 2).push(all[n1 + 2]));
        }
        assert(self.log().take(n0) =~= f0.log());
        let data = data?;
        let ghost name_op = PtpOp::GetProperty { property: PROP_SLOT_NAME, value: data@ };
        assert(self.log() =~= f0.log() + seq![sel_op, name_op]);
        assert(self.log().skip(n0) =~= seq![sel_op, name_op]);
        let name = match Self::ptp_name(&data) {
            Ok(n) => n,
            Err(_) => {
                return Err(FujiPtpError::InvalidDataAt(text::name_text(slot)));
            },
        };
        let props = Self::property_codes();
        let mut v: Vec<u16> = Vec::new();
        let mut k: usize = 0;
        while k < 19
            invariant
                f0 == *old(self),
                1 <= slot <= 7,
                f0.tx() + 21 <= u32::MAX,
                n0 == f0.log().len(),
                props@ == property_block(),
                0 <= k <= 19,
                v@.len() == k,
                self.tx() == f0.tx() + 2 + k,
                self.log().len() == n0 + 2 + k,
                self.log().take(n0) == f0.log(),
                self.failures() == f0.failures(),
                n1 == f0.sent().len(),
                all == f0.sent() + slot_read_packets(slot, f0.tx() as int),
                self.sent() == all.take(n1 + 3 + k),
                self.log()[n0] == sel_op,
                self.log()[n0 + 1] == name_op,
                sel_op == (PtpOp::SetProperty { property: PROP_SLOT_CURSOR, value: seq![slot, 0u8] }),
                name_op == (PtpOp::GetProperty { property: PROP_SLOT_NAME, value: data@ }),
                name::name_of(data@) == Some(name@),
                words_read(self.log().skip(n0), k as int),
                forall|j: int| 0 <= j < k ==> v@[j] == #[trigger] wire::word_of(op_value(self.log().skip(n0)[2 + j])).unwrap(),
            decreases 19 - k,
        {
            let ghost fk = *self;
            let p = props[k];
            let d = self.get(p);
            proof {
                assert(all[n1 + 3 + k] == session::command_packet(
                    session::GET_DEVICE_PROP_VALUE,
                    self.tx(),
                    p as u32,
                ));
                assert(all.take(n1 + 3 + k + 1) =~= all.take(n1 + 3 + k).push(all[n1 + 3 + k]));
            }
            assert(self.log().take(n0) =~= f0.log());
            let d = d?;
            let ghost op = PtpOp::GetProperty { property: p, value: d@ };
            assert(self.log() == fk.log().push(op));
            assert(self.log().skip(n0) =~= fk.log().skip(n0).push(op));
            match Self::word(&d) {
                Ok(w) => v.push(w),
                Err(_) => {
                    return Err(FujiPtpError::InvalidDataAt(text::property_text(slot, p)));
                },
            }
            k = k + 1;
        }
        let ghost new = self.log().skip(n0);
        assert(v@ =~= words(new));
        assert(all.take(n1 + 22) =~= all);
        Self::decode_recipe(name, &v, slot)
    }

    #[verifier::rlimit(50)]
    #[verifier::spinoff_prover]
    pub fn read_recipes(&mut self) -> (res: Result<Profile, FujiPtpError>)
        requires
            old(self).tx() + 147 <= u32::MAX,
        ensures
            profile_read(*old(self), *final(self), res),
    {
        let ghost f0 = *self;
        let ghost n0 = f0.log().len() as int;
        let mut recipes: Vec<Recipe> = Vec::with_capacity(7);
        let mut slot: u8 = 1;
        assert(self.log().take(n0) =~= f0.log());
        while slot <= 7
            invariant
                f0 == *old(self),
                f0.tx() + 147 <= u32::MAX,
                n0 == f0.log().len(),
                1 <= slot <= 8,
                recipes@.len() == slot - 1,
                self.tx() == f0.tx() + 21 * (slot - 1),
                self.log().len() == n0 + 21 * (slot - 1),
                self.log().take(n0) == f0.log(),
                self.failures() == f0.failures(),
                read_steps(self.log().skip(n0)),
                self.sent() == f0.sent() + reads_packets((slot - 1) as nat, f0.tx() as int),
                forall|s: int| 0 <= s < slot - 1 ==> slot_read((s + 1) as u8, #[trigger] slot_chunk(self.log().skip(n0), s)) == Some(Ok::<RecipeView, Seq<char>>(recipes@[s]@)),
            decreases 8 - slot,
        {
            let ghost fs = *self;
            let ghost before = fs.log().skip(n0);
            let r = self.read_slot(slot);
            let ghost after = self.log().skip(n0);
            let ghost mine = self.log().skip(fs.log().len() as int);
            assert(self.log().take(n0) =~= f0.log()) by {
                assert(self.log().take(fs.log().len() as int) == fs.log());
                assert(self.log().take(n0) =~= self.log().take(fs.log().len() as int).take(n0));
            }
            assert(after =~= before + mine) by {
                assert(self.log().take(fs.log().len() as int) == fs.log());
            }
            assert forall|s: int| 0 <= s < slot - 1 implies #[trigger] slot_chunk(after, s) == slot_chunk(before, s) by {
                assert(slot_chunk(after, s) =~= slot_chunk(before, s));
            }
            proof {
                lemma_read_steps_grow(before, mine, slot);
                let k = (slot - 1) as nat;
                lemma_reads_packets_prefix(k, k, f0.tx() as int);
                lemma_reads_packets_prefix(slot as nat, 7, f0.tx() as int);
                let srp = slot_read_packets(slot, fs.tx() as int);
                assert(reads_packets(slot as nat, f0.tx() as int) == reads_packets(k, f0.tx() as int) + srp);
                assert(f0.sent() + reads_packets(slot as nat, f0.tx() as int) =~= fs.sent() + srp);
                let whole = f0.sent() + reads_packets(7, f0.tx() as int);
                assert(whole.take(f0.sent().len() + 22 * slot) =~= f0.sent() + reads_packets(slot as nat, f0.tx() as int));
                assert(whole.take(self.sent().len() as int) =~= (fs.sent() + srp).take(self.sent().len() as int));
            }
            match r {
                Ok(recipe) => {
                    assert(slot_chunk(after, slot - 1) =~= mine);
                    recipes.push(recipe);
                },
                Err(e) => {
                    proof {
                        if e is InvalidDataAt {
                            let s = slot - 1;
                            assert(slot_rest(after, s) =~= mine);
                            assert(forall|j: int| 0 <= j < s ==> (#[trigger] slot_read((j + 1) as u8, slot_chunk(after, j)) matches Some(Ok(_))));
                        }
                    }
                    return Err(e);
                },
            }
            slot = slot + 1;
        }
        proof {
            lemma_reads_packets_prefix(7, 7, f0.tx() as int);
            let whole = f0.sent() + reads_packets(7, f0.tx() as int);
            assert(whole.take(whole.len() as int) =~= whole);
        }
        let r7 = recipes.pop().unwrap();
        let r6 = recipes.pop().unwrap();
        let r5 = recipes.pop().unwrap();
        let r4 = recipes.pop().unwrap();
        let r3 = recipes.pop().unwrap();
        let r2 = recipes.pop().unwrap();
        let r1 = recipes.pop().unwrap();
        let all = [r1, r2, r3, r4, r5, r6, r7];
        let profile = Profile::new(String::from_str("Fujifilm Custom Recipes"), all);
        Ok(profile)
    }
}


/// A UTF-16 code unit taken as a character (`char::from_u32`): none for a surrogate.
#[verifier::external_body]
fn char_from_u16(u: u16) -> (c: Option<char>)
    ensures
        c is None <==> name::is_surrogate(u),
        c matches Some(ch) ==> ch == u as char,
{
    char::from_u32(u as u32)
}

} // verus!
