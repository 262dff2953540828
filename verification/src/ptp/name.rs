//! Preset names as PTP strings: a count of UTF-16 code units (terminator included), the
//! units in little-endian order, and a zero terminator.
use vstd::prelude::*;
use super::bytes;

verus! {

/// The UTF-16 code units of one character.
pub open spec fn char_units(c: char) -> Seq<u16> {
    let v = c as int;
    if v < 0x10000 {
        seq![v as u16]
    } else {
        seq![(0xD800 + (v - 0x10000) / 1024) as u16, (0xDC00 + (v - 0x10000) % 1024) as u16]
    }
}

/// The UTF-16 encoding of a string.
pub open spec fn utf16_units(s: Seq<char>) -> Seq<u16>
    decreases s.len(),
{
    if s.len() == 0 {
        seq![]
    } else {
        utf16_units(s.drop_last()) + char_units(s.last())
    }
}

/// Code units laid out little-endian.
pub open spec fn units_le(u: Seq<u16>) -> Seq<u8>
    decreases u.len(),
{
    if u.len() == 0 {
        seq![]
    } else {
        units_le(u.drop_last()) + bytes::le16(u.last())
    }
}

/// The PTP string that stores `name`, if it can be stored: at most 254 code units and no
/// NUL character.
pub open spec fn name_wire(name: Seq<char>) -> Option<Seq<u8>> {
    let u = utf16_units(name);
    if u.len() > 254 || name.contains('\0') {
        None
    } else {
        Some(seq![(u.len() + 1) as u8] + units_le(u) + seq![0u8, 0u8])
    }
}

/// A UTF-16 surrogate, which is no character by itself.
pub open spec fn is_surrogate(u: u16) -> bool {
    0xD800 <= u <= 0xDFFF
}

/// The code units of a PTP string with `n` units, terminator excluded.
pub open spec fn ptp_units(data: Seq<u8>, n: int) -> Seq<u16> {
    Seq::new((n - 1) as nat, |i: int| bytes::u16_at(data, 1 + 2 * i))
}

/// The name that a PTP string holds. A single byte 0 is the empty name; otherwise the
/// count must match the length, the last unit must be 0, and each unit before it is taken
/// as one character, so a surrogate is refused.
pub open spec fn name_of(data: Seq<u8>) -> Option<Seq<char>> {
    if data.len() == 0 {
        None
    } else {
        let n = data[0] as int;
        if n == 0 {
            if data.len() == 1 {
                Some(seq![])
            } else {
                None
            }
        } else if data.len() != 1 + 2 * n || bytes::u16_at(data, data.len() - 2) != 0 {
            None
        } else if exists|i: int| 0 <= i < n - 1 && is_surrogate(#[trigger] ptp_units(data, n)[i]) {
            None
        } else {
            Some(ptp_units(data, n).map_values(|u: u16| u as char))
        }
    }
}

/// A name of characters from the Basic Multilingual Plane: one code unit each.
pub open spec fn is_bmp(name: Seq<char>) -> bool {
    forall|i: int| 0 <= i < name.len() ==> (#[trigger] name[i] as int) < 0x10000
}

proof fn lemma_bmp_units(s: Seq<char>)
    requires
        is_bmp(s),
    ensures
        utf16_units(s) == s.map_values(|c: char| (c as int) as u16),
    decreases s.len(),
{
    if s.len() > 0 {
        lemma_bmp_units(s.drop_last());
        assert(s.drop_last().map_values(|c: char| (c as int) as u16).push(s.last() as u16) =~= s.map_values(
            |c: char| (c as int) as u16,
        ));
    } else {
        assert(s.map_values(|c: char| (c as int) as u16) =~= seq![]);
    }
}

proof fn lemma_units_le(u: Seq<u16>)
    ensures
        units_le(u).len() == 2 * u.len(),
        forall|i: int| 0 <= i < u.len() ==> bytes::u16_at(units_le(u), 2 * i) == #[trigger] u[i],
    decreases u.len(),
{
    if u.len() > 0 {
        lemma_units_le(u.drop_last());
        let a = units_le(u.drop_last());
        bytes::lemma_u16_roundtrip(u.last());
        assert forall|i: int| 0 <= i < u.len() implies bytes::u16_at(units_le(u), 2 * i)
            == #[trigger] u[i] by {
            if i < u.len() - 1 {
                assert(u.drop_last()[i] == u[i]);
            }
        }
    }
}

pub proof fn lemma_char_range(c: char)
    ensures
        0 <= c as int <= 0xD7FF || 0xE000 <= c as int <= 0x10FFFF,
{
}

/// A name of at most 254 characters from the Basic Multilingual Plane, without NUL, is
/// stored as a PTP string, and reading that string gives the name back.
pub proof fn law_name_roundtrip(name: Seq<char>)
    requires
        is_bmp(name),
        name.len() <= 254,
        !name.contains('\0'),
    ensures
        name_wire(name) matches Some(w) && name_of(w) == Some(name),
{
    lemma_bmp_units(name);
    let u = utf16_units(name);
    assert(u.len() == name.len());
    lemma_units_le(u);
    let w = seq![(u.len() + 1) as u8] + units_le(u) + seq![0u8, 0u8];
    assert(name_wire(name) == Some(w));
    let n = w[0] as int;
    assert(n == u.len() + 1);
    assert(w.len() == 1 + 2 * n);
    assert(bytes::u16_at(w, w.len() - 2) == 0);
    assert forall|i: int| 0 <= i < n - 1 implies #[trigger] ptp_units(w, n)[i] == u[i] by {
        assert(w[1 + 2 * i] == units_le(u)[2 * i]);
        assert(w[2 + 2 * i] == units_le(u)[2 * i + 1]);
        assert(bytes::u16_at(units_le(u), 2 * i) == u[i]);
    }
    assert forall|i: int| 0 <= i < n - 1 implies !is_surrogate(#[trigger] ptp_units(w, n)[i])
        && ptp_units(w, n)[i] as char == name[i] by {
        let c = name[i];
        assert(u[i] == name.map_values(|c: char| (c as int) as u16)[i]);
        assert((c as int) < 0x10000);
        lemma_char_range(c);
        assert(u[i] as int == c as int);
    }
    assert(ptp_units(w, n).map_values(|x: u16| x as char) =~= name);
}

} // verus!

verus! {

/// A name from the Basic Multilingual Plane that can be stored reads back from the PTP
/// string that stores it.
pub proof fn lemma_stored_name_reads_back(name: Seq<char>)
    requires
        is_bmp(name),
        name_wire(name) is Some,
    ensures
        name_of(name_wire(name).unwrap()) == Some(name),
{
    lemma_bmp_units(name);
    assert(utf16_units(name).len() == name.len());
    law_name_roundtrip(name);
}

/// A stored name is at most 511 bytes: the count, 254 units and the terminator.
pub proof fn lemma_name_wire_len(name: Seq<char>)
    ensures
        name_wire(name) matches Some(b) ==> b.len() <= 511,
{
    lemma_units_le(utf16_units(name));
}

/// UTF-16: a character of the Basic Multilingual Plane is one unit, its own value; any
/// other is a high surrogate (0xD800..=0xDBFF) and a low one (0xDC00..=0xDFFF) that carry
/// its value less 0x10000, ten bits each.
pub proof fn law_utf16(c: char)
    ensures
        (c as int) < 0x10000 ==> char_units(c) == seq![(c as int) as u16],
        (c as int) >= 0x10000 ==> {
            let u = char_units(c);
            &&& u.len() == 2
            &&& 0xD800 <= u[0] <= 0xDBFF
            &&& 0xDC00 <= u[1] <= 0xDFFF
            &&& (u[0] - 0xD800) * 1024 + (u[1] - 0xDC00) + 0x10000 == c as int
        },
{
    lemma_char_range(c);
    let v = c as int;
    if v >= 0x10000 {
        let w = v - 0x10000;
        vstd::arithmetic::div_mod::lemma_fundamental_div_mod(w, 1024);
        assert(0 <= w < 0x100000);
        assert(0 <= w / 1024 < 1024) by (nonlinear_arith)
            requires
                0 <= w < 0x100000,
        ;
        assert(0 <= w % 1024 < 1024);
        assert(w / 1024 * 1024 + w % 1024 == w) by (nonlinear_arith)
            requires
                w == 1024 * (w / 1024) + (w % 1024),
        ;
    }
}

/// The PTP string of a name: it exists exactly when the name has at most 254 UTF-16 units
/// and no NUL; it is the unit count with the terminator, the units least significant byte
/// first, and a zero unit.
pub proof fn law_name_encoding(name: Seq<char>)
    ensures
        name_wire(name) is Some <==> (utf16_units(name).len() <= 254 && !name.contains('\0')),
        name_wire(name) matches Some(b) ==> {
            let u = utf16_units(name);
            &&& b.len() == 2 * u.len() + 3
            &&& b[0] == u.len() + 1
            &&& forall|i: int| 0 <= i < u.len() ==> b[1 + 2 * i] + 256 * b[2 + 2 * i] == #[trigger] u[i]
            &&& b[b.len() - 2] == 0
            &&& b[b.len() - 1] == 0
        },
        is_bmp(name) ==> utf16_units(name) == name.map_values(|c: char| (c as int) as u16),
{
    let u = utf16_units(name);
    lemma_units_le(u);
    if let Some(b) = name_wire(name) {
        assert forall|i: int| 0 <= i < u.len() implies b[1 + 2 * i] + 256 * b[2 + 2 * i] == #[trigger] u[i] by {
            assert(b[1 + 2 * i] == units_le(u)[2 * i]);
            assert(b[2 + 2 * i] == units_le(u)[2 * i + 1]);
            assert(bytes::u16_at(units_le(u), 2 * i) == u[i]);
        }
    }
    if is_bmp(name) {
        lemma_bmp_units(name);
    }
}

} // verus!
