//! The messages of the errors that name a slot, a setting or a property.
use vstd::prelude::*;

verus! {

/// The decimal digit `d` (0-9).
pub open spec fn digit_char(d: int) -> char {
    (48 + d) as char
}

/// The upper-case hexadecimal digit `d` (0-15).
pub open spec fn hex_char(d: int) -> char {
    if d < 10 {
        (48 + d) as char
    } else {
        (55 + d) as char
    }
}

/// `n` in decimal, without leading zeros.
pub open spec fn decimal(n: nat) -> Seq<char>
    decreases n,
{
    if n < 10 {
        seq![digit_char(n as int)]
    } else {
        decimal(n / 10).push(digit_char((n % 10) as int))
    }
}

/// `v` as four upper-case hexadecimal digits.
pub open spec fn hex4(v: u16) -> Seq<char> {
    seq![
        hex_char((v / 4096) as int),
        hex_char(((v / 256) % 16) as int),
        hex_char(((v / 16) % 16) as int),
        hex_char((v % 16) as int),
    ]
}

/// "slot C" and the slot number.
pub open spec fn slot_prefix(slot: u8) -> Seq<char> {
    "slot C"@ + decimal(slot as nat)
}

/// The message for an unreadable slot name.
pub open spec fn name_message(slot: u8) -> Seq<char> {
    slot_prefix(slot) + " name"@
}

/// The message for a property whose value is not a 16-bit word.
pub open spec fn property_message(slot: u8, property: u16) -> Seq<char> {
    slot_prefix(slot) + " property 0x"@ + hex4(property)
}

/// The message for a setting whose stored value has no meaning, value in decimal.
pub open spec fn value_message(slot: u8, what: Seq<char>, value: u16) -> Seq<char> {
    slot_prefix(slot) + " "@ + what + " "@ + decimal(value as nat)
}

/// The message for a setting whose stored value has no meaning, value in hexadecimal.
pub open spec fn hex_value_message(slot: u8, what: Seq<char>, value: u16) -> Seq<char> {
    slot_prefix(slot) + " "@ + what + " 0x"@ + hex4(value)
}

/// The message for a property write that the camera answered with `code`.
pub open spec fn write_message(property: u16, code: u16) -> Seq<char> {
    "write property 0x"@ + hex4(property) + ": camera response 0x"@ + hex4(code)
}

/// Appends one character (`String::push`).
#[verifier::external_body]
pub(crate) fn push_char(s: &mut String, c: char)
    ensures
        final(s)@ == old(s)@.push(c),
{
    s.push(c);
}

fn digit(d: u16) -> (c: char)
    requires
        d < 10,
    ensures
        c == digit_char(d as int),
{
    (48 + d as u8) as char
}

fn hex_digit(d: u16) -> (c: char)
    requires
        d < 16,
    ensures
        c == hex_char(d as int),
{
    if d < 10 {
        (48 + d as u8) as char
    } else {
        (55 + d as u8) as char
    }
}

/// Appends `n` in decimal.
pub fn push_decimal(s: &mut String, n: u16)
    ensures
        final(s)@ == old(s)@ + decimal(n as nat),
    decreases n,
{
    if n >= 10 {
        push_decimal(s, n / 10);
    }
    push_char(s, digit(n % 10));
    assert(s@ =~= old(s)@ + decimal(n as nat));
}

/// Appends `v` as four hexadecimal digits.
pub fn push_hex4(s: &mut String, v: u16)
    ensures
        final(s)@ == old(s)@ + hex4(v),
{
    push_char(s, hex_digit(v / 4096));
    push_char(s, hex_digit((v / 256) % 16));
    push_char(s, hex_digit((v / 16) % 16));
    push_char(s, hex_digit(v % 16));
    assert(s@ =~= old(s)@ + hex4(v));
}

fn slot_text(slot: u8) -> (s: String)
    ensures
        s@ == slot_prefix(slot),
{
    let mut s = String::new();
    s.append("slot C");
    push_decimal(&mut s, slot as u16);
    s
}

pub fn name_text(slot: u8) -> (s: String)
    ensures
        s@ == name_message(slot),
{
    let mut s = slot_text(slot);
    s.append(" name");
    s
}

pub fn property_text(slot: u8, property: u16) -> (s: String)
    ensures
        s@ == property_message(slot, property),
{
    let mut s = slot_text(slot);
    s.append(" property 0x");
    push_hex4(&mut s, property);
    s
}

pub fn value_text(slot: u8, what: &str, value: u16) -> (s: String)
    ensures
        s@ == value_message(slot, what@, value),
{
    let mut s = slot_text(slot);
    s.append(" ");
    s.append(what);
    s.append(" ");
    push_decimal(&mut s, value);
    s
}

pub fn hex_value_text(slot: u8, what: &str, value: u16) -> (s: String)
    ensures
        s@ == hex_value_message(slot, what@, value),
{
    let mut s = slot_text(slot);
    s.append(" ");
    s.append(what);
    s.append(" 0x");
    push_hex4(&mut s, value);
    s
}

pub fn write_text(property: u16, code: u16) -> (s: String)
    ensures
        s@ == write_message(property, code),
{
    let mut s = String::new();
    s.append("write property 0x");
    push_hex4(&mut s, property);
    s.append(": camera response 0x");
    push_hex4(&mut s, code);
    s
}

} // verus!
