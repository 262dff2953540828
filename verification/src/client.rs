//! The rules of the desktop test client: which slot an argument names, how the name test
//! renames the presets, and the recipes that the write tests store.
use vstd::prelude::*;
use crate::ptp::text;
use crate::recipe::{EffectStrength, FilmSimulation, GrainEffect, Recipe, RecipeView};

verus! {

pub open spec fn is_digit(c: char) -> bool {
    '0' <= c <= '9'
}

/// The number that a string of decimal digits writes.
pub open spec fn digits_value(s: Seq<char>) -> nat
    decreases s.len(),
{
    if s.len() == 0 {
        0
    } else {
        digits_value(s.drop_last()) * 10 + ((s.last() as int) - 48) as nat
    }
}

/// `s` without a leading `+`.
pub open spec fn strip_plus(s: Seq<char>) -> Seq<char> {
    if s.len() > 0 && s[0] == '+' {
        s.drop_first()
    } else {
        s
    }
}

/// `s` without a leading `C`.
pub open spec fn strip_slot_letter(s: Seq<char>) -> Seq<char> {
    if s.len() > 0 && s[0] == 'C' {
        s.drop_first()
    } else {
        s
    }
}

/// The value of a non-empty string of decimal digits that is at most 255.
pub open spec fn digits_u8(t: Seq<char>) -> Option<u8> {
    if t.len() > 0 && (forall|i: int| 0 <= i < t.len() ==> is_digit(#[trigger] t[i]))
        && digits_value(t) <= 255 {
        Some(digits_value(t) as u8)
    } else {
        None
    }
}

/// A `u8` in the syntax that `str::parse::<u8>` accepts: an optional `+`, then at least one
/// decimal digit, and a value of at most 255.
pub open spec fn u8_text(s: Seq<char>) -> Option<u8> {
    digits_u8(strip_plus(s))
}

/// The slot that a command-line argument names: `C7` or `7`, for slots 1 to 7.
pub open spec fn slot_argument(s: Seq<char>) -> Option<u8> {
    match u8_text(strip_slot_letter(s)) {
        Some(v) => if 1 <= v <= 7 {
            Some(v)
        } else {
            None
        },
        None => None,
    }
}

proof fn lemma_digits_monotone(s: Seq<char>)
    requires
        forall|i: int| 0 <= i < s.len() ==> is_digit(#[trigger] s[i]),
        s.len() > 0,
    ensures
        digits_value(s.drop_last()) <= digits_value(s),
{
}

/// The slot that a command-line argument names.
#[verifier::spinoff_prover]
#[verifier::rlimit(30)]
pub fn parse_slot(arg: &str) -> (slot: Option<u8>)
    ensures
        slot == slot_argument(arg@),
{
    let ghost s = arg@;
    let n = arg.unicode_len();
    let mut i: usize = 0;
    if n > 0 && arg.get_char(0) == 'C' {
        i = 1;
    }
    let ghost t = s.skip(i as int);
    assert(t =~= strip_slot_letter(s));
    let start = i;
    if i < n && arg.get_char(i) == '+' {
        i = i + 1;
    }
    let ghost u = s.skip(i as int);
    assert(u =~= strip_plus(t));
    if i >= n {
        return None;
    }
    let first = i;
    let mut value: u16 = 0;
    while i < n
        invariant
            s == arg@,
            n == s.len(),
            first <= i <= n,
            first < n,
            u == s.skip(first as int),
            t == strip_slot_letter(s),
            u == strip_plus(t),
            forall|k: int| 0 <= k < i - first ==> is_digit(#[trigger] u[k]),
            value as nat == digits_value(u.take(i - first)),
            value <= 255,
        decreases n - i,
    {
        let c = arg.get_char(i);
        assert(u[i - first] == c);
        if !('0' <= c && c <= '9') {
            assert(!is_digit(u[i - first]));
            return None;
        }
        assert(u.take(i + 1 - first).drop_last() =~= u.take(i - first));
        let d = (c as u32 - 48) as u16;
        if value * 10 + d > 255 {
            proof {
                let k = i + 1 - first;
                assert(u.take(k)[k - 1] == c);
                assert(digits_value(u.take(k)) > 255);
                assert forall|j: int| k <= j <= u.len() implies digits_value(u.take(j)) > 255 by {
                    lemma_digits_past(u, k, j);
                }
                assert(u.take(u.len() as int) =~= u);
                if forall|m: int| 0 <= m < u.len() ==> is_digit(#[trigger] u[m]) {
                    assert(digits_value(u) > 255);
                }
            }
            return None;
        }
        value = value * 10 + d;
        i = i + 1;
    }
    assert(u.take(n - first) =~= u);
    if 1 <= value && value <= 7 {
        Some(value as u8)
    } else {
        None
    }
}

proof fn lemma_digits_past(u: Seq<char>, k: int, j: int)
    requires
        1 <= k <= j <= u.len(),
        digits_value(u.take(k)) > 255,
    ensures
        digits_value(u.take(j)) > 255,
    decreases j - k,
{
    if j > k {
        lemma_digits_past(u, k, j - 1);
        assert(u.take(j).drop_last() =~= u.take(j - 1));
    }
}

/// The name that the name test gives preset `index` (0-based): its number, then a space and
/// the old name unless that is empty.
pub open spec fn numbered(index: nat, name: Seq<char>) -> Seq<char> {
    if name.len() == 0 {
        text::decimal(index + 1)
    } else {
        text::decimal(index + 1) + " "@ + name
    }
}

pub fn numbered_name(index: u16, name: &str) -> (s: String)
    requires
        index < u16::MAX,
    ensures
        s@ == numbered(index as nat, name@),
{
    let mut s = String::new();
    text::push_decimal(&mut s, index + 1);
    if name.unicode_len() > 0 {
        s.append(" ");
        s.append(name);
    }
    s
}

/// The recipe that the slot test writes: the default recipe named "TEST C" and the slot.
pub fn test_slot_recipe(slot: u8) -> (r: Recipe)
    ensures
        r@ == crate::recipe::recipe::default_recipe("TEST C"@ + text::decimal(slot as nat)),
{
    let mut name = String::new();
    name.append("TEST C");
    text::push_decimal(&mut name, slot as u16);
    Recipe::new(name)
}

/// The recipe of known values that the value test writes and reads back.
pub open spec fn test_values(slot: u8) -> RecipeView {
    let d = crate::recipe::recipe::default_recipe("TEST VALUES C"@ + text::decimal(slot as nat));
    RecipeView {
        film_simulation: FilmSimulation::Velvia,
        grain_effect: GrainEffect::StrongSmall,
        color_chrome: EffectStrength::Weak,
        color_chrome_fx_blue: EffectStrength::Weak,
        highlight: 10,
        shadow: -10i16,
        color: 20,
        sharpness: 10,
        clarity: 10,
        noise_reduction: -1i8,
        ..d
    }
}

pub fn test_values_recipe(slot: u8) -> (r: Recipe)
    ensures
        r@ == test_values(slot),
{
    let mut name = String::new();
    name.append("TEST VALUES C");
    text::push_decimal(&mut name, slot as u16);
    let mut recipe = Recipe::new(name);
    recipe.film_simulation = FilmSimulation::Velvia;
    recipe.grain_effect = GrainEffect::StrongSmall;
    recipe.color_chrome = EffectStrength::Weak;
    recipe.color_chrome_fx_blue = EffectStrength::Weak;
    recipe.highlight = 10;
    recipe.shadow = -10;
    recipe.color = 20;
    recipe.sharpness = 10;
    recipe.clarity = 10;
    recipe.noise_reduction = -1;
    recipe
}

/// A slot argument is a slot number 1 to 7, with or without "C" before it and "+" before
/// the digit: "C7", "7" and "C+7" all name slot 7, while 0, 8 and 9 name no slot.
pub proof fn law_slot_argument(d: char)
    requires
        '0' <= d <= '9',
    ensures
        ('1' <= d <= '7') ==> {
            &&& slot_argument(seq!['C', d]) == Some((d as int - 48) as u8)
            &&& slot_argument(seq![d]) == Some((d as int - 48) as u8)
            &&& slot_argument(seq!['C', '+', d]) == Some((d as int - 48) as u8)
        },
        !('1' <= d <= '7') ==> slot_argument(seq!['C', d]) is None && slot_argument(seq![d]) is None,
{
    assert(strip_slot_letter(seq!['C', d]) =~= seq![d]);
    assert(strip_slot_letter(seq!['C', '+', d]) =~= seq!['+', d]);
    assert(strip_plus(seq!['+', d]) =~= seq![d]);
    assert(seq![d].drop_last() =~= Seq::<char>::empty());
    assert(digits_value(Seq::<char>::empty()) == 0);
    assert(digits_value(seq![d]) == d as int - 48);
}

/// The name test numbers preset `index` (from 0) as `index + 1`, followed by a space and
/// the old name unless that is empty.
pub proof fn law_numbered(index: nat, name: Seq<char>)
    ensures
        name.len() == 0 ==> numbered(index, name) == text::decimal(index + 1),
        name.len() > 0 ==> numbered(index, name) == text::decimal(index + 1) + " "@ + name,
{
}

/// The value test writes Velvia, strong small grain, weak Color Chrome and FX Blue,
/// highlight +1, shadow -1, color +2, sharpness +1, clarity +1 and High ISO NR -1, under the
/// name "TEST VALUES C" and the slot, everything else as a new recipe has it.
pub proof fn law_test_values(slot: u8)
    ensures
        test_values(slot).name == "TEST VALUES C"@ + text::decimal(slot as nat),
        test_values(slot).film_simulation == FilmSimulation::Velvia,
        test_values(slot).grain_effect == GrainEffect::StrongSmall,
        test_values(slot).color_chrome == EffectStrength::Weak,
        test_values(slot).color_chrome_fx_blue == EffectStrength::Weak,
        test_values(slot).highlight == 10,
        test_values(slot).shadow == -10,
        test_values(slot).color == 20,
        test_values(slot).sharpness == 10,
        test_values(slot).clarity == 10,
        test_values(slot).noise_reduction == -1,
        test_values(slot).dynamic_range_priority == 0,
        test_values(slot).exposure == 0,
        test_values(slot).monochrome_wc == 0,
        test_values(slot).monochrome_mg == 0,
{
}

} // verus!
