//! Tonal palettes and their JSON.

use crate::color::{is_hex_color, Color};
use crate::entries::{
    color_entries, color_object, distinct_keys, insert_color, lemma_color_entries,
    lemma_color_object_injective,
};
use crate::json::{object_entries, object_value, value_json, Json, JsonObject};
use serde_json::Value;
use vstd::prelude::*;

verus! {

/// The tones at which a palette is sampled, in ascending order.
pub const TONES: [i32; 18] = [
    0, 5, 10, 15, 20, 25, 30, 35, 40, 50, 60, 70, 80, 90, 95, 98, 99, 100,
];

/// A tonal palette: its colour at each tone of `TONES`, in the same order.
#[derive(Clone, Copy, Debug, PartialEq, Eq)]
pub struct TonalPalette {
    pub tones: [Color; 18],
}

/// The character of a decimal digit.
pub open spec fn decimal_digit(digit: int) -> char
    recommends
        0 <= digit < 10,
{
    seq!['0', '1', '2', '3', '4', '5', '6', '7', '8', '9'][digit]
}

/// A natural number in decimal notation.
pub open spec fn decimal(number: nat) -> Seq<char>
    decreases number,
{
    if number < 10 {
        seq![decimal_digit(number as int)]
    } else {
        decimal(number / 10).push(decimal_digit((number % 10) as int))
    }
}

impl TonalPalette {
    /// Samples a palette: asks for the colour at each tone of `TONES`, in
    /// ascending order, and keeps the answers.
    pub fn sample<F: Fn(i32) -> Color>(color_at: F) -> (palette: TonalPalette)
        requires
            forall|i: int| 0 <= i < 18 ==> call_requires(color_at, (#[trigger] TONES@[i],)),
        ensures
            forall|i: int|
                0 <= i < 18 ==> call_ensures(color_at, (TONES@[i],), #[trigger] palette.tones@[i]),
    {
        let mut tones = [Color { red: 0, green: 0, blue: 0 }; 18];
        let mut done: usize = 0;
        while done < 18
            invariant
                done <= 18,
                forall|i: int| 0 <= i < 18 ==> call_requires(color_at, (#[trigger] TONES@[i],)),
                forall|i: int|
                    0 <= i < done ==> call_ensures(color_at, (TONES@[i],), #[trigger] tones@[i]),
            decreases 18 - done,
        {
            tones[done] = color_at(TONES[done]);
            done += 1;
        }
        TonalPalette { tones }
    }

    /// For each tone in turn, the tone in decimal notation with the colour
    /// at that tone.
    pub open spec fn pairs(self) -> Seq<(Seq<char>, Color)> {
        Seq::new(18, |i: int| (decimal(TONES@[i] as nat), self.tones@[i]))
    }
}

/// The JSON of a tonal palette: an object with one entry for each tone, which
/// holds the text of the colour at that tone under the tone in decimal
/// notation.
pub open spec fn palette_json(palette: TonalPalette) -> Json {
    color_object(palette.pairs())
}

/// The text of a decimal digit.
fn digit_text(digit: i32) -> (text: &'static str)
    requires
        0 <= digit < 10,
    ensures
        text@ == seq![decimal_digit(digit as int)],
{
    proof {
        reveal_strlit("0");
        reveal_strlit("1");
        reveal_strlit("2");
        reveal_strlit("3");
        reveal_strlit("4");
        reveal_strlit("5");
        reveal_strlit("6");
        reveal_strlit("7");
        reveal_strlit("8");
        reveal_strlit("9");
    }
    match digit {
        0 => "0",
        1 => "1",
        2 => "2",
        3 => "3",
        4 => "4",
        5 => "5",
        6 => "6",
        7 => "7",
        8 => "8",
        _ => "9",
    }
}

/// The key of a tone: the tone in decimal notation.
fn tone_key(tone: i32) -> (key: String)
    requires
        0 <= tone,
    ensures
        key@ == decimal(tone as nat),
    decreases tone,
{
    if tone < 10 {
        digit_text(tone).to_owned()
    } else {
        let mut key = tone_key(tone / 10);
        key.append(digit_text(tone % 10));
        key
    }
}

/// Serializes a tonal palette.
pub fn tonal_palette_to_json(tonal_palette: &TonalPalette) -> (json: Value)
    ensures
        value_json(json) == palette_json(*tonal_palette),
{
    let mut object = JsonObject::new();
    let mut done: usize = 0;
    while done < 18
        invariant
            done <= 18,
            object_entries(object) == color_entries(tonal_palette.pairs(), done as int),
        decreases 18 - done,
    {
        let tone = TONES[done];
        let color = tonal_palette.tones[done];
        insert_color(&mut object, tone_key(tone), &color);
        done += 1;
    }
    object_value(object)
}

/// The keys of the JSON of a tonal palette.
pub open spec fn tone_keys() -> Set<Seq<char>> {
    set![
        "0"@, "5"@, "10"@, "15"@, "20"@, "25"@, "30"@, "35"@, "40"@, "50"@, "60"@, "70"@, "80"@,
        "90"@, "95"@, "98"@, "99"@, "100"@,
    ]
}

/// The tones in decimal notation are the eighteen keys, and no two of them
/// are the same.
pub proof fn lemma_tone_keys(palette: TonalPalette)
    ensures
        distinct_keys(palette.pairs()),
        forall|key: Seq<char>|
            tone_keys().contains(key) <==> exists|i: int|
                0 <= i < 18 && (#[trigger] palette.pairs()[i]).0 == key,
{
    reveal_with_fuel(decimal, 3);
    reveal_strlit("0");
    reveal_strlit("5");
    reveal_strlit("10");
    reveal_strlit("15");
    reveal_strlit("20");
    reveal_strlit("25");
    reveal_strlit("30");
    reveal_strlit("35");
    reveal_strlit("40");
    reveal_strlit("50");
    reveal_strlit("60");
    reveal_strlit("70");
    reveal_strlit("80");
    reveal_strlit("90");
    reveal_strlit("95");
    reveal_strlit("98");
    reveal_strlit("99");
    reveal_strlit("100");
    assert(decimal(0) =~= "0"@);
    assert(decimal(5) =~= "5"@);
    assert(decimal(10) =~= "10"@);
    assert(decimal(15) =~= "15"@);
    assert(decimal(20) =~= "20"@);
    assert(decimal(25) =~= "25"@);
    assert(decimal(30) =~= "30"@);
    assert(decimal(35) =~= "35"@);
    assert(decimal(40) =~= "40"@);
    assert(decimal(50) =~= "50"@);
    assert(decimal(60) =~= "60"@);
    assert(decimal(70) =~= "70"@);
    assert(decimal(80) =~= "80"@);
    assert(decimal(90) =~= "90"@);
    assert(decimal(95) =~= "95"@);
    assert(decimal(98) =~= "98"@);
    assert(decimal(99) =~= "99"@);
    assert(decimal(100) =~= "100"@);
    let pairs = palette.pairs();
    assert forall|i: int, j: int| 0 <= i < j < pairs.len() implies pairs[i].0 != pairs[j].0 by {
        assert(pairs[i].0.len() != pairs[j].0.len() || pairs[i].0.first() != pairs[j].0.first()
            || pairs[i].0.last() != pairs[j].0.last());
    }
    assert forall|key: Seq<char>| tone_keys().contains(key) implies exists|i: int|
        0 <= i < 18 && (#[trigger] pairs[i]).0 == key by {
        let i = choose|i: int| 0 <= i < 18 && decimal(TONES@[i] as nat) == key;
        assert(pairs[i].0 == key);
    }
}

/// The JSON of a tonal palette is an object of eighteen entries, whose keys
/// are exactly the eighteen tone keys: under the decimal notation of each tone
/// it holds the text of the colour at that tone. Every value is `#` followed
/// by six hexadecimal digits.
pub proof fn lemma_palette_json(palette: TonalPalette)
    ensures
        palette_json(palette) matches Json::Object(entries) && {
            &&& entries.dom().finite()
            &&& entries.dom().len() == 18
            &&& entries.dom() == tone_keys()
            &&& forall|i: int|
                0 <= i < 18 ==> entries[decimal(#[trigger] TONES@[i] as nat)] == Json::Text(
                    palette.tones@[i].hex(),
                )
            &&& forall|key: Seq<char>| #[trigger]
                entries.dom().contains(key) ==> (entries[key] matches Json::Text(text)
                    && is_hex_color(text))
        },
{
    lemma_tone_keys(palette);
    lemma_color_entries(palette.pairs(), 18);
    let entries = color_entries(palette.pairs(), 18);
    assert forall|i: int| 0 <= i < 18 implies entries[decimal(#[trigger] TONES@[i] as nat)]
        == Json::Text(palette.tones@[i].hex()) by {
        assert(palette.pairs()[i].0 == decimal(TONES@[i] as nat));
    }
}

/// Serializing tells palettes apart: two palettes have the same JSON exactly
/// when they are the same palette, that is, when they have the same colour
/// at every tone; and where the colours at a tone differ, the values under
/// the tone's key differ.
pub proof fn lemma_palette_json_injective(first: TonalPalette, second: TonalPalette)
    ensures
        palette_json(first) == palette_json(second) <==> first == second,
        forall|i: int|
            0 <= i < 18 && (#[trigger] first.tones@[i]) != second.tones@[i] ==> palette_json(
                first,
            )->Object_0[decimal(TONES@[i] as nat)] != palette_json(second)->Object_0[decimal(
                TONES@[i] as nat,
            )],
{
    lemma_tone_keys(first);
    lemma_color_object_injective(first.pairs(), second.pairs());
    assert forall|i: int| 0 <= i < 18 && (#[trigger] first.tones@[i]) != second.tones@[i] implies
        palette_json(first)->Object_0[decimal(TONES@[i] as nat)] != palette_json(
        second,
    )->Object_0[decimal(TONES@[i] as nat)] by {
        assert(first.pairs()[i].1 != second.pairs()[i].1);
    }
    if palette_json(first) == palette_json(second) {
        assert forall|i: int| 0 <= i < 18 implies first.tones@[i] == second.tones@[i] by {
            assert(first.pairs()[i].1 == second.pairs()[i].1);
        }
        assert(first.tones =~= second.tones);
    }
}

} // verus!
