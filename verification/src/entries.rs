//! Objects that hold the texts of colours under keys.

use crate::color::{hex_text, is_hex_color, lemma_hex_injective, Color};
use crate::json::{object_entries, text_value, Json, JsonObject};
use vstd::prelude::*;

verus! {

/// The entries that hold, for each of the first `count` pairs in turn, the
/// text of the pair's colour under the pair's key.
pub open spec fn color_entries(pairs: Seq<(Seq<char>, Color)>, count: int) -> Map<Seq<char>, Json>
    decreases count,
{
    if count <= 0 {
        Map::empty()
    } else {
        color_entries(pairs, count - 1).insert(
            pairs[count - 1].0,
            Json::Text(pairs[count - 1].1.hex()),
        )
    }
}

/// The object of all the pairs.
pub open spec fn color_object(pairs: Seq<(Seq<char>, Color)>) -> Json {
    Json::Object(color_entries(pairs, pairs.len() as int))
}

/// Whether no two pairs have the same key.
pub open spec fn distinct_keys(pairs: Seq<(Seq<char>, Color)>) -> bool {
    forall|i: int, j: int| 0 <= i < j < pairs.len() ==> pairs[i].0 != pairs[j].0
}

/// Stores the text of a colour under a key.
pub fn insert_color(object: &mut JsonObject, key: String, color: &Color)
    ensures
        object_entries(*final(object)) == object_entries(*old(object)).insert(
            key@,
            Json::Text(color.hex()),
        ),
{
    let text = hex_text(color);
    object.insert(key, text_value(text));
}

/// The keys of the entries are the keys of the pairs, and every value is the
/// text of a colour. Where the keys are distinct there is one entry for each
/// pair, and it holds the text of that pair's colour.
pub proof fn lemma_color_entries(pairs: Seq<(Seq<char>, Color)>, count: int)
    requires
        0 <= count <= pairs.len(),
    ensures
        color_entries(pairs, count).dom().finite(),
        forall|key: Seq<char>|
            color_entries(pairs, count).dom().contains(key) <==> exists|i: int|
                0 <= i < count && #[trigger] pairs[i].0 == key,
        forall|key: Seq<char>| #[trigger]
            color_entries(pairs, count).dom().contains(key) ==> (color_entries(
                pairs,
                count,
            )[key] matches Json::Text(text) && is_hex_color(text)),
        distinct_keys(pairs) ==> color_entries(pairs, count).dom().len() == count,
        distinct_keys(pairs) ==> forall|i: int|
            0 <= i < count ==> color_entries(pairs, count)[#[trigger] pairs[i].0] == Json::Text(
                pairs[i].1.hex(),
            ),
    decreases count,
{
    if count > 0 {
        lemma_color_entries(pairs, count - 1);
    }
}

/// Two lists of pairs with the same distinct keys give the same object
/// exactly when they pair every key with the same colour; where the colours
/// of a key differ, the values under the key differ.
pub proof fn lemma_color_object_injective(
    left: Seq<(Seq<char>, Color)>,
    right: Seq<(Seq<char>, Color)>,
)
    requires
        left.len() == right.len(),
        distinct_keys(left),
        forall|i: int| 0 <= i < left.len() ==> (#[trigger] left[i]).0 == right[i].0,
    ensures
        color_object(left) == color_object(right) <==> forall|i: int|
            0 <= i < left.len() ==> (#[trigger] left[i]).1 == right[i].1,
        forall|i: int|
            0 <= i < left.len() && (#[trigger] left[i]).1 != right[i].1 ==> color_entries(
                left,
                left.len() as int,
            )[left[i].0] != color_entries(right, right.len() as int)[left[i].0],
{
    let count = left.len() as int;
    assert forall|i: int, j: int| 0 <= i < j < right.len() implies right[i].0 != right[j].0 by {
        assert(left[i].0 == right[i].0 && left[j].0 == right[j].0);
    }
    lemma_color_entries(left, count);
    lemma_color_entries(right, count);
    assert forall|i: int| 0 <= i < count && (#[trigger] left[i]).1 != right[i].1 implies color_entries(
        left,
        count,
    )[left[i].0] != color_entries(right, count)[left[i].0] by {
        lemma_hex_injective(left[i].1, right[i].1);
        assert(color_entries(right, count)[right[i].0] == Json::Text(right[i].1.hex()));
    }
    if forall|i: int| 0 <= i < count ==> (#[trigger] left[i]).1 == right[i].1 {
        assert(left =~= right);
    }
}

} // verus!
