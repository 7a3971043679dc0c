//! Colours and their text: `#` and six hexadecimal digits.

use vstd::prelude::*;

verus! {

/// A colour of the sRGB space, without transparency.
#[derive(Clone, Copy, Debug, PartialEq, Eq, Structural)]
pub struct Color {
    pub red: u8,
    pub green: u8,
    pub blue: u8,
}

/// The lower-case hexadecimal digit of a value below sixteen.
pub open spec fn hex_digit(value: int) -> char
    recommends
        0 <= value < 16,
{
    seq!['0', '1', '2', '3', '4', '5', '6', '7', '8', '9', 'a', 'b', 'c', 'd', 'e', 'f'][value]
}

/// The two hexadecimal digits of a channel, high digit first.
pub open spec fn hex_pair(channel: u8) -> Seq<char> {
    seq![hex_digit(channel as int / 16), hex_digit(channel as int % 16)]
}

/// Whether a character is a hexadecimal digit of either case.
pub open spec fn is_hex_digit(c: char) -> bool {
    ||| '0' <= c <= '9'
    ||| 'a' <= c <= 'f'
    ||| 'A' <= c <= 'F'
}

/// Whether a text is `#` followed by exactly six hexadecimal digits.
pub open spec fn is_hex_color(text: Seq<char>) -> bool {
    &&& text.len() == 7
    &&& text[0] == '#'
    &&& forall|i: int| 1 <= i < 7 ==> is_hex_digit(#[trigger] text[i])
}

impl Color {
    /// The colour as text: `#`, then the red, green and blue channels, two
    /// lower-case hexadecimal digits each.
    pub open spec fn hex(self) -> Seq<char> {
        seq!['#'] + hex_pair(self.red) + hex_pair(self.green) + hex_pair(self.blue)
    }
}

/// The text of a colour has the shape `#` and six hexadecimal digits.
pub proof fn lemma_hex_is_hex_color(color: Color)
    ensures
        is_hex_color(color.hex()),
{
}

/// Two colours have the same text exactly when they are the same colour.
pub proof fn lemma_hex_injective(a: Color, b: Color)
    ensures
        a.hex() == b.hex() <==> a == b,
{
    if a.hex() == b.hex() {
        // The digits of each channel stand at the same places in both texts.
        assert(a.hex().subrange(1, 3) =~= hex_pair(a.red));
        assert(b.hex().subrange(1, 3) =~= hex_pair(b.red));
        assert(a.hex().subrange(3, 5) =~= hex_pair(a.green));
        assert(b.hex().subrange(3, 5) =~= hex_pair(b.green));
        assert(a.hex().subrange(5, 7) =~= hex_pair(a.blue));
        assert(b.hex().subrange(5, 7) =~= hex_pair(b.blue));
    }
}

/// Calls `material_colors::color::Argb::to_hex_with_pound` on the colour of
/// these three channels. The call returns `#` followed by the red, green and
/// blue channels, each as two lower-case hexadecimal digits; the alpha channel
/// does not appear in it.
#[verifier::external_body]
pub(crate) fn hex_text(color: &Color) -> (text: String)
    ensures
        text@ == color.hex(),
{
    let rgb = material_colors::color::Rgb::new(color.red, color.green, color.blue);
    material_colors::color::Argb::from(rgb).to_hex_with_pound()
}

} // verus!
