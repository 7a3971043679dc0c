//! Themes and their JSON, as a value and as text.

use crate::json::{object_value, pretty_text, print_pretty, value_json, Json, JsonObject};
use crate::palette::{
    lemma_palette_json_injective, palette_json, tonal_palette_to_json, TonalPalette,
};
use crate::scheme::{lemma_scheme_json_injective, scheme_json, scheme_to_json, Scheme};
use serde_json::Value;
use vstd::prelude::*;

verus! {

/// The two default schemes of a theme.
#[derive(Clone, Copy, Debug, PartialEq, Eq)]
pub struct Schemes {
    pub light: Scheme,
    pub dark: Scheme,
}

/// The six tonal palettes of a theme.
#[derive(Clone, Copy, Debug, PartialEq, Eq)]
pub struct Palettes {
    pub primary: TonalPalette,
    pub secondary: TonalPalette,
    pub tertiary: TonalPalette,
    pub neutral: TonalPalette,
    pub neutral_variant: TonalPalette,
    pub error: TonalPalette,
}

/// A theme: its default schemes and its tonal palettes.
#[derive(Clone, Copy, Debug, PartialEq, Eq)]
pub struct Theme {
    pub schemes: Schemes,
    pub palettes: Palettes,
}

/// Why a theme could not be written as text.
#[derive(Clone, Copy, Debug, PartialEq, Eq, Structural)]
pub enum TextError {
    /// The JSON printer reported an error.
    Printer,
}

/// The JSON of the schemes: the two default schemes of the theme and the four
/// schemes of medium and high contrast, each under its name.
pub open spec fn schemes_json(
    theme: Theme,
    light_medium: Scheme,
    light_high: Scheme,
    dark_medium: Scheme,
    dark_high: Scheme,
) -> Json {
    Json::Object(
        map![
            "light"@ => scheme_json(theme.schemes.light),
            "dark"@ => scheme_json(theme.schemes.dark),
            "light-medium-contrast"@ => scheme_json(light_medium),
            "light-high-contrast"@ => scheme_json(light_high),
            "dark-medium-contrast"@ => scheme_json(dark_medium),
            "dark-high-contrast"@ => scheme_json(dark_high),
        ],
    )
}

/// The JSON of the palettes of a theme, each under its name.
pub open spec fn palettes_json(theme: Theme) -> Json {
    Json::Object(
        map![
            "primary"@ => palette_json(theme.palettes.primary),
            "secondary"@ => palette_json(theme.palettes.secondary),
            "tertiary"@ => palette_json(theme.palettes.tertiary),
            "error"@ => palette_json(theme.palettes.error),
            "neutral"@ => palette_json(theme.palettes.neutral),
            "neutral_variant"@ => palette_json(theme.palettes.neutral_variant),
        ],
    )
}

/// The JSON of a theme with its four schemes of medium and high contrast: the
/// schemes under `schemes`, the palettes under `palettes`.
pub open spec fn theme_json(
    theme: Theme,
    light_medium: Scheme,
    light_high: Scheme,
    dark_medium: Scheme,
    dark_high: Scheme,
) -> Json {
    Json::Object(
        map![
            "schemes"@ => schemes_json(theme, light_medium, light_high, dark_medium, dark_high),
            "palettes"@ => palettes_json(theme),
        ],
    )
}

/// Serializes a theme. The four schemes are those of light medium, light high,
/// dark medium and dark high contrast, in this order.
pub fn theme_to_json(theme: &Theme, schemes: [&Scheme; 4]) -> (json: Value)
    ensures
        value_json(json) == theme_json(
            *theme,
            *schemes@[0],
            *schemes@[1],
            *schemes@[2],
            *schemes@[3],
        ),
{
    let mut scheme_entries = JsonObject::new();
    scheme_entries.insert("light".to_owned(), scheme_to_json(&theme.schemes.light));
    scheme_entries.insert("dark".to_owned(), scheme_to_json(&theme.schemes.dark));
    scheme_entries.insert("light-medium-contrast".to_owned(), scheme_to_json(schemes[0]));
    scheme_entries.insert("light-high-contrast".to_owned(), scheme_to_json(schemes[1]));
    scheme_entries.insert("dark-medium-contrast".to_owned(), scheme_to_json(schemes[2]));
    scheme_entries.insert("dark-high-contrast".to_owned(), scheme_to_json(schemes[3]));
    let mut palette_entries = JsonObject::new();
    palette_entries.insert("primary".to_owned(), tonal_palette_to_json(&theme.palettes.primary));
    palette_entries.insert(
        "secondary".to_owned(),
        tonal_palette_to_json(&theme.palettes.secondary),
    );
    palette_entries.insert("tertiary".to_owned(), tonal_palette_to_json(&theme.palettes.tertiary));
    palette_entries.insert("error".to_owned(), tonal_palette_to_json(&theme.palettes.error));
    palette_entries.insert("neutral".to_owned(), tonal_palette_to_json(&theme.palettes.neutral));
    palette_entries.insert(
        "neutral_variant".to_owned(),
        tonal_palette_to_json(&theme.palettes.neutral_variant),
    );
    let mut entries = JsonObject::new();
    entries.insert("schemes".to_owned(), object_value(scheme_entries));
    entries.insert("palettes".to_owned(), object_value(palette_entries));
    object_value(entries)
}

/// What the text of a theme is for each outcome of the JSON printer: the
/// text that it printed, or the error that the printer failed.
pub fn printed(outcome: Result<String, serde_json::Error>) -> (text: Result<String, TextError>)
    ensures
        outcome matches Ok(output) ==> (text matches Ok(handed) && handed == output),
        outcome is Err ==> text matches Err(TextError::Printer),
{
    match outcome {
        Ok(output) => Ok(output),
        Err(_) => Err(TextError::Printer),
    }
}

/// Serializes a theme and prints the JSON as pretty text: the text is the one
/// that the JSON printer gives for the JSON of the theme, and the error is
/// returned exactly where the printer gives none.
pub fn theme_to_text(theme: &Theme, schemes: [&Scheme; 4]) -> (text: Result<String, TextError>)
    ensures
        match pretty_text(
            theme_json(*theme, *schemes@[0], *schemes@[1], *schemes@[2], *schemes@[3]),
        ) {
            Some(output) => text matches Ok(handed) && handed@ == output,
            None => text matches Err(TextError::Printer),
        },
{
    let json = theme_to_json(theme, schemes);
    printed(print_pretty(&json))
}

/// The JSON of a theme is an object of two entries, `schemes` and
/// `palettes`. The first is an object of six entries, the JSON of the two
/// default schemes and of the four schemes of medium and high contrast, each
/// under its name. The second is an object of six entries, the JSON of the
/// palettes, each under its name.
pub proof fn lemma_theme_json(
    theme: Theme,
    light_medium: Scheme,
    light_high: Scheme,
    dark_medium: Scheme,
    dark_high: Scheme,
)
    ensures
        theme_json(theme, light_medium, light_high, dark_medium, dark_high) matches Json::Object(
            entries,
        ) && {
            &&& entries.dom() == set!["schemes"@, "palettes"@]
            &&& entries.dom().len() == 2
            &&& entries["schemes"@] matches Json::Object(schemes) && {
                &&& schemes.dom() == set![
                    "light"@,
                    "dark"@,
                    "light-medium-contrast"@,
                    "light-high-contrast"@,
                    "dark-medium-contrast"@,
                    "dark-high-contrast"@,
                ]
                &&& schemes.dom().len() == 6
                &&& schemes["light"@] == scheme_json(theme.schemes.light)
                &&& schemes["dark"@] == scheme_json(theme.schemes.dark)
                &&& schemes["light-medium-contrast"@] == scheme_json(light_medium)
                &&& schemes["light-high-contrast"@] == scheme_json(light_high)
                &&& schemes["dark-medium-contrast"@] == scheme_json(dark_medium)
                &&& schemes["dark-high-contrast"@] == scheme_json(dark_high)
            }
            &&& entries["palettes"@] matches Json::Object(palettes) && {
                &&& palettes.dom() == set![
                    "primary"@,
                    "secondary"@,
                    "tertiary"@,
                    "error"@,
                    "neutral"@,
                    "neutral_variant"@,
                ]
                &&& palettes.dom().len() == 6
                &&& palettes["primary"@] == palette_json(theme.palettes.primary)
                &&& palettes["secondary"@] == palette_json(theme.palettes.secondary)
                &&& palettes["tertiary"@] == palette_json(theme.palettes.tertiary)
                &&& palettes["error"@] == palette_json(theme.palettes.error)
                &&& palettes["neutral"@] == palette_json(theme.palettes.neutral)
                &&& palettes["neutral_variant"@] == palette_json(theme.palettes.neutral_variant)
            }
        },
{
    reveal_strlit("schemes");
    reveal_strlit("palettes");
    reveal_strlit("light");
    reveal_strlit("dark");
    reveal_strlit("light-medium-contrast");
    reveal_strlit("light-high-contrast");
    reveal_strlit("dark-medium-contrast");
    reveal_strlit("dark-high-contrast");
    reveal_strlit("primary");
    reveal_strlit("secondary");
    reveal_strlit("tertiary");
    reveal_strlit("error");
    reveal_strlit("neutral");
    reveal_strlit("neutral_variant");
    // The names differ in their length, but for `primary` and `neutral`, which
    // differ in their first character.
    assert("schemes"@.len() == 7 && "palettes"@.len() == 8);
    assert("light"@.len() == 5 && "dark"@.len() == 4 && "light-medium-contrast"@.len() == 21
        && "light-high-contrast"@.len() == 19 && "dark-medium-contrast"@.len() == 20
        && "dark-high-contrast"@.len() == 18);
    assert("primary"@.len() == 7 && "secondary"@.len() == 9 && "tertiary"@.len() == 8
        && "error"@.len() == 5 && "neutral"@.len() == 7 && "neutral_variant"@.len() == 15);
    assert("primary"@[0] != "neutral"@[0]);
}

/// Serializing tells themes apart: two runs give the same JSON only on the
/// same theme and the same four schemes.
pub proof fn lemma_theme_json_injective(
    theme: Theme,
    schemes: Seq<Scheme>,
    other: Theme,
    other_schemes: Seq<Scheme>,
)
    requires
        schemes.len() == 4,
        other_schemes.len() == 4,
        theme_json(theme, schemes[0], schemes[1], schemes[2], schemes[3]) == theme_json(
            other,
            other_schemes[0],
            other_schemes[1],
            other_schemes[2],
            other_schemes[3],
        ),
    ensures
        theme == other,
        schemes == other_schemes,
{
    lemma_theme_json(theme, schemes[0], schemes[1], schemes[2], schemes[3]);
    lemma_theme_json(other, other_schemes[0], other_schemes[1], other_schemes[2], other_schemes[3]);
    lemma_scheme_json_injective(theme.schemes.light, other.schemes.light);
    lemma_scheme_json_injective(theme.schemes.dark, other.schemes.dark);
    lemma_scheme_json_injective(schemes[0], other_schemes[0]);
    lemma_scheme_json_injective(schemes[1], other_schemes[1]);
    lemma_scheme_json_injective(schemes[2], other_schemes[2]);
    lemma_scheme_json_injective(schemes[3], other_schemes[3]);
    lemma_palette_json_injective(theme.palettes.primary, other.palettes.primary);
    lemma_palette_json_injective(theme.palettes.secondary, other.palettes.secondary);
    lemma_palette_json_injective(theme.palettes.tertiary, other.palettes.tertiary);
    lemma_palette_json_injective(theme.palettes.neutral, other.palettes.neutral);
    lemma_palette_json_injective(theme.palettes.neutral_variant, other.palettes.neutral_variant);
    lemma_palette_json_injective(theme.palettes.error, other.palettes.error);
}

/// Serializing is a function of what is serialized: two runs on the same
/// theme and the same four schemes give the same JSON and the same text.
pub proof fn lemma_theme_json_deterministic(
    theme: Theme,
    schemes: Seq<Scheme>,
    again: Theme,
    schemes_again: Seq<Scheme>,
)
    requires
        schemes.len() == 4,
        theme == again,
        schemes == schemes_again,
    ensures
        theme_json(theme, schemes[0], schemes[1], schemes[2], schemes[3]) == theme_json(
            again,
            schemes_again[0],
            schemes_again[1],
            schemes_again[2],
            schemes_again[3],
        ),
        pretty_text(theme_json(theme, schemes[0], schemes[1], schemes[2], schemes[3]))
            == pretty_text(
            theme_json(
                again,
                schemes_again[0],
                schemes_again[1],
                schemes_again[2],
                schemes_again[3],
            ),
        ),
{
}

} // verus!
