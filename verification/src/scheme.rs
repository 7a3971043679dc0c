//! Colour schemes and their JSON.

use crate::color::{is_hex_color, Color};
use crate::entries::{
    color_entries, color_object, distinct_keys, insert_color, lemma_color_entries,
    lemma_color_object_injective,
};
use crate::json::{object_entries, object_value, value_json, Json, JsonObject};
use serde_json::Value;
use vstd::prelude::*;

verus! {

/// A colour scheme: one colour for each of the forty-eight roles.
#[derive(Clone, Copy, Debug, PartialEq, Eq, Structural)]
pub struct Scheme {
    pub primary: Color,
    pub on_primary: Color,
    pub primary_container: Color,
    pub on_primary_container: Color,
    pub inverse_primary: Color,
    pub primary_fixed: Color,
    pub primary_fixed_dim: Color,
    pub on_primary_fixed: Color,
    pub on_primary_fixed_variant: Color,
    pub secondary: Color,
    pub on_secondary: Color,
    pub secondary_container: Color,
    pub on_secondary_container: Color,
    pub secondary_fixed: Color,
    pub secondary_fixed_dim: Color,
    pub on_secondary_fixed: Color,
    pub on_secondary_fixed_variant: Color,
    pub tertiary: Color,
    pub on_tertiary: Color,
    pub tertiary_container: Color,
    pub on_tertiary_container: Color,
    pub tertiary_fixed: Color,
    pub tertiary_fixed_dim: Color,
    pub on_tertiary_fixed: Color,
    pub on_tertiary_fixed_variant: Color,
    pub error: Color,
    pub on_error: Color,
    pub error_container: Color,
    pub on_error_container: Color,
    pub surface_dim: Color,
    pub surface: Color,
    pub surface_bright: Color,
    pub surface_container_lowest: Color,
    pub surface_container_low: Color,
    pub surface_container: Color,
    pub surface_container_high: Color,
    pub surface_container_highest: Color,
    pub on_surface: Color,
    pub on_surface_variant: Color,
    pub outline: Color,
    pub outline_variant: Color,
    pub inverse_surface: Color,
    pub inverse_on_surface: Color,
    pub surface_variant: Color,
    pub background: Color,
    pub on_background: Color,
    pub shadow: Color,
    pub scrim: Color,
}

impl Scheme {
    /// The roles in the order of the fields: the key of each role in the JSON
    /// object of a scheme, and the colour that this scheme gives the role.
    pub open spec fn roles(self) -> Seq<(Seq<char>, Color)> {
        seq![
            ("primary"@, self.primary),
            ("onPrimary"@, self.on_primary),
            ("primaryContainer"@, self.primary_container),
            ("onPrimaryContainer"@, self.on_primary_container),
            ("inversePrimary"@, self.inverse_primary),
            ("primaryFixed"@, self.primary_fixed),
            ("primaryFixedDim"@, self.primary_fixed_dim),
            ("onPrimaryFixed"@, self.on_primary_fixed),
            ("onPrimaryFixedVariant"@, self.on_primary_fixed_variant),
            ("secondary"@, self.secondary),
            ("onSecondary"@, self.on_secondary),
            ("secondaryContainer"@, self.secondary_container),
            ("onSecondaryContainer"@, self.on_secondary_container),
            ("secondaryFixed"@, self.secondary_fixed),
            ("secondaryFixedDim"@, self.secondary_fixed_dim),
            ("onSecondaryFixed"@, self.on_secondary_fixed),
            ("onSecondaryFixedVariant"@, self.on_secondary_fixed_variant),
            ("tertiary"@, self.tertiary),
            ("onTertiary"@, self.on_tertiary),
            ("tertiaryContainer"@, self.tertiary_container),
            ("onTertiaryContainer"@, self.on_tertiary_container),
            ("tertiaryFixed"@, self.tertiary_fixed),
            ("tertiaryFixedDim"@, self.tertiary_fixed_dim),
            ("onTertiaryFixed"@, self.on_tertiary_fixed),
            ("onTertiaryFixedVariant"@, self.on_tertiary_fixed_variant),
            ("error"@, self.error),
            ("onError"@, self.on_error),
            ("errorContainer"@, self.error_container),
            ("onErrorContainer"@, self.on_error_container),
            ("surfaceDim"@, self.surface_dim),
            ("surface"@, self.surface),
            ("surfaceBright"@, self.surface_bright),
            ("surfaceContainerLowest"@, self.surface_container_lowest),
            ("surfaceContainerLow"@, self.surface_container_low),
            ("surfaceContainer"@, self.surface_container),
            ("surfaceContainerHigh"@, self.surface_container_high),
            ("surfaceContainerHighest"@, self.surface_container_highest),
            ("onSurface"@, self.on_surface),
            ("onSurfaceVariant"@, self.on_surface_variant),
            ("outline"@, self.outline),
            ("outlineVariant"@, self.outline_variant),
            ("inverseSurface"@, self.inverse_surface),
            ("inverseOnSurface"@, self.inverse_on_surface),
            ("surfaceVariant"@, self.surface_variant),
            ("background"@, self.background),
            ("onBackground"@, self.on_background),
            ("shadow"@, self.shadow),
            ("scrim"@, self.scrim),
        ]
    }

    /// The roles as values: each role's key and colour.
    pub fn role_table(&self) -> (table: [(&'static str, Color); 48])
        ensures
            table@.len() == self.roles().len(),
            forall|i: int|
                0 <= i < 48 ==> (#[trigger] table@[i]).0@ == self.roles()[i].0 && table@[i].1
                    == self.roles()[i].1,
    {
        [
            ("primary", self.primary),
            ("onPrimary", self.on_primary),
            ("primaryContainer", self.primary_container),
            ("onPrimaryContainer", self.on_primary_container),
            ("inversePrimary", self.inverse_primary),
            ("primaryFixed", self.primary_fixed),
            ("primaryFixedDim", self.primary_fixed_dim),
            ("onPrimaryFixed", self.on_primary_fixed),
            ("onPrimaryFixedVariant", self.on_primary_fixed_variant),
            ("secondary", self.secondary),
            ("onSecondary", self.on_secondary),
            ("secondaryContainer", self.secondary_container),
            ("onSecondaryContainer", self.on_secondary_container),
            ("secondaryFixed", self.secondary_fixed),
            ("secondaryFixedDim", self.secondary_fixed_dim),
            ("onSecondaryFixed", self.on_secondary_fixed),
            ("onSecondaryFixedVariant", self.on_secondary_fixed_variant),
            ("tertiary", self.tertiary),
            ("onTertiary", self.on_tertiary),
            ("tertiaryContainer", self.tertiary_container),
            ("onTertiaryContainer", self.on_tertiary_container),
            ("tertiaryFixed", self.tertiary_fixed),
            ("tertiaryFixedDim", self.tertiary_fixed_dim),
            ("onTertiaryFixed", self.on_tertiary_fixed),
            ("onTertiaryFixedVariant", self.on_tertiary_fixed_variant),
            ("error", self.error),
            ("onError", self.on_error),
            ("errorContainer", self.error_container),
            ("onErrorContainer", self.on_error_container),
            ("surfaceDim", self.surface_dim),
            ("surface", self.surface),
            ("surfaceBright", self.surface_bright),
            ("surfaceContainerLowest", self.surface_container_lowest),
            ("surfaceContainerLow", self.surface_container_low),
            ("surfaceContainer", self.surface_container),
            ("surfaceContainerHigh", self.surface_container_high),
            ("surfaceContainerHighest", self.surface_container_highest),
            ("onSurface", self.on_surface),
            ("onSurfaceVariant", self.on_surface_variant),
            ("outline", self.outline),
            ("outlineVariant", self.outline_variant),
            ("inverseSurface", self.inverse_surface),
            ("inverseOnSurface", self.inverse_on_surface),
            ("surfaceVariant", self.surface_variant),
            ("background", self.background),
            ("onBackground", self.on_background),
            ("shadow", self.shadow),
            ("scrim", self.scrim),
        ]
    }
}

/// The JSON of a scheme: an object with one entry for each role, which holds
/// the text of the role's colour under the role's key.
pub open spec fn scheme_json(scheme: Scheme) -> Json {
    color_object(scheme.roles())
}

/// Serializes a scheme.
pub fn scheme_to_json(scheme: &Scheme) -> (json: Value)
    ensures
        value_json(json) == scheme_json(*scheme),
{
    let table = scheme.role_table();
    let mut object = JsonObject::new();
    let mut done: usize = 0;
    while done < 48
        invariant
            done <= 48,
            scheme.roles().len() == 48,
            table@.len() == 48,
            forall|i: int|
                0 <= i < 48 ==> (#[trigger] table@[i]).0@ == scheme.roles()[i].0 && table@[i].1
                    == scheme.roles()[i].1,
            object_entries(object) == color_entries(scheme.roles(), done as int),
        decreases 48 - done,
    {
        let (key, color) = table[done];
        insert_color(&mut object, key.to_owned(), &color);
        done += 1;
    }
    object_value(object)
}

/// The length of a text with its first and its last character.
spec fn marks(text: Seq<char>) -> (nat, char, char) {
    (text.len(), text.first(), text.last())
}

/// No two roles have the same key: the keys differ in their length, their
/// first character or their last.
pub proof fn lemma_role_keys_distinct(scheme: Scheme)
    ensures
        distinct_keys(scheme.roles()),
{
    reveal_strlit("primary");
    reveal_strlit("onPrimary");
    reveal_strlit("primaryContainer");
    reveal_strlit("onPrimaryContainer");
    reveal_strlit("inversePrimary");
    reveal_strlit("primaryFixed");
    reveal_strlit("primaryFixedDim");
    reveal_strlit("onPrimaryFixed");
    reveal_strlit("onPrimaryFixedVariant");
    reveal_strlit("secondary");
    reveal_strlit("onSecondary");
    reveal_strlit("secondaryContainer");
    reveal_strlit("onSecondaryContainer");
    reveal_strlit("secondaryFixed");
    reveal_strlit("secondaryFixedDim");
    reveal_strlit("onSecondaryFixed");
    reveal_strlit("onSecondaryFixedVariant");
    reveal_strlit("tertiary");
    reveal_strlit("onTertiary");
    reveal_strlit("tertiaryContainer");
    reveal_strlit("onTertiaryContainer");
    reveal_strlit("tertiaryFixed");
    reveal_strlit("tertiaryFixedDim");
    reveal_strlit("onTertiaryFixed");
    reveal_strlit("onTertiaryFixedVariant");
    reveal_strlit("error");
    reveal_strlit("onError");
    reveal_strlit("errorContainer");
    reveal_strlit("onErrorContainer");
    reveal_strlit("surfaceDim");
    reveal_strlit("surface");
    reveal_strlit("surfaceBright");
    reveal_strlit("surfaceContainerLowest");
    reveal_strlit("surfaceContainerLow");
    reveal_strlit("surfaceContainer");
    reveal_strlit("surfaceContainerHigh");
    reveal_strlit("surfaceContainerHighest");
    reveal_strlit("onSurface");
    reveal_strlit("onSurfaceVariant");
    reveal_strlit("outline");
    reveal_strlit("outlineVariant");
    reveal_strlit("inverseSurface");
    reveal_strlit("inverseOnSurface");
    reveal_strlit("surfaceVariant");
    reveal_strlit("background");
    reveal_strlit("onBackground");
    reveal_strlit("shadow");
    reveal_strlit("scrim");
    let roles = scheme.roles();
    assert forall|i: int, j: int| 0 <= i < j < roles.len() implies roles[i].0 != roles[j].0 by {
        assert(marks(roles[i].0) != marks(roles[j].0));
    }
}

/// The JSON of a scheme is an object of forty-eight entries, one for each role:
/// under the role's key it holds the text of the role's colour. Every value is
/// `#` followed by six hexadecimal digits.
pub proof fn lemma_scheme_json(scheme: Scheme)
    ensures
        scheme_json(scheme) matches Json::Object(entries) && {
            &&& entries.dom().finite()
            &&& entries.dom().len() == 48
            &&& forall|key: Seq<char>|
                entries.dom().contains(key) <==> exists|i: int|
                    0 <= i < 48 && #[trigger] scheme.roles()[i].0 == key
            &&& forall|i: int|
                0 <= i < 48 ==> entries[#[trigger] scheme.roles()[i].0] == Json::Text(
                    scheme.roles()[i].1.hex(),
                )
            &&& forall|key: Seq<char>| #[trigger]
                entries.dom().contains(key) ==> (entries[key] matches Json::Text(text)
                    && is_hex_color(text))
        },
{
    lemma_role_keys_distinct(scheme);
    lemma_color_entries(scheme.roles(), 48);
}

/// The keys of the roles are fixed: they are the same for every scheme.
pub proof fn lemma_role_keys_fixed(first: Scheme, second: Scheme)
    ensures
        forall|i: int| 0 <= i < 48 ==> first.roles()[i].0 == second.roles()[i].0,
{
}

/// Whether two lists pair the same colours at each of the first `count`
/// places.
spec fn same_colors(
    left: Seq<(Seq<char>, Color)>,
    right: Seq<(Seq<char>, Color)>,
    count: int,
) -> bool
    decreases count,
{
    count <= 0 || (left[count - 1].1 == right[count - 1].1 && same_colors(left, right, count - 1))
}

/// A scheme is the colours of its roles: two schemes that give every role the
/// same colour are the same scheme.
pub proof fn lemma_roles_make_the_scheme(first: Scheme, second: Scheme)
    requires
        forall|i: int| 0 <= i < 48 ==> (#[trigger] first.roles()[i]).1 == second.roles()[i].1,
    ensures
        first == second,
{
    reveal_with_fuel(same_colors, 49);
    assert(same_colors(first.roles(), second.roles(), 48));
}

/// Serializing tells schemes apart: two schemes have the same JSON exactly
/// when they are the same scheme, that is, when they give every role the same
/// colour; and where the colours of a role differ, the values under the
/// role's key differ.
pub proof fn lemma_scheme_json_injective(first: Scheme, second: Scheme)
    ensures
        scheme_json(first) == scheme_json(second) <==> first == second,
        scheme_json(first) == scheme_json(second) <==> forall|i: int|
            0 <= i < 48 ==> (#[trigger] first.roles()[i]).1 == second.roles()[i].1,
        forall|i: int|
            0 <= i < 48 && (#[trigger] first.roles()[i]).1 != second.roles()[i].1
                ==> scheme_json(first)->Object_0[first.roles()[i].0] != scheme_json(
                second,
            )->Object_0[first.roles()[i].0],
{
    lemma_role_keys_distinct(first);
    lemma_color_object_injective(first.roles(), second.roles());
    if scheme_json(first) == scheme_json(second) {
        lemma_roles_make_the_scheme(first, second);
    }
}

} // verus!
