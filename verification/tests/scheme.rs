use material_theme::{scheme_to_json, Color, Scheme};
use serde_json::Value;

/// The keys of a scheme's JSON, in the order of the fields of a scheme.
const ROLE_KEYS: [&str; 48] = [
    "primary",
    "onPrimary",
    "primaryContainer",
    "onPrimaryContainer",
    "inversePrimary",
    "primaryFixed",
    "primaryFixedDim",
    "onPrimaryFixed",
    "onPrimaryFixedVariant",
    "secondary",
    "onSecondary",
    "secondaryContainer",
    "onSecondaryContainer",
    "secondaryFixed",
    "secondaryFixedDim",
    "onSecondaryFixed",
    "onSecondaryFixedVariant",
    "tertiary",
    "onTertiary",
    "tertiaryContainer",
    "onTertiaryContainer",
    "tertiaryFixed",
    "tertiaryFixedDim",
    "onTertiaryFixed",
    "onTertiaryFixedVariant",
    "error",
    "onError",
    "errorContainer",
    "onErrorContainer",
    "surfaceDim",
    "surface",
    "surfaceBright",
    "surfaceContainerLowest",
    "surfaceContainerLow",
    "surfaceContainer",
    "surfaceContainerHigh",
    "surfaceContainerHighest",
    "onSurface",
    "onSurfaceVariant",
    "outline",
    "outlineVariant",
    "inverseSurface",
    "inverseOnSurface",
    "surfaceVariant",
    "background",
    "onBackground",
    "shadow",
    "scrim",
];
/// A scheme that gives the role at each place, in the order of the fields,
/// the colour that `color_of` makes of the place.
fn scheme_of(color_of: impl Fn(u8) -> Color) -> Scheme {
    Scheme {
        primary: color_of(0),
        on_primary: color_of(1),
        primary_container: color_of(2),
        on_primary_container: color_of(3),
        inverse_primary: color_of(4),
        primary_fixed: color_of(5),
        primary_fixed_dim: color_of(6),
        on_primary_fixed: color_of(7),
        on_primary_fixed_variant: color_of(8),
        secondary: color_of(9),
        on_secondary: color_of(10),
        secondary_container: color_of(11),
        on_secondary_container: color_of(12),
        secondary_fixed: color_of(13),
        secondary_fixed_dim: color_of(14),
        on_secondary_fixed: color_of(15),
        on_secondary_fixed_variant: color_of(16),
        tertiary: color_of(17),
        on_tertiary: color_of(18),
        tertiary_container: color_of(19),
        on_tertiary_container: color_of(20),
        tertiary_fixed: color_of(21),
        tertiary_fixed_dim: color_of(22),
        on_tertiary_fixed: color_of(23),
        on_tertiary_fixed_variant: color_of(24),
        error: color_of(25),
        on_error: color_of(26),
        error_container: color_of(27),
        on_error_container: color_of(28),
        surface_dim: color_of(29),
        surface: color_of(30),
        surface_bright: color_of(31),
        surface_container_lowest: color_of(32),
        surface_container_low: color_of(33),
        surface_container: color_of(34),
        surface_container_high: color_of(35),
        surface_container_highest: color_of(36),
        on_surface: color_of(37),
        on_surface_variant: color_of(38),
        outline: color_of(39),
        outline_variant: color_of(40),
        inverse_surface: color_of(41),
        inverse_on_surface: color_of(42),
        surface_variant: color_of(43),
        background: color_of(44),
        on_background: color_of(45),
        shadow: color_of(46),
        scrim: color_of(47),
    }
}
fn is_hex_color(text: &str) -> bool {
    let bytes = text.as_bytes();
    bytes.len() == 7 && bytes[0] == b'#' && bytes[1..].iter().all(|b| b.is_ascii_hexdigit())
}

fn numbered() -> Scheme {
    scheme_of(|place| Color { red: place, green: 0xab, blue: 255 - place })
}

#[test]
fn scheme_json_is_an_object_of_the_forty_eight_roles() {
    let json = scheme_to_json(&numbered());
    let object = json.as_object().expect("a scheme is a JSON object");
    assert_eq!(object.len(), 48);
    for key in ROLE_KEYS {
        assert!(object.contains_key(key), "missing {}", key);
    }
    for key in object.keys() {
        assert!(ROLE_KEYS.contains(&key.as_str()), "unexpected {}", key);
    }
}

#[test]
fn every_value_of_a_scheme_is_a_hex_colour() {
    let json = scheme_to_json(&numbered());
    for (key, value) in json.as_object().unwrap() {
        let text = value.as_str().expect("a colour is a JSON string");
        assert!(is_hex_color(text), "{} holds {}", key, text);
    }
}

#[test]
fn each_role_is_stored_under_its_own_key() {
    let json = scheme_to_json(&numbered());
    for (place, key) in ROLE_KEYS.iter().enumerate() {
        let expected = format!("#{:02x}ab{:02x}", place, 255 - place);
        assert_eq!(json[*key], Value::String(expected), "role {}", key);
    }
}

#[test]
fn colours_are_lower_case_hex_with_leading_zeros() {
    let scheme = scheme_of(|place| match place {
        0 => Color { red: 0xff, green: 0x00, blue: 0x00 },
        1 => Color { red: 0x0a, green: 0xbc, blue: 0xde },
        2 => Color { red: 0x00, green: 0x00, blue: 0x00 },
        3 => Color { red: 0xff, green: 0xff, blue: 0xff },
        _ => Color { red: 0x01, green: 0x10, blue: 0x9f },
    });
    let json = scheme_to_json(&scheme);
    assert_eq!(json["primary"], Value::String("#ff0000".to_string()));
    assert_eq!(json["onPrimary"], Value::String("#0abcde".to_string()));
    assert_eq!(json["primaryContainer"], Value::String("#000000".to_string()));
    assert_eq!(json["onPrimaryContainer"], Value::String("#ffffff".to_string()));
    assert_eq!(json["scrim"], Value::String("#01109f".to_string()));
}

#[test]
fn named_roles_take_the_colour_of_their_field() {
    let mut scheme = scheme_of(|_| Color { red: 0, green: 0, blue: 0 });
    scheme.surface_container_highest = Color { red: 1, green: 2, blue: 3 };
    scheme.on_secondary_fixed_variant = Color { red: 4, green: 5, blue: 6 };
    scheme.inverse_on_surface = Color { red: 7, green: 8, blue: 9 };
    scheme.outline_variant = Color { red: 10, green: 11, blue: 12 };
    let json = scheme_to_json(&scheme);
    assert_eq!(json["surfaceContainerHighest"], Value::String("#010203".to_string()));
    assert_eq!(json["onSecondaryFixedVariant"], Value::String("#040506".to_string()));
    assert_eq!(json["inverseOnSurface"], Value::String("#070809".to_string()));
    assert_eq!(json["outlineVariant"], Value::String("#0a0b0c".to_string()));
    assert_eq!(json["surfaceContainerHigh"], Value::String("#000000".to_string()));
}

#[test]
fn schemes_that_differ_in_one_role_differ_in_that_key_only() {
    let first = numbered();
    let mut second = numbered();
    second.tertiary = Color { red: 9, green: 9, blue: 9 };
    let left = scheme_to_json(&first);
    let right = scheme_to_json(&second);
    assert_ne!(left, right);
    for key in ROLE_KEYS {
        assert_eq!(left[key] != right[key], key == "tertiary", "role {}", key);
    }
}

#[test]
fn equal_schemes_have_equal_json() {
    assert_eq!(scheme_to_json(&numbered()), scheme_to_json(&numbered()));
}

#[test]
fn role_table_lists_the_roles_in_the_order_of_the_fields() {
    let table = numbered().role_table();
    assert_eq!(table.len(), 48);
    for (place, (key, color)) in table.iter().enumerate() {
        assert_eq!(*key, ROLE_KEYS[place]);
        assert_eq!(*color, Color { red: place as u8, green: 0xab, blue: 255 - place as u8 });
    }
}

#[test]
fn role_keys_are_all_different() {
    let mut keys = ROLE_KEYS.to_vec();
    keys.sort();
    keys.dedup();
    assert_eq!(keys.len(), 48);
}
