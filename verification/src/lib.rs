//! Material colour themes as JSON: the schemes and tonal palettes of a theme,
//! serialized to the document that user interfaces read their colours from.

pub mod color;
pub mod entries;
pub mod input;
pub mod json;
pub mod palette;
pub mod scheme;
pub mod theme;

pub use crate::color::Color;
pub use crate::input::check_file;
pub use crate::palette::{tonal_palette_to_json, TonalPalette, TONES};
pub use crate::scheme::{scheme_to_json, Scheme};
pub use crate::theme::{theme_to_json, theme_to_text, Palettes, Schemes, TextError, Theme};
