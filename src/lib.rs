//! Renders text as pixel art: each character becomes a bitmap of a built-in,
//! variable-width font, and the bitmaps are set side by side on a padded canvas of
//! `0` and `1` pixels.

pub mod builtin;
pub mod error;
pub mod font;
pub mod glyph;
pub mod layout;
pub mod text;

pub use error::PixelArtError;
pub use font::PixelFont;
pub use glyph::CharacterPattern;
pub use layout::text_to_pixel_art;
