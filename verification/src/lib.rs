//! Compatibility layer for different font engines.
//!
//! This crate defines the data model shared by every font backend: quantized
//! font sizes, font request descriptors, process-unique font keys, glyph
//! identities, rasterization output, and the closed set of errors a backend
//! may report. Backends wrapping a native font engine implement these
//! contracts; the types here are the compatibility boundary between them.

mod desc;
mod error;
mod glyph;
mod key;
mod shaping;
mod size;

pub use desc::lemma_font_desc_eq;
pub use desc::lemma_style_variants_never_equal;
pub use desc::slant_text;
pub use desc::weight_text;
pub use desc::FontDesc;
pub use desc::Slant;
pub use desc::Style;
pub use desc::Weight;
pub use error::Error;
pub use glyph::BitmapBuffer;
pub use glyph::RasterizedGlyph;
pub use key::lemma_font_key_eq;
pub use key::lemma_glyph_key_eq;
pub use key::lemma_issued_tokens_distinct;
pub use key::lemma_issued_tokens_strictly_increasing;
pub use key::FontKey;
pub use key::GlyphKey;
pub use key::KeyCounter;
pub use key::KeyType;
pub use key::PLACEHOLDER_GLYPH;
pub use shaping::Info;
pub use shaping::RasterizeExt;
pub use size::lemma_add_saturates_at_max;
pub use size::lemma_size_eq;
pub use size::saturate;
pub use size::Size;
