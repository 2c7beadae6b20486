//! Optional text-shaping capability.
//!
//! A backend may additionally be able to shape raw text: turn it into an
//! ordered sequence of glyphs reflecting complex-script reordering and
//! ligature substitution. Shaping is an additive capability, not part of the
//! base rasterizer contract; clients must check for it and fall back to
//! one-glyph-per-character iteration when a backend lacks it.

use vstd::prelude::*;

use crate::key::FontKey;

verus! {

/// One shaped glyph: a resolved codepoint and the cluster of the source text
/// it came from.
#[derive(Debug)]
pub struct Info {
    pub codepoint: u32,
    pub cluster: u32,
}

impl Clone for Info {
    /// A clone is equal to the original.
    fn clone(&self) -> (r: Self)
        ensures
            r == *self,
    {
        Info { codepoint: self.codepoint, cluster: self.cluster }
    }
}

/// Extends a rasterizer with shaping-engine functionality.
pub trait RasterizeExt {
    /// Shape the provided text into a set of glyphs.
    fn shape(&mut self, text: &str, font_key: FontKey) -> Vec<Info>;
}

} // verus!
