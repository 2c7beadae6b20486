//! The closed set of failures a backend may report.
//!
//! Every fallible backend operation returns one of these kinds, never a
//! generic failure. `PlatformError` is the escape hatch for native-engine
//! failures that fit no more specific kind; `UnknownFontKey` signals caller
//! misuse (a key from another backend instance) rather than a transient
//! condition. Retry and fallback policy belongs to the caller: the core
//! performs no recovery of its own.

use vstd::prelude::*;
use vstd::string::StringExecFns;

use crate::desc::FontDesc;
use crate::glyph::RasterizedGlyph;

verus! {

/// Errors occurring when using the rasterizer.
#[derive(Debug)]
pub enum Error {
    /// Unable to find a font matching the description.
    FontNotFound(FontDesc),
    /// Unable to find metrics for a font face.
    MetricsNotFound,
    /// The glyph could not be found in any font; carries the best glyph the
    /// backend did produce, so callers can decide fallback policy.
    MissingGlyph(RasterizedGlyph),
    /// Requested an operation with a FontKey that isn't known to the rasterizer.
    UnknownFontKey,
    /// Error from the platform's font system.
    PlatformError(String),
}

impl Error {
    /// The diagnostic text describing the failure: a fixed description per
    /// kind, carrying the offending family name or the platform's own text
    /// where one exists.
    pub open spec fn spec_message(self) -> Seq<char> {
        match self {
            Error::FontNotFound(desc) => "font "@ + desc.spec_name() + " not found"@,
            Error::MetricsNotFound => "metrics not found"@,
            Error::MissingGlyph(_) => "glyph not found"@,
            Error::UnknownFontKey => "invalid font key"@,
            Error::PlatformError(err) => err@,
        }
    }

    /// The diagnostic text describing the failure.
    pub fn message(&self) -> (r: String)
        ensures
            r@ == self.spec_message(),
    {
        match self {
            Error::FontNotFound(desc) => {
                let mut out = String::from_str("font ");
                let name = desc.family_name();
                out.append(name.as_str());
                out.append(" not found");
                proof {
                    assert(out@ =~= self.spec_message());
                }
                out
            },
            Error::MetricsNotFound => String::from_str("metrics not found"),
            Error::MissingGlyph(_) => String::from_str("glyph not found"),
            Error::UnknownFontKey => String::from_str("invalid font key"),
            Error::PlatformError(err) => err.clone(),
        }
    }
}

} // verus!
