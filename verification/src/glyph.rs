//! Rasterization output.
//!
//! A `RasterizedGlyph` carries the pixels of one glyph together with its
//! placement data: extent, bearings and advance. The pixel payload is tagged
//! as either a 3-channel alpha mask or 4-channel premultiplied-alpha pixels;
//! a renderer must branch on the tag to pick the compositing formula.

use vstd::prelude::*;

verus! {

/// Pixel payload of a rasterized glyph.
#[derive(Debug)]
pub enum BitmapBuffer {
    /// RGB alphamask.
    Rgb(Vec<u8>),
    /// RGBA pixels with premultiplied alpha.
    Rgba(Vec<u8>),
}

impl BitmapBuffer {
    /// The raw bytes of the payload, whichever variant carries them.
    pub open spec fn spec_bytes(self) -> Seq<u8> {
        match self {
            BitmapBuffer::Rgb(bytes) => bytes@,
            BitmapBuffer::Rgba(bytes) => bytes@,
        }
    }
}

/// Clone a byte vector, keeping its contents.
fn clone_bytes(v: &Vec<u8>) -> (r: Vec<u8>)
    ensures
        r@ == v@,
{
    let r = v.clone();
    proof {
        assert forall|i: int| 0 <= i < v@.len() implies r@[i] == v@[i] by {
            assert(cloned::<u8>(v@[i], r@[i]));
        }
        assert(r@ =~= v@);
    }
    r
}

impl Clone for BitmapBuffer {
    /// A clone keeps the variant and the bytes.
    fn clone(&self) -> (r: Self)
        ensures
            (r is Rgb) == (self is Rgb),
            r.spec_bytes() == self.spec_bytes(),
    {
        match self {
            BitmapBuffer::Rgb(bytes) => BitmapBuffer::Rgb(clone_bytes(bytes)),
            BitmapBuffer::Rgba(bytes) => BitmapBuffer::Rgba(clone_bytes(bytes)),
        }
    }
}

#[derive(Debug)]
pub struct RasterizedGlyph {
    pub character: char,
    pub width: i32,
    pub height: i32,
    pub top: i32,
    pub left: i32,
    pub advance: (i32, i32),
    pub buffer: BitmapBuffer,
}

impl RasterizedGlyph {
    /// A fully blank glyph: zero extent, zero bearings, zero advance and an
    /// empty alpha-mask buffer. Such a glyph needs no special-casing by
    /// callers; compositing it draws nothing.
    pub open spec fn is_blank(self) -> bool {
        &&& self.width == 0
        &&& self.height == 0
        &&& self.top == 0
        &&& self.left == 0
        &&& self.advance.0 == 0
        &&& self.advance.1 == 0
        &&& (self.buffer matches BitmapBuffer::Rgb(bytes) && bytes@ == Seq::<u8>::empty())
    }
}

impl Clone for RasterizedGlyph {
    /// A clone keeps the character, the placement data, and the pixel payload.
    fn clone(&self) -> (r: Self)
        ensures
            r.character == self.character,
            r.width == self.width,
            r.height == self.height,
            r.top == self.top,
            r.left == self.left,
            r.advance == self.advance,
            (r.buffer is Rgb) == (self.buffer is Rgb),
            r.buffer.spec_bytes() == self.buffer.spec_bytes(),
    {
        RasterizedGlyph {
            character: self.character,
            width: self.width,
            height: self.height,
            top: self.top,
            left: self.left,
            advance: (self.advance.0, self.advance.1),
            buffer: self.buffer.clone(),
        }
    }
}

impl Default for RasterizedGlyph {
    /// The default glyph is the blank sentinel, carrying a space character.
    fn default() -> (r: RasterizedGlyph)
        ensures
            r.is_blank(),
            r.character == ' ',
    {
        RasterizedGlyph {
            character: ' ',
            width: 0,
            height: 0,
            top: 0,
            left: 0,
            advance: (0, 0),
            buffer: BitmapBuffer::Rgb(Vec::new()),
        }
    }
}

} // verus!
