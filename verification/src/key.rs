//! Font and glyph identity.
//!
//! A `FontKey` is an opaque, process-unique handle standing in for a loaded
//! font: it is issued by a single monotonically increasing counter and never
//! reused, so a key from one load can never collide with a key from another.
//! A `GlyphKey` combines a character with a font key and a quantized size, so
//! the same character at a different size or font is a distinct glyph.

use vstd::prelude::*;

use crate::size::Size;

verus! {

/// Placeholder glyph key that represents a blank glyph.
pub const PLACEHOLDER_GLYPH: KeyType = KeyType::Placeholder;

/// Identifier for a font for use in maps/etc.
#[derive(Debug, Clone, Copy, Hash, PartialEq, Eq, Structural)]
pub struct FontKey {
    token: u32,
}

/// The process-wide counter that issues font keys.
///
/// Exactly one counter should exist per process, starting at zero; callers
/// that share it across threads must serialize access to it (for instance by
/// a lock around it). Each call to `FontKey::next` consumes the current
/// counter value as a fresh token and advances the counter, so the keys it
/// issues are pairwise distinct and strictly increasing in issuance order;
/// `spec_issued` records that history, and `wf` holds of every counter state
/// the operations can reach.
pub struct KeyCounter {
    next_token: u32,
    issued: Ghost<Seq<int>>,
}

impl KeyCounter {
    /// The token the next issued key will carry.
    pub closed spec fn spec_next_token(self) -> int {
        self.next_token as int
    }

    /// The tokens this counter has issued so far, in issuance order.
    pub closed spec fn spec_issued(self) -> Seq<int> {
        self.issued@
    }

    /// The counter has issued exactly the tokens below its current value, in
    /// issuance order: the k-th key issued carried token k.
    pub open spec fn wf(self) -> bool {
        &&& self.spec_issued().len() == self.spec_next_token()
        &&& forall|k: int|
            0 <= k < self.spec_issued().len() ==> #[trigger] self.spec_issued()[k] == k
    }

    /// A fresh counter, with no keys issued yet.
    pub fn new() -> (c: KeyCounter)
        ensures
            c.wf(),
            c.spec_next_token() == 0,
            c.spec_issued() == Seq::<int>::empty(),
    {
        KeyCounter { next_token: 0, issued: Ghost(Seq::empty()) }
    }

    /// The value the next issued token will carry; `u32::MAX` means the
    /// counter is exhausted and must not issue further keys, since a token
    /// may never be reused.
    pub fn next_token_value(&self) -> (t: u32)
        ensures
            t as int == self.spec_next_token(),
    {
        self.next_token
    }
}

impl FontKey {
    /// The token this key carries.
    pub closed spec fn spec_token(self) -> int {
        self.token as int
    }

    /// The token this key carries.
    pub fn token(self) -> (t: u32)
        ensures
            t as int == self.spec_token(),
    {
        self.token
    }

    /// Get the next font key from the given counter.
    ///
    /// The generated key is unique for the counter's lifetime: it carries the
    /// counter's current value as its token, the counter then moves past that
    /// value and never returns to it, and the key joins the counter's
    /// issuance history.
    pub fn next(counter: &mut KeyCounter) -> (k: FontKey)
        requires
            old(counter).wf(),
            old(counter).spec_next_token() < u32::MAX as int,
        ensures
            final(counter).wf(),
            k.spec_token() == old(counter).spec_next_token(),
            final(counter).spec_next_token() == old(counter).spec_next_token() + 1,
            final(counter).spec_issued() == old(counter).spec_issued().push(k.spec_token()),
    {
        let token: u32 = counter.next_token;
        counter.next_token = token + 1;
        counter.issued = Ghost(counter.issued@.push(token as int));
        FontKey { token }
    }
}

/// Two font keys are equal exactly when they carry the same token.
pub proof fn lemma_font_key_eq(a: FontKey, b: FontKey)
    ensures
        (a == b) <==> (a.spec_token() == b.spec_token()),
{
}

/// The tokens a counter has issued are strictly increasing in issuance
/// order: for any run of calls to `FontKey::next`, an earlier call's token is
/// strictly below a later call's token.
pub proof fn lemma_issued_tokens_strictly_increasing(c: KeyCounter, i: int, j: int)
    requires
        c.wf(),
        0 <= i < j < c.spec_issued().len(),
    ensures
        c.spec_issued()[i] < c.spec_issued()[j],
{
}

/// A run of `n` calls to `FontKey::next` issues `n` distinct tokens: the
/// issuance history of a counter never repeats a value.
pub proof fn lemma_issued_tokens_distinct(c: KeyCounter)
    requires
        c.wf(),
    ensures
        c.spec_issued().no_duplicates(),
{
    assert forall|i: int, j: int|
        0 <= i < c.spec_issued().len() && 0 <= j < c.spec_issued().len() && i != j implies #[trigger] c.spec_issued()[i]
        != #[trigger] c.spec_issued()[j] by {
        if i < j {
            lemma_issued_tokens_strictly_increasing(c, i, j);
        } else {
            lemma_issued_tokens_strictly_increasing(c, j, i);
        }
    }
}

/// Identity of one rasterizable glyph: a character, the font it is drawn
/// from, and the quantized size it is drawn at.
#[derive(Debug, Copy, Clone, Eq, PartialEq, Hash, Structural)]
pub struct GlyphKey {
    pub character: char,
    pub font_key: FontKey,
    pub size: Size,
}

/// Glyph key equality requires the character, the font key and the size all
/// to match: changing any one field changes equality unconditionally.
pub proof fn lemma_glyph_key_eq(a: GlyphKey, b: GlyphKey)
    ensures
        (a == b) <==> (a.character == b.character && a.font_key == b.font_key && a.size
            == b.size),
{
}

/// Captures possible outcomes of shaping: if shaping succeeded it yields a
/// `GlyphIndex`; if shaping failed or did not occur, a `Char` is kept to be
/// resolved at rasterization time.
#[derive(Debug, Copy, Clone, Eq, PartialEq, Hash, Structural)]
pub enum KeyType {
    /// A valid glyph index from a font face to be rasterized to a glyph.
    GlyphIndex(u32),
    /// A character that has not been converted to an index before rasterizing.
    Char(char),
    /// Placeholder glyph useful when we need a glyph but it shouldn't ever
    /// render as anything (cursors, wide-char spacers, etc.).
    Placeholder,
}

impl Default for KeyType {
    /// The default glyph identity is the placeholder, which never renders.
    fn default() -> (r: Self)
        ensures
            r == KeyType::Placeholder,
    {
        PLACEHOLDER_GLYPH
    }
}

impl From<u32> for KeyType {
    fn from(val: u32) -> (r: Self) {
        KeyType::GlyphIndex(val)
    }
}

impl vstd::std_specs::convert::FromSpecImpl<u32> for KeyType {
    open spec fn obeys_from_spec() -> bool {
        true
    }

    open spec fn from_spec(val: u32) -> KeyType {
        KeyType::GlyphIndex(val)
    }
}

impl From<char> for KeyType {
    fn from(val: char) -> (r: Self) {
        KeyType::Char(val)
    }
}

impl vstd::std_specs::convert::FromSpecImpl<char> for KeyType {
    open spec fn obeys_from_spec() -> bool {
        true
    }

    open spec fn from_spec(val: char) -> KeyType {
        KeyType::Char(val)
    }
}

} // verus!
