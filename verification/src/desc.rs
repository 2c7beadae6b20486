//! Font request descriptors.
//!
//! A `FontDesc` names the font a client wants: a family name together with a
//! `Style`, which is either an opaque style name or a slant/weight pair.
//! Descriptors are compared by exact match on both fields; a named style is
//! never equal to a slant/weight description, even a semantically similar
//! one, because the two variants are resolved by different backend paths.

use vstd::prelude::*;
use vstd::std_specs::cmp::PartialEqSpec;
use vstd::string::StringExecFns;

verus! {

#[derive(Debug, Clone, Copy, PartialEq, Eq, Hash, Structural)]
pub enum Slant {
    Normal,
    Italic,
    Oblique,
}

#[derive(Debug, Clone, Copy, PartialEq, Eq, Hash, Structural)]
pub enum Weight {
    Normal,
    Bold,
}

/// Style of font.
#[derive(Debug, Eq, Hash)]
pub enum Style {
    Specific(String),
    Description { slant: Slant, weight: Weight },
}

impl Clone for Style {
    /// A clone is equal to the original.
    fn clone(&self) -> (r: Self)
        ensures
            r == *self,
    {
        match self {
            Style::Specific(s) => Style::Specific(s.clone()),
            Style::Description { slant, weight } => Style::Description {
                slant: *slant,
                weight: *weight,
            },
        }
    }
}

/// The text naming a slant in a style's displayed form.
pub open spec fn slant_text(s: Slant) -> Seq<char> {
    match s {
        Slant::Normal => "Normal"@,
        Slant::Italic => "Italic"@,
        Slant::Oblique => "Oblique"@,
    }
}

/// The text naming a weight in a style's displayed form.
pub open spec fn weight_text(w: Weight) -> Seq<char> {
    match w {
        Weight::Normal => "Normal"@,
        Weight::Bold => "Bold"@,
    }
}

/// The text naming a slant in a style's displayed form.
fn slant_str(s: Slant) -> (r: &'static str)
    ensures
        r@ == slant_text(s),
{
    match s {
        Slant::Normal => "Normal",
        Slant::Italic => "Italic",
        Slant::Oblique => "Oblique",
    }
}

/// The text naming a weight in a style's displayed form.
fn weight_str(w: Weight) -> (r: &'static str)
    ensures
        r@ == weight_text(w),
{
    match w {
        Weight::Normal => "Normal",
        Weight::Bold => "Bold",
    }
}

impl Style {
    /// What two styles being equal means: a named style matches only the same
    /// name, and a slant/weight description matches only the same slant and
    /// weight. The two variants are never equal to each other.
    pub open spec fn spec_eq(self, other: Style) -> bool {
        match (self, other) {
            (Style::Specific(a), Style::Specific(b)) => a@ == b@,
            (
                Style::Description { slant: sa, weight: wa },
                Style::Description { slant: sb, weight: wb },
            ) => sa == sb && wa == wb,
            _ => false,
        }
    }

    /// The displayed form of the style: the style name itself, or the
    /// slant/weight pair written out.
    pub open spec fn spec_display(self) -> Seq<char> {
        match self {
            Style::Specific(s) => s@,
            Style::Description { slant, weight } => "slant="@ + slant_text(slant) + ", weight="@
                + weight_text(weight),
        }
    }

    /// The displayed form of the style as text.
    pub fn display_string(&self) -> (r: String)
        ensures
            r@ == self.spec_display(),
    {
        match self {
            Style::Specific(s) => s.clone(),
            Style::Description { slant, weight } => {
                let mut out = String::from_str("slant=");
                out.append(slant_str(*slant));
                out.append(", weight=");
                out.append(weight_str(*weight));
                proof {
                    assert(out@ =~= self.spec_display());
                }
                out
            },
        }
    }
}

impl PartialEq for Style {
    fn eq(&self, other: &Style) -> (r: bool) {
        match (self, other) {
            (Style::Specific(a), Style::Specific(b)) => *a == *b,
            (
                Style::Description { slant: sa, weight: wa },
                Style::Description { slant: sb, weight: wb },
            ) => *sa == *sb && *wa == *wb,
            _ => false,
        }
    }
}

impl vstd::std_specs::cmp::PartialEqSpecImpl for Style {
    open spec fn obeys_eq_spec() -> bool {
        true
    }

    open spec fn eq_spec(&self, other: &Style) -> bool {
        self.spec_eq(*other)
    }
}

/// A named style and a slant/weight description are never equal, however
/// similar their meanings: equality follows the variant, not the semantics.
pub proof fn lemma_style_variants_never_equal(a: Style, b: Style)
    requires
        a is Specific,
        b is Description,
    ensures
        !a.spec_eq(b),
        !b.spec_eq(a),
{
}

/// A font request: a family name together with a style.
#[derive(Debug, Eq, Hash)]
pub struct FontDesc {
    name: String,
    style: Style,
}

impl Clone for FontDesc {
    /// A clone is equal to the original.
    fn clone(&self) -> (r: Self)
        ensures
            r == *self,
    {
        FontDesc { name: self.name.clone(), style: self.style.clone() }
    }
}

impl FontDesc {
    /// The requested family name.
    pub closed spec fn spec_name(self) -> Seq<char> {
        self.name@
    }

    /// The requested style.
    pub closed spec fn spec_style(self) -> Style {
        self.style
    }

    /// The requested family name.
    pub fn family_name(&self) -> (r: &String)
        ensures
            r@ == self.spec_name(),
    {
        &self.name
    }

    pub fn new(name: String, style: Style) -> (d: FontDesc)
        ensures
            d.spec_name() == name@,
            d.spec_style() == style,
    {
        FontDesc { name, style }
    }

    /// The displayed form of the descriptor: the family name and the style,
    /// separated by a dash.
    pub open spec fn spec_display(self) -> Seq<char> {
        self.spec_name() + " - "@ + self.spec_style().spec_display()
    }

    /// The displayed form of the descriptor as text.
    pub fn display_string(&self) -> (r: String)
        ensures
            r@ == self.spec_display(),
    {
        let mut out = self.name.clone();
        out.append(" - ");
        let style = self.style.display_string();
        out.append(style.as_str());
        proof {
            assert(out@ =~= self.spec_display());
        }
        out
    }
}

impl PartialEq for FontDesc {
    fn eq(&self, other: &FontDesc) -> (r: bool) {
        self.name == other.name && self.style == other.style
    }
}

impl vstd::std_specs::cmp::PartialEqSpecImpl for FontDesc {
    open spec fn obeys_eq_spec() -> bool {
        true
    }

    closed spec fn eq_spec(&self, other: &FontDesc) -> bool {
        self.name@ == other.name@ && self.style.spec_eq(other.style)
    }
}

/// Two font descriptors are equal exactly when both the family name and the
/// style match; differing in either field makes them different requests.
pub proof fn lemma_font_desc_eq(a: FontDesc, b: FontDesc)
    ensures
        a.eq_spec(&b) <==> (a.spec_name() == b.spec_name() && a.spec_style().spec_eq(
            b.spec_style(),
        )),
{
}

} // verus!
