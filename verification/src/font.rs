//! Typed font domain values: families, variants, paints and decoration
//! descriptors.

use vstd::prelude::*;
use crate::geom::Linear;

verus! {

/// An RGBA color.
#[derive(Clone, Copy, Debug, PartialEq, Eq, Structural)]
pub struct Color {
    pub r: u8,
    pub g: u8,
    pub b: u8,
    pub a: u8,
}

/// How glyphs are filled or stroked.
#[derive(Clone, Copy, Debug, PartialEq, Eq)]
pub enum Paint {
    Color(Color),
}

/// The slant of a font face.
#[derive(Clone, Copy, Debug, PartialEq, Eq, Structural)]
pub enum FontStyle {
    Normal,
    Italic,
    Oblique,
}

/// The weight of a font face, on the numeric scale from 1 to 1000.
#[derive(Clone, Copy, Debug, PartialEq, Eq, Structural)]
pub struct FontWeight(pub u16);

impl FontWeight {
    /// The weight a raw number coerces to: clamped into the valid scale.
    pub open spec fn from_number_spec(n: u16) -> FontWeight {
        if n < 1 {
            FontWeight(1)
        } else if n > 1000 {
            FontWeight(1000)
        } else {
            FontWeight(n)
        }
    }

    pub fn from_number(n: u16) -> (w: FontWeight)
        ensures
            w == FontWeight::from_number_spec(n),
    {
        if n < 1 {
            FontWeight(1)
        } else if n > 1000 {
            FontWeight(1000)
        } else {
            FontWeight(n)
        }
    }

    /// The heaviest common weight, the fallback for invalid coercions.
    pub fn black() -> (w: FontWeight)
        ensures
            w == FontWeight(900u16),
    {
        FontWeight(900)
    }
}

/// The stretch of a font face, in permille of normal width, clamped to the
/// ultra-condensed to ultra-expanded range.
#[derive(Clone, Copy, Debug, PartialEq, Eq, Structural)]
pub struct FontStretch(pub u16);

impl FontStretch {
    /// The stretch a ratio (in permille) coerces to.
    pub open spec fn from_ratio_spec(permille: u64) -> FontStretch {
        if permille < 500 {
            FontStretch(500)
        } else if permille > 2000 {
            FontStretch(2000)
        } else {
            FontStretch(permille as u16)
        }
    }

    pub fn from_ratio(permille: u64) -> (s: FontStretch)
        ensures
            s == FontStretch::from_ratio_spec(permille),
    {
        if permille < 500 {
            FontStretch(500)
        } else if permille > 2000 {
            FontStretch(2000)
        } else {
            FontStretch(permille as u16)
        }
    }
}

/// Style, weight and stretch of a font face.
#[derive(Clone, Copy, Debug, PartialEq, Eq, Structural)]
pub struct FontVariant {
    pub style: FontStyle,
    pub weight: FontWeight,
    pub stretch: FontStretch,
}

/// A vertical font metric an edge of the text column can be anchored to.
#[derive(Clone, Copy, Debug, PartialEq, Eq, Structural)]
pub enum VerticalFontMetric {
    Ascender,
    CapHeight,
    XHeight,
    Baseline,
    Descender,
}

/// A named or generic font family reference.
#[derive(Debug, PartialEq, Eq)]
pub enum FontFamily {
    Named(String),
    Serif,
    SansSerif,
    Monospace,
}

/// Mathematical value of a family reference: named families carry their
/// character sequence.
pub enum FamilyModel {
    Named(Seq<char>),
    Serif,
    SansSerif,
    Monospace,
}

impl View for FontFamily {
    type V = FamilyModel;

    open spec fn view(&self) -> FamilyModel {
        match self {
            FontFamily::Named(s) => FamilyModel::Named(s@),
            FontFamily::Serif => FamilyModel::Serif,
            FontFamily::SansSerif => FamilyModel::SansSerif,
            FontFamily::Monospace => FamilyModel::Monospace,
        }
    }
}

impl Clone for FontFamily {
    fn clone(&self) -> (r: Self)
        ensures
            r@ == self@,
    {
        match self {
            FontFamily::Named(s) => FontFamily::Named(s.clone()),
            FontFamily::Serif => FontFamily::Serif,
            FontFamily::SansSerif => FontFamily::SansSerif,
            FontFamily::Monospace => FontFamily::Monospace,
        }
    }
}

/// Which decoration a line command configures.
#[derive(Clone, Copy, Debug, PartialEq, Eq, Structural)]
pub enum LineKind {
    Strikethrough,
    Underline,
    Overline,
}

/// An immutable decoration descriptor, shared by every span that carries the
/// same decoration. The thickness and offset stay unresolved linear
/// expressions; absent parts inherit from the font at layout time.
#[derive(Clone, Copy, Debug, PartialEq, Eq)]
pub struct LineState {
    pub stroke: Option<Paint>,
    pub thickness: Option<Linear>,
    pub offset: Option<Linear>,
    pub extent: Linear,
}

} // verus!
