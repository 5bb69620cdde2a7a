//! The style state a formatting context carries: font, paragraph and
//! language dimensions, with their mathematical models.

use vstd::prelude::*;
use std::rc::Rc;
use crate::font::{
    Color, FamilyModel, FontFamily, FontStretch, FontStyle, FontVariant, FontWeight, LineKind,
    LineState, Paint, VerticalFontMetric,
};
use crate::geom::Dir;

verus! {

/// The default font size, in length units.
pub const DEFAULT_FONT_SIZE: u64 = 11000;

/// Mathematical value of a sequence of family references.
pub open spec fn fam_seq(s: Seq<FontFamily>) -> Seq<FamilyModel> {
    s.map_values(|f: FontFamily| f@)
}

/// Mathematical value of a sequence of family name strings.
pub open spec fn str_seq(s: Seq<String>) -> Seq<Seq<char>> {
    s.map_values(|n: String| n@)
}

/// The font family preferences of the current scope: the active list and
/// the fallback chains behind the three generic classes.
#[derive(Debug, PartialEq, Eq)]
pub struct FontFamilies {
    pub list: Vec<FontFamily>,
    pub serif: Vec<String>,
    pub sans_serif: Vec<String>,
    pub monospace: Vec<String>,
}

#[verifier::ext_equal]
pub struct FontFamiliesModel {
    pub list: Seq<FamilyModel>,
    pub serif: Seq<Seq<char>>,
    pub sans_serif: Seq<Seq<char>>,
    pub monospace: Seq<Seq<char>>,
}

impl View for FontFamilies {
    type V = FontFamiliesModel;

    open spec fn view(&self) -> FontFamiliesModel {
        FontFamiliesModel {
            list: fam_seq(self.list@),
            serif: str_seq(self.serif@),
            sans_serif: str_seq(self.sans_serif@),
            monospace: str_seq(self.monospace@),
        }
    }
}

/// Clones a family list element by element.
pub(crate) fn clone_family_vec(v: &Vec<FontFamily>) -> (r: Vec<FontFamily>)
    ensures
        fam_seq(r@) == fam_seq(v@),
{
    let mut r: Vec<FontFamily> = Vec::new();
    let mut i: usize = 0;
    while i < v.len()
        invariant
            i <= v.len(),
            fam_seq(r@) =~= fam_seq(v@.subrange(0, i as int)),
        decreases v.len() - i,
    {
        let ghost pre = r@;
        let c = v[i].clone();
        r.push(c);
        proof {
            assert(fam_seq(r@) =~= fam_seq(pre).push(v@[i as int]@));
            assert(fam_seq(v@.subrange(0, i + 1)) =~= fam_seq(pre).push(v@[i as int]@));
        }
        i += 1;
    }
    proof {
        assert(v@.subrange(0, v@.len() as int) =~= v@);
    }
    r
}

/// Clones a list of family name strings element by element.
pub(crate) fn clone_string_vec(v: &Vec<String>) -> (r: Vec<String>)
    ensures
        str_seq(r@) == str_seq(v@),
{
    let mut r: Vec<String> = Vec::new();
    let mut i: usize = 0;
    while i < v.len()
        invariant
            i <= v.len(),
            str_seq(r@) =~= str_seq(v@.subrange(0, i as int)),
        decreases v.len() - i,
    {
        let ghost pre = r@;
        let c = v[i].clone();
        r.push(c);
        proof {
            assert(str_seq(r@) =~= str_seq(pre).push(v@[i as int]@));
            assert(str_seq(v@.subrange(0, i + 1)) =~= str_seq(pre).push(v@[i as int]@));
        }
        i += 1;
    }
    proof {
        assert(v@.subrange(0, v@.len() as int) =~= v@);
    }
    r
}

impl Clone for FontFamilies {
    fn clone(&self) -> (r: Self)
        ensures
            r@ == self@,
    {
        let r = FontFamilies {
            list: clone_family_vec(&self.list),
            serif: clone_string_vec(&self.serif),
            sans_serif: clone_string_vec(&self.sans_serif),
            monospace: clone_string_vec(&self.monospace),
        };
        proof {
            assert(r@ =~= self@);
        }
        r
    }
}

/// The font dimension of the style state.
#[derive(Debug, PartialEq, Eq)]
pub struct FontState {
    pub size: u64,
    pub families: FontFamilies,
    pub variant: FontVariant,
    pub top_edge: VerticalFontMetric,
    pub bottom_edge: VerticalFontMetric,
    pub fill: Paint,
    pub strikethrough: Option<Rc<LineState>>,
    pub underline: Option<Rc<LineState>>,
    pub overline: Option<Rc<LineState>>,
}

#[verifier::ext_equal]
pub struct FontStateModel {
    pub size: u64,
    pub families: FontFamiliesModel,
    pub variant: FontVariant,
    pub top_edge: VerticalFontMetric,
    pub bottom_edge: VerticalFontMetric,
    pub fill: Paint,
    pub strikethrough: Option<LineState>,
    pub underline: Option<LineState>,
    pub overline: Option<LineState>,
}

/// Mathematical value of a shared decoration slot.
pub open spec fn line_opt(o: Option<Rc<LineState>>) -> Option<LineState> {
    match o {
        Some(l) => Some(*l),
        None => None,
    }
}

impl View for FontState {
    type V = FontStateModel;

    open spec fn view(&self) -> FontStateModel {
        FontStateModel {
            size: self.size,
            families: self.families@,
            variant: self.variant,
            top_edge: self.top_edge,
            bottom_edge: self.bottom_edge,
            fill: self.fill,
            strikethrough: line_opt(self.strikethrough),
            underline: line_opt(self.underline),
            overline: line_opt(self.overline),
        }
    }
}

impl FontStateModel {
    /// The decoration stored in the given slot.
    pub open spec fn decoration(self, kind: LineKind) -> Option<LineState> {
        match kind {
            LineKind::Strikethrough => self.strikethrough,
            LineKind::Underline => self.underline,
            LineKind::Overline => self.overline,
        }
    }
}

/// Clones a shared decoration slot; the clone shares the descriptor.
pub(crate) fn clone_line_slot(o: &Option<Rc<LineState>>) -> (r: Option<Rc<LineState>>)
    ensures
        line_opt(r) == line_opt(*o),
{
    match o {
        Some(l) => Some(l.clone()),
        None => None,
    }
}

impl Clone for FontState {
    fn clone(&self) -> (r: Self)
        ensures
            r@ == self@,
    {
        let r = FontState {
            size: self.size,
            families: self.families.clone(),
            variant: self.variant,
            top_edge: self.top_edge,
            bottom_edge: self.bottom_edge,
            fill: self.fill,
            strikethrough: clone_line_slot(&self.strikethrough),
            underline: clone_line_slot(&self.underline),
            overline: clone_line_slot(&self.overline),
        };
        proof {
            assert(r@ =~= self@);
        }
        r
    }
}

/// The paragraph dimension of the style state, all in length units.
#[derive(Clone, Copy, Debug, PartialEq, Eq, Structural)]
pub struct ParState {
    pub spacing: u64,
    pub leading: u64,
    pub word_spacing: u64,
}

/// The language dimension of the style state.
#[derive(Clone, Copy, Debug, PartialEq, Eq, Structural)]
pub struct LangState {
    pub dir: Dir,
}

/// The aggregate style state of one scope.
#[derive(Debug, PartialEq, Eq)]
pub struct State {
    pub font: FontState,
    pub par: ParState,
    pub lang: LangState,
}

#[verifier::ext_equal]
pub struct StateModel {
    pub font: FontStateModel,
    pub par: ParState,
    pub lang: LangState,
}

impl View for State {
    type V = StateModel;

    open spec fn view(&self) -> StateModel {
        StateModel { font: self.font@, par: self.par, lang: self.lang }
    }
}

impl Clone for State {
    fn clone(&self) -> (r: Self)
        ensures
            r@ == self@,
    {
        let r = State { font: self.font.clone(), par: self.par, lang: self.lang };
        proof {
            assert(r@ =~= self@);
        }
        r
    }
}

impl State {
    /// The process-wide default style state.
    pub open spec fn default_model() -> StateModel {
        StateModel {
            font: FontStateModel {
                size: DEFAULT_FONT_SIZE,
                families: FontFamiliesModel {
                    list: seq![FamilyModel::Serif],
                    serif: seq!["serif"@],
                    sans_serif: seq!["sans-serif"@],
                    monospace: seq!["monospace"@],
                },
                variant: FontVariant {
                    style: FontStyle::Normal,
                    weight: FontWeight(400u16),
                    stretch: FontStretch(1000u16),
                },
                top_edge: VerticalFontMetric::CapHeight,
                bottom_edge: VerticalFontMetric::Baseline,
                fill: Paint::Color(Color { r: 0, g: 0, b: 0, a: 255 }),
                strikethrough: None,
                underline: None,
                overline: None,
            },
            par: ParState { spacing: 1200, leading: 650, word_spacing: 250 },
            lang: LangState { dir: Dir::Ltr },
        }
    }

    /// Builds the default style state.
    pub fn new() -> (s: State)
        ensures
            s@ == State::default_model(),
    {
        let s = State {
            font: FontState {
                size: DEFAULT_FONT_SIZE,
                families: FontFamilies {
                    list: vec![FontFamily::Serif],
                    serif: vec![String::from_str("serif")],
                    sans_serif: vec![String::from_str("sans-serif")],
                    monospace: vec![String::from_str("monospace")],
                },
                variant: FontVariant {
                    style: FontStyle::Normal,
                    weight: FontWeight(400),
                    stretch: FontStretch(1000),
                },
                top_edge: VerticalFontMetric::CapHeight,
                bottom_edge: VerticalFontMetric::Baseline,
                fill: Paint::Color(Color { r: 0, g: 0, b: 0, a: 255 }),
                strikethrough: None,
                underline: None,
                overline: None,
            },
            par: ParState { spacing: 1200, leading: 650, word_spacing: 250 },
            lang: LangState { dir: Dir::Ltr },
        };
        proof {
            assert(s@ =~= State::default_model());
        }
        s
    }
}

} // verus!
