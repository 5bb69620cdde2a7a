//! Dynamically typed argument values and the coercion rules that turn them
//! into typed domain values.
//!
//! Each target type has a closed, ordered set of rules over the value's
//! shape; the first matching rule wins and no match is a definite failure.
//! Array-valued coercions never fail outright: coercible elements are kept
//! in order, the rest are dropped.

use vstd::prelude::*;
use crate::font::{
    Color, FamilyModel, FontFamily, FontStretch, FontStyle, FontWeight, VerticalFontMetric,
};
use crate::geom::{Dir, Linear};
use crate::state::fam_seq;
use crate::template::Template;

verus! {

/// A dynamically typed argument value of the document language.
#[derive(Debug)]
pub enum Value {
    Int(i64),
    Length(u64),
    Relative(u64),
    Linear(Linear),
    Str(String),
    Color(Color),
    Dir(Dir),
    FontStyle(FontStyle),
    Family(FontFamily),
    VerticalMetric(VerticalFontMetric),
    Array(Vec<Value>),
    Template(Template),
}

/// The character sequence `str::to_lowercase` yields for `s`.
pub uninterp spec fn lower_of(s: Seq<char>) -> Seq<char>;

/// Relies on `str::to_lowercase`: the lowercased string; the result depends
/// on the characters alone, and an empty string stays empty.
#[verifier::external_body]
fn lowercase(s: &str) -> (r: String)
    ensures
        r@ == lower_of(s@),
        s@.len() == 0 ==> r@.len() == 0,
{
    s.to_lowercase()
}

/// Coercion rule set for linear length expressions.
pub open spec fn linear_of(v: Value) -> Option<Linear> {
    match v {
        Value::Length(a) => Some(Linear { abs: a, rel: 0 }),
        Value::Relative(r) => Some(Linear { abs: 0, rel: r }),
        Value::Linear(l) => Some(l),
        _ => None,
    }
}

pub fn cast_linear(v: &Value) -> (r: Option<Linear>)
    ensures
        r == linear_of(*v),
{
    match v {
        Value::Length(a) => Some(Linear { abs: *a, rel: 0 }),
        Value::Relative(rel) => Some(Linear { abs: 0, rel: *rel }),
        Value::Linear(l) => Some(*l),
        _ => None,
    }
}

/// Coercion rule set for absolute lengths.
pub open spec fn length_of(v: Value) -> Option<u64> {
    match v {
        Value::Length(a) => Some(a),
        _ => None,
    }
}

pub fn cast_length(v: &Value) -> (r: Option<u64>)
    ensures
        r == length_of(*v),
{
    match v {
        Value::Length(a) => Some(*a),
        _ => None,
    }
}

/// Coercion rule set for colors.
pub open spec fn color_of(v: Value) -> Option<Color> {
    match v {
        Value::Color(c) => Some(c),
        _ => None,
    }
}

pub fn cast_color(v: &Value) -> (r: Option<Color>)
    ensures
        r == color_of(*v),
{
    match v {
        Value::Color(c) => Some(*c),
        _ => None,
    }
}

/// Coercion rule set for directions.
pub open spec fn dir_of(v: Value) -> Option<Dir> {
    match v {
        Value::Dir(d) => Some(d),
        _ => None,
    }
}

pub fn cast_dir(v: &Value) -> (r: Option<Dir>)
    ensures
        r == dir_of(*v),
{
    match v {
        Value::Dir(d) => Some(*d),
        _ => None,
    }
}

/// Coercion rule set for font styles.
pub open spec fn font_style_of(v: Value) -> Option<FontStyle> {
    match v {
        Value::FontStyle(s) => Some(s),
        _ => None,
    }
}

pub fn cast_font_style(v: &Value) -> (r: Option<FontStyle>)
    ensures
        r == font_style_of(*v),
{
    match v {
        Value::FontStyle(s) => Some(*s),
        _ => None,
    }
}

/// Coercion rule set for font weights: an integer lands on the numeric
/// scale; one outside the raw range falls back to the heaviest weight.
pub open spec fn font_weight_of(v: Value) -> Option<FontWeight> {
    match v {
        Value::Int(n) => Some(
            if 0 <= n <= u16::MAX {
                FontWeight::from_number_spec(n as u16)
            } else {
                FontWeight(900u16)
            },
        ),
        _ => None,
    }
}

pub fn cast_font_weight(v: &Value) -> (r: Option<FontWeight>)
    ensures
        r == font_weight_of(*v),
{
    match v {
        Value::Int(n) => {
            if 0 <= *n && *n <= u16::MAX as i64 {
                Some(FontWeight::from_number(*n as u16))
            } else {
                Some(FontWeight::black())
            }
        },
        _ => None,
    }
}

/// Coercion rule set for font stretches: a relative value scales normal
/// width.
pub open spec fn font_stretch_of(v: Value) -> Option<FontStretch> {
    match v {
        Value::Relative(r) => Some(FontStretch::from_ratio_spec(r)),
        _ => None,
    }
}

pub fn cast_font_stretch(v: &Value) -> (r: Option<FontStretch>)
    ensures
        r == font_stretch_of(*v),
{
    match v {
        Value::Relative(rel) => Some(FontStretch::from_ratio(*rel)),
        _ => None,
    }
}

/// Coercion rule set for vertical font metrics.
pub open spec fn vertical_metric_of(v: Value) -> Option<VerticalFontMetric> {
    match v {
        Value::VerticalMetric(m) => Some(m),
        _ => None,
    }
}

pub fn cast_vertical_metric(v: &Value) -> (r: Option<VerticalFontMetric>)
    ensures
        r == vertical_metric_of(*v),
{
    match v {
        Value::VerticalMetric(m) => Some(*m),
        _ => None,
    }
}

/// Coercion rule set for plain strings.
pub open spec fn str_of(v: Value) -> Option<Seq<char>> {
    match v {
        Value::Str(s) => Some(s@),
        _ => None,
    }
}

/// Consumes a value, keeping its string content.
pub fn cast_str(v: Value) -> (r: Option<String>)
    ensures
        match r {
            Some(s) => str_of(v) == Some(s@),
            None => str_of(v) is None,
        },
{
    match v {
        Value::Str(s) => Some(s),
        _ => None,
    }
}

/// Coercion rule set for templates.
pub open spec fn template_of(v: Value) -> Option<Template> {
    match v {
        Value::Template(t) => Some(t),
        _ => None,
    }
}

/// Consumes a value, keeping its template content.
pub fn cast_template(v: Value) -> (r: Option<Template>)
    ensures
        r == template_of(v),
{
    match v {
        Value::Template(t) => Some(t),
        _ => None,
    }
}

/// Coercion rule set for a single font family: a string becomes a named
/// family under its lowercased name; a family value stands for itself.
pub open spec fn family_of(v: Value) -> Option<FamilyModel> {
    match v {
        Value::Str(s) => Some(FamilyModel::Named(lower_of(s@))),
        Value::Family(f) => Some(f@),
        _ => None,
    }
}

pub fn cast_font_family(v: &Value) -> (r: Option<FontFamily>)
    ensures
        match r {
            Some(f) => family_of(*v) == Some(f@),
            None => family_of(*v) is None,
        },
{
    match v {
        Value::Str(s) => Some(FontFamily::Named(lowercase(s.as_str()))),
        Value::Family(f) => Some(f.clone()),
        _ => None,
    }
}

/// The family list an array coerces to: coercible elements in order, the
/// rest dropped.
pub open spec fn family_list_of(vs: Seq<Value>) -> Seq<FamilyModel>
    decreases vs.len(),
{
    if vs.len() == 0 {
        Seq::<FamilyModel>::empty()
    } else {
        let rest = family_list_of(vs.drop_last());
        match family_of(vs.last()) {
            Some(f) => rest.push(f),
            None => rest,
        }
    }
}

/// Coercion rule set for a font family list: a string or single family
/// yields a one-element list; an array is coerced element by element.
pub open spec fn font_def_of(v: Value) -> Option<Seq<FamilyModel>> {
    match v {
        Value::Str(s) => Some(seq![FamilyModel::Named(lower_of(s@))]),
        Value::Array(vs) => Some(family_list_of(vs@)),
        Value::Family(f) => Some(seq![f@]),
        _ => None,
    }
}

pub fn cast_font_def(v: &Value) -> (r: Option<Vec<FontFamily>>)
    ensures
        match r {
            Some(fs) => font_def_of(*v) == Some(fam_seq(fs@)),
            None => font_def_of(*v) is None,
        },
{
    match v {
        Value::Str(s) => {
            let fs = vec![FontFamily::Named(lowercase(s.as_str()))];
            proof {
                assert(fam_seq(fs@) =~= seq![FamilyModel::Named(lower_of(s@))]);
            }
            Some(fs)
        },
        Value::Family(f) => {
            let fs = vec![f.clone()];
            proof {
                assert(fam_seq(fs@) =~= seq![f@]);
            }
            Some(fs)
        },
        Value::Array(vs) => {
            let mut fs: Vec<FontFamily> = Vec::new();
            let mut i: usize = 0;
            while i < vs.len()
                invariant
                    i <= vs.len(),
                    fam_seq(fs@) =~= family_list_of(vs@.subrange(0, i as int)),
                decreases vs.len() - i,
            {
                let ghost pre = fs@;
                if let Some(f) = cast_font_family(&vs[i]) {
                    fs.push(f);
                }
                proof {
                    assert(vs@.subrange(0, i + 1).drop_last() =~= vs@.subrange(0, i as int));
                    assert(vs@.subrange(0, i + 1).last() == vs@[i as int]);
                    if family_of(vs@[i as int]) is Some {
                        assert(fam_seq(fs@) =~= fam_seq(pre).push(family_of(
                            vs@[i as int],
                        )->Some_0));
                    } else {
                        assert(fam_seq(fs@) =~= fam_seq(pre));
                    }
                }
                i += 1;
            }
            proof {
                assert(vs@.subrange(0, vs@.len() as int) =~= vs@);
            }
            Some(fs)
        },
        _ => None,
    }
}

/// The lowercased name list an array coerces to: string elements, in
/// order, lowercased; the rest dropped.
pub open spec fn name_list_of(vs: Seq<Value>) -> Seq<Seq<char>>
    decreases vs.len(),
{
    if vs.len() == 0 {
        Seq::<Seq<char>>::empty()
    } else {
        let rest = name_list_of(vs.drop_last());
        match str_of(vs.last()) {
            Some(s) => rest.push(lower_of(s)),
            None => rest,
        }
    }
}

/// Coercion rule set for a generic-class family name list: a string yields
/// its lowercased self; an array is coerced element by element.
pub open spec fn family_def_of(v: Value) -> Option<Seq<Seq<char>>> {
    match v {
        Value::Str(s) => Some(seq![lower_of(s@)]),
        Value::Array(vs) => Some(name_list_of(vs@)),
        _ => None,
    }
}

pub fn cast_family_def(v: &Value) -> (r: Option<Vec<String>>)
    ensures
        match r {
            Some(ns) => family_def_of(*v) == Some(crate::state::str_seq(ns@)),
            None => family_def_of(*v) is None,
        },
{
    match v {
        Value::Str(s) => {
            let ns = vec![lowercase(s.as_str())];
            proof {
                assert(crate::state::str_seq(ns@) =~= seq![lower_of(s@)]);
            }
            Some(ns)
        },
        Value::Array(vs) => {
            let mut ns: Vec<String> = Vec::new();
            let mut i: usize = 0;
            while i < vs.len()
                invariant
                    i <= vs.len(),
                    crate::state::str_seq(ns@) =~= name_list_of(vs@.subrange(0, i as int)),
                decreases vs.len() - i,
            {
                let ghost pre = ns@;
                match &vs[i] {
                    Value::Str(s) => {
                        ns.push(lowercase(s.as_str()));
                    },
                    _ => {},
                }
                proof {
                    assert(vs@.subrange(0, i + 1).drop_last() =~= vs@.subrange(0, i as int));
                    assert(vs@.subrange(0, i + 1).last() == vs@[i as int]);
                    if str_of(vs@[i as int]) is Some {
                        assert(crate::state::str_seq(ns@) =~= crate::state::str_seq(pre).push(
                            lower_of(str_of(vs@[i as int])->Some_0),
                        ));
                    } else {
                        assert(crate::state::str_seq(ns@) =~= crate::state::str_seq(pre));
                    }
                }
                i += 1;
            }
            proof {
                assert(vs@.subrange(0, vs@.len() as int) =~= vs@);
            }
            Some(ns)
        },
        _ => None,
    }
}

/// Round-trip law, single string: coercing a family name string to a
/// family list yields exactly the one-element list of the lowercased name.
pub proof fn lemma_family_string_roundtrip(v: Value)
    requires
        v is Str,
    ensures
        match v {
            Value::Str(s) => font_def_of(v) == Some(seq![FamilyModel::Named(lower_of(s@))]),
            _ => false,
        },
{
}

/// Round-trip law, arrays: coercing an array of values to a family list
/// keeps exactly the coercible elements, coerced, in their original order;
/// elements with no applicable rule are dropped and never fail the whole
/// conversion.
pub proof fn lemma_family_array_filters(vs: Seq<Value>)
    ensures
        family_list_of(vs) == vs.filter(|v: Value| family_of(v) is Some).map_values(
            |v: Value| family_of(v)->Some_0,
        ),
    decreases vs.len(),
{
    reveal(Seq::filter);
    let pred = |v: Value| family_of(v) is Some;
    let f = |v: Value| family_of(v)->Some_0;
    if vs.len() == 0 {
        assert(family_list_of(vs) =~= vs.filter(pred).map_values(f));
    } else {
        lemma_family_array_filters(vs.drop_last());
        assert(vs.filter(pred) == if pred(vs.last()) {
            vs.drop_last().filter(pred).push(vs.last())
        } else {
            vs.drop_last().filter(pred)
        });
        if pred(vs.last()) {
            assert(vs.filter(pred).map_values(f) =~= vs.drop_last().filter(pred).map_values(
                f,
            ).push(f(vs.last())));
        }
        assert(family_list_of(vs) =~= vs.filter(pred).map_values(f));
    }
}

} // verus!
