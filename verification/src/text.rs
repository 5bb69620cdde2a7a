//! The built-in style commands: `font`, `par`, `lang` and the three
//! decoration commands.
//!
//! Each command binds and coerces its arguments, records non-fatal
//! diagnostics where an option must be dropped, and returns a deferred
//! template that applies the captured options around its body. No failure
//! here ever aborts evaluation: a failed coercion leaves its option unset.

use vstd::prelude::*;
use std::rc::Rc;
use crate::args::{
    take_all_families, take_color, take_linear, take_named, take_str, Arg, FuncArgs,
};
use crate::font::{
    Color, FamilyModel, FontFamily, FontStretch, FontStyle, FontWeight, LineKind, LineState,
    Paint, VerticalFontMetric,
};
use crate::geom::{Axis, Dir, Linear};
use crate::state::{fam_seq, line_opt, str_seq};
use crate::template::{
    Diag, DiagKind, EvalContext, FontChange, LangChange, ParChange, StyleChange, Template,
};
use crate::value::{
    cast_color, cast_dir, cast_family_def, cast_font_def, cast_font_style, cast_font_stretch,
    cast_font_weight, cast_length, cast_linear, cast_template, cast_vertical_metric,
    color_of, dir_of, family_def_of, font_def_of, font_style_of, font_stretch_of,
    font_weight_of, length_of, linear_of, template_of, vertical_metric_of, Value,
};

verus! {

/// Mathematical value of an optional captured family list.
pub open spec fn opt_fams(o: Option<Vec<FontFamily>>) -> Option<Seq<FamilyModel>> {
    match o {
        Some(v) => Some(fam_seq(v@)),
        None => None::<Seq<FamilyModel>>,
    }
}

/// Mathematical value of an optional captured name list.
pub open spec fn opt_names(o: Option<Vec<String>>) -> Option<Seq<Seq<char>>> {
    match o {
        Some(v) => Some(str_seq(v@)),
        None => None::<Seq<Seq<char>>>,
    }
}

/// The named option `key`, coerced to a linear length, and the remaining
/// arguments.
pub open spec fn named_linear(items: Seq<Arg>, key: Seq<char>) -> (Option<Linear>, Seq<Arg>) {
    let t = take_named(items, key);
    (
        match t.0 {
            Some(a) => linear_of(a.value),
            None => None::<Linear>,
        },
        t.1,
    )
}

/// The named option `key`, coerced to an absolute length, and the
/// remaining arguments.
pub open spec fn named_length(items: Seq<Arg>, key: Seq<char>) -> (Option<u64>, Seq<Arg>) {
    let t = take_named(items, key);
    (
        match t.0 {
            Some(a) => length_of(a.value),
            None => None::<u64>,
        },
        t.1,
    )
}

/// The required body option: a missing or non-template body degrades to the
/// empty body with one diagnostic.
pub open spec fn body_step(span: u64, items: Seq<Arg>) -> (Template, Seq<Diag>, Seq<Arg>) {
    let t = take_named(items, "body"@);
    match t.0 {
        Some(a) => match template_of(a.value) {
            Some(tp) => (tp, Seq::<Diag>::empty(), t.1),
            None => (
                Template::Empty,
                seq![Diag { span: a.span, kind: DiagKind::ExpectedTemplate }],
                t.1,
            ),
        },
        None => (Template::Empty, seq![Diag { span, kind: DiagKind::MissingBody }], t.1),
    }
}

/// Takes the required body argument; on failure records the diagnostic and
/// falls back to the empty body.
fn expect_body(ctx: &mut EvalContext, args: &mut FuncArgs) -> (b: Template)
    ensures
        final(ctx).state == old(ctx).state,
        final(ctx).output == old(ctx).output,
        final(args).span == old(args).span,
        ({
            let s = body_step(old(args).span, old(args).items@);
            &&& b == s.0
            &&& final(ctx).diags@ == old(ctx).diags@ + s.1
            &&& final(args).items@ == s.2
        }),
{
    let r = match args.take_named_arg("body") {
        Some(a) => {
            let span = a.span;
            match cast_template(a.value) {
                Some(t) => t,
                None => {
                    ctx.diag(Diag { span, kind: DiagKind::ExpectedTemplate });
                    Template::Empty
                },
            }
        },
        None => {
            ctx.diag(Diag { span: args.span, kind: DiagKind::MissingBody });
            Template::Empty
        },
    };
    proof {
        let s = body_step(old(args).span, old(args).items@);
        assert(ctx.diags@ =~= old(ctx).diags@ + s.1);
    }
    r
}

/// Everything one `font` invocation extracts from its arguments.
pub struct FontExtract {
    pub list: Option<Seq<FamilyModel>>,
    pub size: Option<Linear>,
    pub style: Option<FontStyle>,
    pub weight: Option<FontWeight>,
    pub stretch: Option<FontStretch>,
    pub top_edge: Option<VerticalFontMetric>,
    pub bottom_edge: Option<VerticalFontMetric>,
    pub fill: Option<Color>,
    pub serif: Option<Seq<Seq<char>>>,
    pub sans_serif: Option<Seq<Seq<char>>>,
    pub monospace: Option<Seq<Seq<char>>>,
    pub body: Template,
    pub diags: Seq<Diag>,
    pub rest: Seq<Arg>,
}

/// How `font` binds its arguments: the positional family list (or the
/// `family` option), the positional or named size, the named options, and
/// the body.
pub open spec fn font_extract(span: u64, items: Seq<Arg>) -> FontExtract {
    let t0 = take_all_families(items);
    let list_it = if t0.0.len() > 0 {
        (Some(t0.0), t0.1)
    } else {
        let tn = take_named(t0.1, "family"@);
        (
            match tn.0 {
                Some(a) => font_def_of(a.value),
                None => None::<Seq<FamilyModel>>,
            },
            tn.1,
        )
    };
    let t1 = take_linear(list_it.1);
    let size_it = match t1.0 {
        Some(a) => (linear_of(a.value), t1.1),
        None => {
            let tn = take_named(t1.1, "size"@);
            (
                match tn.0 {
                    Some(a) => linear_of(a.value),
                    None => None::<Linear>,
                },
                tn.1,
            )
        },
    };
    let t2 = take_named(size_it.1, "style"@);
    let style = match t2.0 {
        Some(a) => font_style_of(a.value),
        None => None::<FontStyle>,
    };
    let t3 = take_named(t2.1, "weight"@);
    let weight = match t3.0 {
        Some(a) => font_weight_of(a.value),
        None => None::<FontWeight>,
    };
    let t4 = take_named(t3.1, "stretch"@);
    let stretch = match t4.0 {
        Some(a) => font_stretch_of(a.value),
        None => None::<FontStretch>,
    };
    let t5 = take_named(t4.1, "top-edge"@);
    let top_edge = match t5.0 {
        Some(a) => vertical_metric_of(a.value),
        None => None::<VerticalFontMetric>,
    };
    let t6 = take_named(t5.1, "bottom-edge"@);
    let bottom_edge = match t6.0 {
        Some(a) => vertical_metric_of(a.value),
        None => None::<VerticalFontMetric>,
    };
    let t7 = take_named(t6.1, "fill"@);
    let fill = match t7.0 {
        Some(a) => color_of(a.value),
        None => None::<Color>,
    };
    let t8 = take_named(t7.1, "serif"@);
    let serif = match t8.0 {
        Some(a) => family_def_of(a.value),
        None => None::<Seq<Seq<char>>>,
    };
    let t9 = take_named(t8.1, "sans-serif"@);
    let sans_serif = match t9.0 {
        Some(a) => family_def_of(a.value),
        None => None::<Seq<Seq<char>>>,
    };
    let t10 = take_named(t9.1, "monospace"@);
    let monospace = match t10.0 {
        Some(a) => family_def_of(a.value),
        None => None::<Seq<Seq<char>>>,
    };
    let s = body_step(span, t10.1);
    FontExtract {
        list: list_it.0,
        size: size_it.0,
        style,
        weight,
        stretch,
        top_edge,
        bottom_edge,
        fill,
        serif,
        sans_serif,
        monospace,
        body: s.0,
        diags: s.1,
        rest: s.2,
    }
}

/// Whether `v` is the font template `font` owes for the extract `e`.
pub open spec fn font_result_ok(v: Value, e: FontExtract) -> bool {
    match v {
        Value::Template(t) => match t {
            Template::Styled(c, b) => match c {
                StyleChange::Font(fc) => {
                    &&& opt_fams(fc.list) == e.list
                    &&& fc.size == e.size
                    &&& fc.style == e.style
                    &&& fc.weight == e.weight
                    &&& fc.stretch == e.stretch
                    &&& fc.top_edge == e.top_edge
                    &&& fc.bottom_edge == e.bottom_edge
                    &&& fc.fill == e.fill
                    &&& opt_names(fc.serif) == e.serif
                    &&& opt_names(fc.sans_serif) == e.sans_serif
                    &&& opt_names(fc.monospace) == e.monospace
                    &&& *b == e.body
                },
                _ => false,
            },
            _ => false,
        },
        _ => false,
    }
}

/// `font`: Configure the font.
#[verifier::rlimit(80)]
pub fn font(ctx: &mut EvalContext, args: &mut FuncArgs) -> (v: Value)
    ensures
        final(ctx).state == old(ctx).state,
        final(ctx).output == old(ctx).output,
        final(args).span == old(args).span,
        ({
            let e = font_extract(old(args).span, old(args).items@);
            &&& final(args).items@ == e.rest
            &&& final(ctx).diags@ == old(ctx).diags@ + e.diags
            &&& font_result_ok(v, e)
        }),
{
    let families = args.all_families();
    proof {
        assert(fam_seq(families@).len() == families@.len());
    }
    let list: Option<Vec<FontFamily>> = if families.len() == 0 {
        match args.take_named_arg("family") {
            Some(a) => cast_font_def(&a.value),
            None => None,
        }
    } else {
        Some(families)
    };
    let size = match args.eat_linear() {
        Some(l) => Some(l),
        None => match args.take_named_arg("size") {
            Some(a) => cast_linear(&a.value),
            None => None,
        },
    };
    let style = match args.take_named_arg("style") {
        Some(a) => cast_font_style(&a.value),
        None => None,
    };
    let weight = match args.take_named_arg("weight") {
        Some(a) => cast_font_weight(&a.value),
        None => None,
    };
    let stretch = match args.take_named_arg("stretch") {
        Some(a) => cast_font_stretch(&a.value),
        None => None,
    };
    let top_edge = match args.take_named_arg("top-edge") {
        Some(a) => cast_vertical_metric(&a.value),
        None => None,
    };
    let bottom_edge = match args.take_named_arg("bottom-edge") {
        Some(a) => cast_vertical_metric(&a.value),
        None => None,
    };
    let fill = match args.take_named_arg("fill") {
        Some(a) => cast_color(&a.value),
        None => None,
    };
    let serif = match args.take_named_arg("serif") {
        Some(a) => cast_family_def(&a.value),
        None => None,
    };
    let sans_serif = match args.take_named_arg("sans-serif") {
        Some(a) => cast_family_def(&a.value),
        None => None,
    };
    let monospace = match args.take_named_arg("monospace") {
        Some(a) => cast_family_def(&a.value),
        None => None,
    };
    let body = expect_body(ctx, args);
    let change = StyleChange::Font(
        FontChange {
            size,
            list,
            style,
            weight,
            stretch,
            top_edge,
            bottom_edge,
            fill,
            serif,
            sans_serif,
            monospace,
        },
    );
    Value::Template(Template::Styled(change, Box::new(body)))
}

/// Everything one `par` invocation extracts from its arguments.
pub struct ParExtract {
    pub spacing: Option<u64>,
    pub leading: Option<u64>,
    pub word_spacing: Option<u64>,
    pub body: Template,
    pub diags: Seq<Diag>,
    pub rest: Seq<Arg>,
}

/// How `par` binds its arguments.
pub open spec fn par_extract(span: u64, items: Seq<Arg>) -> ParExtract {
    let t0 = named_length(items, "spacing"@);
    let t1 = named_length(t0.1, "leading"@);
    let t2 = named_length(t1.1, "word-spacing"@);
    let s = body_step(span, t2.1);
    ParExtract {
        spacing: t0.0,
        leading: t1.0,
        word_spacing: t2.0,
        body: s.0,
        diags: s.1,
        rest: s.2,
    }
}

/// Whether `v` is the paragraph template `par` owes for the extract `e`.
pub open spec fn par_result_ok(v: Value, e: ParExtract) -> bool {
    match v {
        Value::Template(t) => match t {
            Template::Styled(c, b) => match c {
                StyleChange::Par(pc) => {
                    &&& pc.spacing == e.spacing
                    &&& pc.leading == e.leading
                    &&& pc.word_spacing == e.word_spacing
                    &&& *b == e.body
                },
                _ => false,
            },
            _ => false,
        },
        _ => false,
    }
}

/// `par`: Configure paragraphs.
pub fn par(ctx: &mut EvalContext, args: &mut FuncArgs) -> (v: Value)
    ensures
        final(ctx).state == old(ctx).state,
        final(ctx).output == old(ctx).output,
        final(args).span == old(args).span,
        ({
            let e = par_extract(old(args).span, old(args).items@);
            &&& final(args).items@ == e.rest
            &&& final(ctx).diags@ == old(ctx).diags@ + e.diags
            &&& par_result_ok(v, e)
        }),
{
    let spacing = match args.take_named_arg("spacing") {
        Some(a) => cast_length(&a.value),
        None => None,
    };
    let leading = match args.take_named_arg("leading") {
        Some(a) => cast_length(&a.value),
        None => None,
    };
    let word_spacing = match args.take_named_arg("word-spacing") {
        Some(a) => cast_length(&a.value),
        None => None,
    };
    let body = expect_body(ctx, args);
    let change = StyleChange::Par(ParChange { spacing, leading, word_spacing });
    Value::Template(Template::Styled(change, Box::new(body)))
}

/// The lowercased form of an upper-case ASCII letter; other characters
/// stay as they are.
pub open spec fn ascii_lower_char(c: char) -> char {
    if 65 <= c as u32 <= 90 {
        (((c as u32) + 32) as u8) as char
    } else {
        c
    }
}

/// ASCII-lowercases a character sequence.
pub open spec fn ascii_lower_seq(s: Seq<char>) -> Seq<char> {
    s.map_values(|c: char| ascii_lower_char(c))
}

/// Whether a lowercased language code belongs to a right-to-left language.
pub open spec fn rtl_code(s: Seq<char>) -> bool {
    ||| s == seq!['a', 'r']
    ||| s == seq!['h', 'e']
    ||| s == seq!['f', 'a']
    ||| s == seq!['u', 'r']
    ||| s == seq!['p', 's']
    ||| s == seq!['y', 'i']
}

/// The default direction of the language identified by `iso`.
pub open spec fn lang_dir_spec(s: Seq<char>) -> Dir {
    if rtl_code(ascii_lower_seq(s)) {
        Dir::Rtl
    } else {
        Dir::Ltr
    }
}

fn lower_ascii_char(c: char) -> (r: char)
    ensures
        r == ascii_lower_char(c),
{
    let u = c as u32;
    if 65 <= u && u <= 90 {
        ((u + 32) as u8) as char
    } else {
        c
    }
}

/// The default direction for the language identified by `iso`.
pub fn lang_dir(iso: &str) -> (d: Dir)
    ensures
        d == lang_dir_spec(iso@),
{
    let n = iso.unicode_len();
    if n != 2 {
        proof {
            assert(ascii_lower_seq(iso@).len() == iso@.len());
        }
        return Dir::Ltr;
    }
    let c0 = lower_ascii_char(iso.get_char(0));
    let c1 = lower_ascii_char(iso.get_char(1));
    proof {
        assert(ascii_lower_seq(iso@) =~= seq![c0, c1]);
    }
    let rtl = (c0 == 'a' && c1 == 'r') || (c0 == 'h' && c1 == 'e') || (c0 == 'f' && c1 == 'a')
        || (c0 == 'u' && c1 == 'r') || (c0 == 'p' && c1 == 's') || (c0 == 'y' && c1 == 'i');
    if rtl {
        Dir::Rtl
    } else {
        Dir::Ltr
    }
}

/// Everything one `lang` invocation extracts from its arguments.
pub struct LangExtract {
    pub dir: Option<Dir>,
    pub body: Template,
    pub diags: Seq<Diag>,
    pub rest: Seq<Arg>,
}

/// How `lang` binds its arguments: an explicit horizontal `dir` option wins
/// over the positional language code's default direction; a vertical `dir`
/// is dropped with one diagnostic and the code's default applies.
pub open spec fn lang_extract(span: u64, items: Seq<Arg>) -> LangExtract {
    let t0 = take_str(items);
    let iso = match t0.0 {
        Some(a) => Some(lang_dir_spec(crate::value::str_of(a.value)->Some_0)),
        None => None::<Dir>,
    };
    let t1 = take_named(t0.1, "dir"@);
    let dir_diags = match t1.0 {
        Some(a) => match dir_of(a.value) {
            Some(d) => if d.axis_spec() == Axis::Horizontal {
                (Some(d), Seq::<Diag>::empty())
            } else {
                (None::<Dir>, seq![Diag { span: a.span, kind: DiagKind::MustBeHorizontal }])
            },
            None => (None::<Dir>, Seq::<Diag>::empty()),
        },
        None => (None::<Dir>, Seq::<Diag>::empty()),
    };
    let chosen = match dir_diags.0 {
        Some(d) => Some(d),
        None => iso,
    };
    let s = body_step(span, t1.1);
    LangExtract { dir: chosen, body: s.0, diags: dir_diags.1 + s.1, rest: s.2 }
}

/// Whether `v` is the language template `lang` owes for the extract `e`.
pub open spec fn lang_result_ok(v: Value, e: LangExtract) -> bool {
    match v {
        Value::Template(t) => match t {
            Template::Styled(c, b) => match c {
                StyleChange::Lang(lc) => lc.dir == e.dir && *b == e.body,
                _ => false,
            },
            _ => false,
        },
        _ => false,
    }
}

/// `lang`: Configure the language.
pub fn lang(ctx: &mut EvalContext, args: &mut FuncArgs) -> (v: Value)
    ensures
        final(ctx).state == old(ctx).state,
        final(ctx).output == old(ctx).output,
        final(args).span == old(args).span,
        ({
            let e = lang_extract(old(args).span, old(args).items@);
            &&& final(args).items@ == e.rest
            &&& final(ctx).diags@ == old(ctx).diags@ + e.diags
            &&& lang_result_ok(v, e)
        }),
{
    let iso = match args.eat_str() {
        Some(s) => Some(lang_dir(s.as_str())),
        None => None,
    };
    let dir = match args.take_named_arg("dir") {
        Some(a) => {
            let span = a.span;
            match cast_dir(&a.value) {
                Some(d) => {
                    if d.axis() == Axis::Horizontal {
                        Some(d)
                    } else {
                        ctx.diag(Diag { span, kind: DiagKind::MustBeHorizontal });
                        None
                    }
                },
                None => None,
            }
        },
        None => None,
    };
    let chosen = match dir {
        Some(d) => Some(d),
        None => iso,
    };
    let body = expect_body(ctx, args);
    proof {
        let e = lang_extract(old(args).span, old(args).items@);
        assert(ctx.diags@ =~= old(ctx).diags@ + e.diags);
    }
    let change = StyleChange::Lang(LangChange { dir: chosen });
    Value::Template(Template::Styled(change, Box::new(body)))
}

/// Everything one decoration invocation extracts from its arguments.
pub struct LineExtract {
    /// The descriptor to install, or `None` to clear the inherited one.
    pub state: Option<LineState>,
    pub body: Template,
    pub diags: Seq<Diag>,
    pub rest: Seq<Arg>,
}

/// How a decoration command binds its arguments: positional or named
/// stroke and thickness, named offset and extent, and the body. An
/// explicitly zero thickness suppresses the descriptor, clearing the
/// inherited decoration rather than setting a zero-valued one.
pub open spec fn line_extract(span: u64, items: Seq<Arg>) -> LineExtract {
    let t0 = take_color(items);
    let stroke_it = match t0.0 {
        Some(a) => (color_of(a.value), t0.1),
        None => {
            let tn = take_named(t0.1, "stroke"@);
            (
                match tn.0 {
                    Some(a) => color_of(a.value),
                    None => None::<Color>,
                },
                tn.1,
            )
        },
    };
    let t1 = take_linear(stroke_it.1);
    let thickness_it = match t1.0 {
        Some(a) => (linear_of(a.value), t1.1),
        None => {
            let tn = take_named(t1.1, "thickness"@);
            (
                match tn.0 {
                    Some(a) => linear_of(a.value),
                    None => None::<Linear>,
                },
                tn.1,
            )
        },
    };
    let t2 = named_linear(thickness_it.1, "offset"@);
    let t3 = named_linear(t2.1, "extent"@);
    let extent = match t3.0 {
        Some(l) => l,
        None => Linear { abs: 0, rel: 0 },
    };
    let s = body_step(span, t3.1);
    let suppressed = match thickness_it.0 {
        Some(l) => l.is_zero_spec(),
        None => false,
    };
    let state = if suppressed {
        None::<LineState>
    } else {
        Some(
            LineState {
                stroke: match stroke_it.0 {
                    Some(c) => Some(Paint::Color(c)),
                    None => None::<Paint>,
                },
                thickness: thickness_it.0,
                offset: t2.0,
                extent,
            },
        )
    };
    LineExtract { state, body: s.0, diags: s.1, rest: s.2 }
}

/// Whether `v` is the decoration template a line command owes for the
/// extract `e` and slot `kind`.
pub open spec fn line_result_ok(v: Value, kind: LineKind, e: LineExtract) -> bool {
    match v {
        Value::Template(t) => match t {
            Template::Styled(c, b) => match c {
                StyleChange::Line(k, d) => k == kind && line_opt(d) == e.state && *b == e.body,
                _ => false,
            },
            _ => false,
        },
        _ => false,
    }
}

/// Builds the deferred decoration template for one decoration slot.
pub fn line_impl(ctx: &mut EvalContext, args: &mut FuncArgs, kind: LineKind) -> (v: Value)
    ensures
        final(ctx).state == old(ctx).state,
        final(ctx).output == old(ctx).output,
        final(args).span == old(args).span,
        ({
            let e = line_extract(old(args).span, old(args).items@);
            &&& final(args).items@ == e.rest
            &&& final(ctx).diags@ == old(ctx).diags@ + e.diags
            &&& line_result_ok(v, kind, e)
        }),
{
    let stroke = match args.eat_color() {
        Some(c) => Some(c),
        None => match args.take_named_arg("stroke") {
            Some(a) => cast_color(&a.value),
            None => None,
        },
    };
    let thickness = match args.eat_linear() {
        Some(l) => Some(l),
        None => match args.take_named_arg("thickness") {
            Some(a) => cast_linear(&a.value),
            None => None,
        },
    };
    let offset = match args.take_named_arg("offset") {
        Some(a) => cast_linear(&a.value),
        None => None,
    };
    let extent = match args.take_named_arg("extent") {
        Some(a) => match cast_linear(&a.value) {
            Some(l) => l,
            None => Linear::zero(),
        },
        None => Linear::zero(),
    };
    let body = expect_body(ctx, args);
    let suppressed = match &thickness {
        Some(l) => l.is_zero(),
        None => false,
    };
    let state: Option<Rc<LineState>> = if suppressed {
        None
    } else {
        let paint = match stroke {
            Some(c) => Some(Paint::Color(c)),
            None => None,
        };
        Some(Rc::new(LineState { stroke: paint, thickness, offset, extent }))
    };
    Value::Template(Template::Styled(StyleChange::Line(kind, state), Box::new(body)))
}

/// `strike`: Enable struck-through text.
pub fn strike(ctx: &mut EvalContext, args: &mut FuncArgs) -> (v: Value)
    ensures
        final(ctx).state == old(ctx).state,
        final(ctx).output == old(ctx).output,
        final(args).span == old(args).span,
        ({
            let e = line_extract(old(args).span, old(args).items@);
            &&& final(args).items@ == e.rest
            &&& final(ctx).diags@ == old(ctx).diags@ + e.diags
            &&& line_result_ok(v, LineKind::Strikethrough, e)
        }),
{
    line_impl(ctx, args, LineKind::Strikethrough)
}

/// `underline`: Enable underlined text.
pub fn underline(ctx: &mut EvalContext, args: &mut FuncArgs) -> (v: Value)
    ensures
        final(ctx).state == old(ctx).state,
        final(ctx).output == old(ctx).output,
        final(args).span == old(args).span,
        ({
            let e = line_extract(old(args).span, old(args).items@);
            &&& final(args).items@ == e.rest
            &&& final(ctx).diags@ == old(ctx).diags@ + e.diags
            &&& line_result_ok(v, LineKind::Underline, e)
        }),
{
    line_impl(ctx, args, LineKind::Underline)
}

/// `overline`: Add an overline above text.
pub fn overline(ctx: &mut EvalContext, args: &mut FuncArgs) -> (v: Value)
    ensures
        final(ctx).state == old(ctx).state,
        final(ctx).output == old(ctx).output,
        final(args).span == old(args).span,
        ({
            let e = line_extract(old(args).span, old(args).items@);
            &&& final(args).items@ == e.rest
            &&& final(ctx).diags@ == old(ctx).diags@ + e.diags
            &&& line_result_ok(v, LineKind::Overline, e)
        }),
{
    line_impl(ctx, args, LineKind::Overline)
}

} // verus!
