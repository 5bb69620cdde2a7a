//! Deferred style templates and the formatting context they execute
//! against.
//!
//! A template captures already-coerced style options and a nested body.
//! Executing it applies the options to a derived copy of the current style
//! state, runs the body under that state, and restores the previous state
//! once the body completes, so sibling content is never affected.

use vstd::prelude::*;
use std::rc::Rc;
use crate::font::{
    Color, FontFamily, FontStretch, FontStyle, FontVariant, FontWeight, LineKind, LineState,
    Paint, VerticalFontMetric,
};
use crate::geom::{Dir, Linear};
use crate::state::{
    clone_family_vec, clone_line_slot, clone_string_vec, fam_seq, line_opt, str_seq,
    FontFamiliesModel, FontStateModel, LangState, ParState, State, StateModel,
};

verus! {

/// What a non-fatal diagnostic reports.
#[derive(Clone, Copy, Debug, PartialEq, Eq, Structural)]
pub enum DiagKind {
    /// A direction option lay on the vertical axis and was dropped.
    MustBeHorizontal,
    /// The required body argument was absent; an empty body was used.
    MissingBody,
    /// The body argument was present but was no template.
    ExpectedTemplate,
}

/// A non-fatal diagnostic, recorded while a command binds its arguments.
#[derive(Clone, Copy, Debug, PartialEq, Eq, Structural)]
pub struct Diag {
    pub span: u64,
    pub kind: DiagKind,
}

/// The font options one `font` invocation sets; absent options inherit.
#[derive(Debug)]
pub struct FontChange {
    pub size: Option<Linear>,
    pub list: Option<Vec<FontFamily>>,
    pub style: Option<FontStyle>,
    pub weight: Option<FontWeight>,
    pub stretch: Option<FontStretch>,
    pub top_edge: Option<VerticalFontMetric>,
    pub bottom_edge: Option<VerticalFontMetric>,
    pub fill: Option<Color>,
    pub serif: Option<Vec<String>>,
    pub sans_serif: Option<Vec<String>>,
    pub monospace: Option<Vec<String>>,
}

/// The paragraph options one `par` invocation sets.
#[derive(Clone, Copy, Debug, PartialEq, Eq)]
pub struct ParChange {
    pub spacing: Option<u64>,
    pub leading: Option<u64>,
    pub word_spacing: Option<u64>,
}

/// The language options one `lang` invocation sets.
#[derive(Clone, Copy, Debug, PartialEq, Eq)]
pub struct LangChange {
    pub dir: Option<Dir>,
}

/// The scoped style mutation a template carries.
#[derive(Debug)]
pub enum StyleChange {
    Font(FontChange),
    Par(ParChange),
    Lang(LangChange),
    /// Installs (or, for `None`, clears) one decoration slot.
    Line(LineKind, Option<Rc<LineState>>),
}

/// The font state after one font change is applied to `f`. A relative size
/// resolves against the size `f` carries at application time.
pub open spec fn apply_font_change(c: FontChange, f: FontStateModel) -> FontStateModel {
    FontStateModel {
        size: match c.size {
            Some(l) => l.resolve_spec(f.size),
            None => f.size,
        },
        families: FontFamiliesModel {
            list: match c.list {
                Some(v) => fam_seq(v@),
                None => f.families.list,
            },
            serif: match c.serif {
                Some(v) => str_seq(v@),
                None => f.families.serif,
            },
            sans_serif: match c.sans_serif {
                Some(v) => str_seq(v@),
                None => f.families.sans_serif,
            },
            monospace: match c.monospace {
                Some(v) => str_seq(v@),
                None => f.families.monospace,
            },
        },
        variant: FontVariant {
            style: match c.style {
                Some(s) => s,
                None => f.variant.style,
            },
            weight: match c.weight {
                Some(w) => w,
                None => f.variant.weight,
            },
            stretch: match c.stretch {
                Some(s) => s,
                None => f.variant.stretch,
            },
        },
        top_edge: match c.top_edge {
            Some(e) => e,
            None => f.top_edge,
        },
        bottom_edge: match c.bottom_edge {
            Some(e) => e,
            None => f.bottom_edge,
        },
        fill: match c.fill {
            Some(col) => Paint::Color(col),
            None => f.fill,
        },
        strikethrough: f.strikethrough,
        underline: f.underline,
        overline: f.overline,
    }
}

/// The font state with one decoration slot replaced.
pub open spec fn with_decoration(
    f: FontStateModel,
    kind: LineKind,
    d: Option<LineState>,
) -> FontStateModel {
    match kind {
        LineKind::Strikethrough => FontStateModel { strikethrough: d, ..f },
        LineKind::Underline => FontStateModel { underline: d, ..f },
        LineKind::Overline => FontStateModel { overline: d, ..f },
    }
}

/// The style state after a change is applied: exactly the set options are
/// replaced, everything else inherits from `s`.
pub open spec fn apply_change_spec(c: StyleChange, s: StateModel) -> StateModel {
    match c {
        StyleChange::Font(fc) => StateModel { font: apply_font_change(fc, s.font), ..s },
        StyleChange::Par(pc) => StateModel {
            par: ParState {
                spacing: match pc.spacing {
                    Some(x) => x,
                    None => s.par.spacing,
                },
                leading: match pc.leading {
                    Some(x) => x,
                    None => s.par.leading,
                },
                word_spacing: match pc.word_spacing {
                    Some(x) => x,
                    None => s.par.word_spacing,
                },
            },
            ..s
        },
        StyleChange::Lang(lc) => StateModel {
            lang: LangState {
                dir: match lc.dir {
                    Some(d) => d,
                    None => s.lang.dir,
                },
            },
            ..s
        },
        StyleChange::Line(kind, d) => StateModel {
            font: with_decoration(s.font, kind, line_opt(d)),
            ..s
        },
    }
}

impl StyleChange {
    /// Whether this change triggers a paragraph break before its body.
    pub open spec fn breaks_par_spec(self) -> bool {
        self is Par || self is Lang
    }

    pub fn breaks_par(&self) -> (r: bool)
        ensures
            r == self.breaks_par_spec(),
    {
        match self {
            StyleChange::Par(_) => true,
            StyleChange::Lang(_) => true,
            _ => false,
        }
    }

    /// Whether this change sets no option at all.
    pub open spec fn sets_nothing(self) -> bool {
        match self {
            StyleChange::Font(fc) => {
                &&& fc.size is None
                &&& fc.list is None
                &&& fc.style is None
                &&& fc.weight is None
                &&& fc.stretch is None
                &&& fc.top_edge is None
                &&& fc.bottom_edge is None
                &&& fc.fill is None
                &&& fc.serif is None
                &&& fc.sans_serif is None
                &&& fc.monospace is None
            },
            StyleChange::Par(pc) => pc.spacing is None && pc.leading is None
                && pc.word_spacing is None,
            StyleChange::Lang(lc) => lc.dir is None,
            StyleChange::Line(_, _) => false,
        }
    }
}

impl State {
    /// The derived working copy of this state with a change applied.
    #[verifier::rlimit(60)]
    pub fn updated(&self, c: &StyleChange) -> (r: State)
        ensures
            r@ == apply_change_spec(*c, self@),
    {
        let mut r = self.clone();
        match c {
            StyleChange::Font(fc) => {
                if let Some(l) = &fc.size {
                    r.font.size = l.resolve(self.font.size);
                }
                if let Some(v) = &fc.list {
                    r.font.families.list = clone_family_vec(v);
                }
                if let Some(s) = &fc.style {
                    r.font.variant.style = *s;
                }
                if let Some(w) = &fc.weight {
                    r.font.variant.weight = *w;
                }
                if let Some(s) = &fc.stretch {
                    r.font.variant.stretch = *s;
                }
                if let Some(e) = &fc.top_edge {
                    r.font.top_edge = *e;
                }
                if let Some(e) = &fc.bottom_edge {
                    r.font.bottom_edge = *e;
                }
                if let Some(col) = &fc.fill {
                    r.font.fill = Paint::Color(*col);
                }
                if let Some(v) = &fc.serif {
                    r.font.families.serif = clone_string_vec(v);
                }
                if let Some(v) = &fc.sans_serif {
                    r.font.families.sans_serif = clone_string_vec(v);
                }
                if let Some(v) = &fc.monospace {
                    r.font.families.monospace = clone_string_vec(v);
                }
            },
            StyleChange::Par(pc) => {
                if let Some(x) = pc.spacing {
                    r.par.spacing = x;
                }
                if let Some(x) = pc.leading {
                    r.par.leading = x;
                }
                if let Some(x) = pc.word_spacing {
                    r.par.word_spacing = x;
                }
            },
            StyleChange::Lang(lc) => {
                if let Some(d) = lc.dir {
                    r.lang.dir = d;
                }
            },
            StyleChange::Line(kind, d) => {
                let v = clone_line_slot(d);
                match kind {
                    LineKind::Strikethrough => {
                        r.font.strikethrough = v;
                    },
                    LineKind::Underline => {
                        r.font.underline = v;
                    },
                    LineKind::Overline => {
                        r.font.overline = v;
                    },
                }
            },
        }
        proof {
            assert(r@ =~= apply_change_spec(*c, self@));
        }
        r
    }
}

/// One node of the evaluated document the layout pass consumes: literal
/// text, together with the style state it was produced under, or a
/// paragraph break.
#[derive(Debug, PartialEq, Eq)]
pub enum OutputNode {
    Text { text: String, style: State },
    Parbreak,
}

/// Mathematical value of an output node.
#[verifier::ext_equal]
pub enum OutputModel {
    Text(Seq<char>, StateModel),
    Parbreak,
}

impl View for OutputNode {
    type V = OutputModel;

    open spec fn view(&self) -> OutputModel {
        match self {
            OutputNode::Text { text, style } => OutputModel::Text(text@, style@),
            OutputNode::Parbreak => OutputModel::Parbreak,
        }
    }
}

/// Mathematical value of an output sequence.
pub open spec fn out_seq(s: Seq<OutputNode>) -> Seq<OutputModel> {
    s.map_values(|n: OutputNode| n@)
}

/// The live formatting context: the current style state, the output the
/// layout pass will consume, and the diagnostics recorded so far.
#[derive(Debug)]
pub struct EvalContext {
    pub state: State,
    pub output: Vec<OutputNode>,
    pub diags: Vec<Diag>,
}

impl EvalContext {
    /// A fresh context with the default style state and empty output.
    pub fn new() -> (c: EvalContext)
        ensures
            c.state@ == State::default_model(),
            c.output@ == Seq::<OutputNode>::empty(),
            c.diags@ == Seq::<Diag>::empty(),
    {
        EvalContext { state: State::new(), output: Vec::new(), diags: Vec::new() }
    }

    /// Records a non-fatal diagnostic.
    pub fn diag(&mut self, d: Diag)
        ensures
            final(self).diags@ == old(self).diags@.push(d),
            final(self).state == old(self).state,
            final(self).output == old(self).output,
    {
        self.diags.push(d);
    }

    /// Emits a paragraph break into the output.
    pub fn parbreak(&mut self)
        ensures
            final(self).output@ == old(self).output@.push(OutputNode::Parbreak),
            final(self).state == old(self).state,
            final(self).diags == old(self).diags,
    {
        self.output.push(OutputNode::Parbreak);
    }
}

/// A deferred, reusable unit of styled content: literal text, paragraph
/// breaks, a scoped style mutation over a nested body, or a sequence of two
/// templates.
#[derive(Debug)]
pub enum Template {
    Empty,
    Text(String),
    Parbreak,
    Styled(StyleChange, Box<Template>),
    Join(Box<Template>, Box<Template>),
}

/// The paragraph break a change emits before its body, if any.
pub open spec fn break_out(c: StyleChange) -> Seq<OutputModel> {
    if c.breaks_par_spec() {
        seq![OutputModel::Parbreak]
    } else {
        Seq::<OutputModel>::empty()
    }
}

/// The output a template produces when executed under style state `s`.
/// Styled bodies run under the changed state; the enclosing state is out of
/// their reach.
pub open spec fn exec_spec(t: Template, s: StateModel) -> Seq<OutputModel>
    decreases t,
{
    match t {
        Template::Empty => Seq::<OutputModel>::empty(),
        Template::Text(txt) => seq![OutputModel::Text(txt@, s)],
        Template::Parbreak => seq![OutputModel::Parbreak],
        Template::Styled(c, body) => break_out(c) + exec_spec(*body, apply_change_spec(c, s)),
        Template::Join(a, b) => exec_spec(*a, s) + exec_spec(*b, s),
    }
}

impl Template {
    /// Executes this template against `ctx`.
    ///
    /// The first clause is the scope-revert law: whatever options the
    /// template sets while its body runs, the context's style state after
    /// the call equals the state observed immediately before it, so content
    /// evaluated after a styled block observes the pre-block style.
    pub fn exec(&self, ctx: &mut EvalContext)
        ensures
            final(ctx).state@ == old(ctx).state@,
            out_seq(final(ctx).output@) == out_seq(old(ctx).output@) + exec_spec(
                *self,
                old(ctx).state@,
            ),
            final(ctx).diags@ == old(ctx).diags@,
        decreases *self,
    {
        match self {
            Template::Empty => {
                proof {
                    assert(out_seq(ctx.output@) =~= out_seq(ctx.output@) + exec_spec(
                        *self,
                        ctx.state@,
                    ));
                }
            },
            Template::Text(txt) => {
                let ghost pre = ctx.output@;
                let node = OutputNode::Text { text: txt.clone(), style: ctx.state.clone() };
                ctx.output.push(node);
                proof {
                    assert(out_seq(ctx.output@) =~= out_seq(pre) + exec_spec(*self, ctx.state@));
                }
            },
            Template::Parbreak => {
                let ghost pre = ctx.output@;
                ctx.output.push(OutputNode::Parbreak);
                proof {
                    assert(out_seq(ctx.output@) =~= out_seq(pre) + exec_spec(*self, ctx.state@));
                }
            },
            Template::Styled(c, body) => {
                let ghost s0 = ctx.state@;
                let ghost pre = ctx.output@;
                let saved = ctx.state.clone();
                let next = ctx.state.updated(c);
                ctx.state = next;
                if c.breaks_par() {
                    ctx.output.push(OutputNode::Parbreak);
                }
                proof {
                    assert(out_seq(ctx.output@) =~= out_seq(pre) + break_out(*c));
                }
                body.exec(ctx);
                ctx.state = saved;
                proof {
                    assert(out_seq(ctx.output@) =~= out_seq(pre) + exec_spec(*self, s0));
                }
            },
            Template::Join(a, b) => {
                let ghost s0 = ctx.state@;
                let ghost pre = ctx.output@;
                a.exec(ctx);
                b.exec(ctx);
                proof {
                    assert(out_seq(ctx.output@) =~= out_seq(pre) + exec_spec(*self, s0));
                }
            },
        }
    }
}

/// Identity law: a style change that sets no option maps every style state
/// to itself, so a command invoked without options leaves the style state
/// untouched even while its body runs.
pub proof fn lemma_unset_options_identity(c: StyleChange, s: StateModel)
    requires
        c.sets_nothing(),
    ensures
        apply_change_spec(c, s) == s,
{
    assert(apply_change_spec(c, s) =~= s);
}

/// Identity law at the template level: a styled template whose change sets
/// no option runs its body under the enclosing state itself, so its output
/// is the body's output under that very state.
pub proof fn lemma_empty_command_is_transparent(t: Template, s: StateModel)
    requires
        t matches Template::Styled(c, _) && c.sets_nothing(),
    ensures
        match t {
            Template::Styled(c, body) => exec_spec(t, s) == break_out(c) + exec_spec(*body, s),
            _ => true,
        },
{
    match t {
        Template::Styled(c, body) => {
            lemma_unset_options_identity(c, s);
        },
        _ => {},
    }
}

/// Decoration equality law: one decoration change installs the same
/// descriptor value in whatever style state it is applied to, so executing
/// the same decoration template against independent contexts yields
/// value-equal descriptors.
pub proof fn lemma_decoration_value_equal(c: StyleChange, s1: StateModel, s2: StateModel)
    requires
        c is Line,
    ensures
        match c {
            StyleChange::Line(kind, d) => {
                &&& apply_change_spec(c, s1).font.decoration(kind) == line_opt(d)
                &&& apply_change_spec(c, s2).font.decoration(kind) == line_opt(d)
                &&& apply_change_spec(c, s1).font.decoration(kind) == apply_change_spec(
                    c,
                    s2,
                ).font.decoration(kind)
            },
            _ => true,
        },
{
}

} // verus!
