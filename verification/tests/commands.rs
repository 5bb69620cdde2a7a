//! Scenario tests for the style commands: scoped application, revert on
//! body completion, decorations and diagnostics.

use stylescope::args::{Arg, FuncArgs};
use stylescope::font::{FontFamily, FontWeight, LineKind};
use stylescope::geom::{Dir, Linear};
use stylescope::state::DEFAULT_FONT_SIZE;
use stylescope::template::{DiagKind, EvalContext, OutputNode, StyleChange, Template};
use stylescope::text::{font, lang, overline, par, strike, underline};
use stylescope::value::Value;

fn named(key: &str, value: Value, span: u64) -> Arg {
    Arg { span, name: Some(key.to_string()), value }
}

fn pos(value: Value, span: u64) -> Arg {
    Arg { span, name: None, value }
}

fn args_of(items: Vec<Arg>) -> FuncArgs {
    FuncArgs { span: 0, items }
}

fn body_arg(t: Template) -> Arg {
    named("body", Value::Template(t), 99)
}

fn exec_value(v: Value, ctx: &mut EvalContext) {
    match v {
        Value::Template(t) => t.exec(ctx),
        _ => panic!("expected a template value"),
    }
}

fn text_nodes(ctx: &EvalContext) -> Vec<&OutputNode> {
    ctx.output
        .iter()
        .filter(|n| matches!(n, OutputNode::Text { .. }))
        .collect()
}

#[test]
fn font_without_options_leaves_state_unchanged() {
    let mut ctx = EvalContext::new();
    let mut args = args_of(vec![body_arg(Template::Text("x".to_string()))]);
    let v = font(&mut ctx, &mut args);
    let before = EvalContext::new().state;
    exec_value(v, &mut ctx);
    assert_eq!(ctx.state, before);
    // Even while the body ran, the recorded style was the default.
    match &ctx.output[0] {
        OutputNode::Text { text, style } => {
            assert_eq!(text, "x");
            assert_eq!(*style, before);
        }
        _ => panic!("expected a text node"),
    }
    assert!(ctx.diags.is_empty());
}

#[test]
fn font_size_reverts_after_body() {
    let mut ctx = EvalContext::new();
    let mut args = args_of(vec![
        named("size", Value::Length(12000), 1),
        body_arg(Template::Text("x".to_string())),
    ]);
    let v = font(&mut ctx, &mut args);
    exec_value(v, &mut ctx);
    assert_eq!(ctx.state.font.size, DEFAULT_FONT_SIZE);
    match &ctx.output[0] {
        OutputNode::Text { style, .. } => assert_eq!(style.font.size, 12000),
        _ => panic!("expected a text node"),
    }
}

#[test]
fn nested_font_sizes_revert_to_default() {
    // font(size: 12pt, body: "x" + font(size: 14pt, body: "y"))
    let mut inner_ctx = EvalContext::new();
    let mut inner_args = args_of(vec![
        named("size", Value::Length(14000), 2),
        body_arg(Template::Text("y".to_string())),
    ]);
    let inner = font(&mut inner_ctx, &mut inner_args);
    let inner_template = match inner {
        Value::Template(t) => t,
        _ => panic!("expected a template value"),
    };
    let body = Template::Join(
        Box::new(Template::Text("x".to_string())),
        Box::new(inner_template),
    );
    let mut ctx = EvalContext::new();
    let mut args = args_of(vec![named("size", Value::Length(12000), 1), body_arg(body)]);
    let v = font(&mut ctx, &mut args);
    exec_value(v, &mut ctx);
    assert_eq!(ctx.state.font.size, DEFAULT_FONT_SIZE);
    let texts = text_nodes(&ctx);
    assert_eq!(texts.len(), 2);
    match texts[0] {
        OutputNode::Text { text, style } => {
            assert_eq!(text, "x");
            assert_eq!(style.font.size, 12000);
        }
        _ => unreachable!(),
    }
    match texts[1] {
        OutputNode::Text { text, style } => {
            assert_eq!(text, "y");
            assert_eq!(style.font.size, 14000);
        }
        _ => unreachable!(),
    }
}

#[test]
fn relative_size_resolves_against_current_size() {
    let mut ctx = EvalContext::new();
    let mut args = args_of(vec![
        named("size", Value::Relative(1500), 1),
        body_arg(Template::Text("x".to_string())),
    ]);
    let v = font(&mut ctx, &mut args);
    exec_value(v, &mut ctx);
    match &ctx.output[0] {
        OutputNode::Text { style, .. } => {
            assert_eq!(style.font.size, DEFAULT_FONT_SIZE * 3 / 2);
        }
        _ => panic!("expected a text node"),
    }
    assert_eq!(ctx.state.font.size, DEFAULT_FONT_SIZE);
}

#[test]
fn font_serif_generic_list_lowercased() {
    let mut ctx = EvalContext::new();
    let serif = Value::Array(vec![
        Value::Str("Times".to_string()),
        Value::Str("Georgia".to_string()),
    ]);
    let mut args = args_of(vec![
        named("serif", serif, 1),
        body_arg(Template::Text("x".to_string())),
    ]);
    let v = font(&mut ctx, &mut args);
    exec_value(v, &mut ctx);
    match &ctx.output[0] {
        OutputNode::Text { style, .. } => {
            assert_eq!(style.font.families.serif, vec!["times", "georgia"]);
        }
        _ => panic!("expected a text node"),
    }
}

#[test]
fn font_positional_families_win_over_named() {
    let mut ctx = EvalContext::new();
    let mut args = args_of(vec![
        pos(Value::Str("Arial".to_string()), 1),
        body_arg(Template::Empty),
    ]);
    let v = font(&mut ctx, &mut args);
    match v {
        Value::Template(Template::Styled(StyleChange::Font(fc), _)) => {
            assert_eq!(
                fc.list,
                Some(vec![FontFamily::Named("arial".to_string())])
            );
        }
        _ => panic!("expected a styled font template"),
    }
}

#[test]
fn font_missing_body_records_diag_and_uses_empty_body() {
    let mut ctx = EvalContext::new();
    let mut args = args_of(vec![]);
    let v = font(&mut ctx, &mut args);
    assert_eq!(ctx.diags.len(), 1);
    assert_eq!(ctx.diags[0].kind, DiagKind::MissingBody);
    exec_value(v, &mut ctx);
    assert!(ctx.output.is_empty());
}

#[test]
fn font_non_template_body_records_diag() {
    let mut ctx = EvalContext::new();
    let mut args = args_of(vec![named("body", Value::Int(3), 7)]);
    let _ = font(&mut ctx, &mut args);
    assert_eq!(ctx.diags.len(), 1);
    assert_eq!(ctx.diags[0].kind, DiagKind::ExpectedTemplate);
    assert_eq!(ctx.diags[0].span, 7);
}

#[test]
fn font_invalid_weight_falls_back_to_black() {
    let mut ctx = EvalContext::new();
    let mut args = args_of(vec![
        named("weight", Value::Int(100000), 1),
        body_arg(Template::Empty),
    ]);
    let v = font(&mut ctx, &mut args);
    match v {
        Value::Template(Template::Styled(StyleChange::Font(fc), _)) => {
            assert_eq!(fc.weight, Some(FontWeight(900)));
        }
        _ => panic!("expected a styled font template"),
    }
}

#[test]
fn par_breaks_and_reverts() {
    let mut ctx = EvalContext::new();
    let mut args = args_of(vec![
        named("spacing", Value::Length(2000), 1),
        body_arg(Template::Text("x".to_string())),
    ]);
    let v = par(&mut ctx, &mut args);
    exec_value(v, &mut ctx);
    assert!(matches!(ctx.output[0], OutputNode::Parbreak));
    match &ctx.output[1] {
        OutputNode::Text { style, .. } => assert_eq!(style.par.spacing, 2000),
        _ => panic!("expected a text node"),
    }
    assert_eq!(ctx.state.par.spacing, EvalContext::new().state.par.spacing);
}

#[test]
fn lang_vertical_dir_dropped_with_one_diag() {
    let mut ctx = EvalContext::new();
    let mut args = args_of(vec![
        named("dir", Value::Dir(Dir::Ttb), 5),
        body_arg(Template::Text("x".to_string())),
    ]);
    let v = lang(&mut ctx, &mut args);
    assert_eq!(ctx.diags.len(), 1);
    assert_eq!(ctx.diags[0].kind, DiagKind::MustBeHorizontal);
    assert_eq!(ctx.diags[0].span, 5);
    let before_dir = ctx.state.lang.dir;
    exec_value(v, &mut ctx);
    assert_eq!(ctx.state.lang.dir, before_dir);
    // The dropped option never reached the body either.
    match &ctx.output[1] {
        OutputNode::Text { style, .. } => assert_eq!(style.lang.dir, before_dir),
        _ => panic!("expected a text node"),
    }
}

#[test]
fn lang_iso_code_sets_direction_for_body() {
    let mut ctx = EvalContext::new();
    let mut args = args_of(vec![
        pos(Value::Str("AR".to_string()), 1),
        body_arg(Template::Text("x".to_string())),
    ]);
    let v = lang(&mut ctx, &mut args);
    exec_value(v, &mut ctx);
    match &ctx.output[1] {
        OutputNode::Text { style, .. } => assert_eq!(style.lang.dir, Dir::Rtl),
        _ => panic!("expected a text node"),
    }
    assert_eq!(ctx.state.lang.dir, Dir::Ltr);
}

#[test]
fn lang_explicit_horizontal_dir_wins_over_iso() {
    let mut ctx = EvalContext::new();
    let mut args = args_of(vec![
        pos(Value::Str("ar".to_string()), 1),
        named("dir", Value::Dir(Dir::Ltr), 2),
        body_arg(Template::Text("x".to_string())),
    ]);
    let v = lang(&mut ctx, &mut args);
    assert!(ctx.diags.is_empty());
    exec_value(v, &mut ctx);
    match &ctx.output[1] {
        OutputNode::Text { style, .. } => assert_eq!(style.lang.dir, Dir::Ltr),
        _ => panic!("expected a text node"),
    }
}

#[test]
fn strike_zero_thickness_clears_decoration() {
    let mut ctx = EvalContext::new();
    let mut args = args_of(vec![
        named("thickness", Value::Length(0), 1),
        body_arg(Template::Text("x".to_string())),
    ]);
    let v = strike(&mut ctx, &mut args);
    match &v {
        Value::Template(Template::Styled(StyleChange::Line(k, st), _)) => {
            assert_eq!(*k, LineKind::Strikethrough);
            assert!(st.is_none());
        }
        _ => panic!("expected a styled line template"),
    }
    // Nested inside an active strikethrough, the zero-thickness scope
    // clears the inherited decoration for its own body.
    let inner = match v {
        Value::Template(t) => t,
        _ => unreachable!(),
    };
    let mut outer_args = args_of(vec![named("thickness", Value::Length(500), 2), body_arg(inner)]);
    let outer = strike(&mut ctx, &mut outer_args);
    exec_value(outer, &mut ctx);
    match &ctx.output[0] {
        OutputNode::Text { style, .. } => assert!(style.font.strikethrough.is_none()),
        _ => panic!("expected a text node"),
    }
    assert!(ctx.state.font.strikethrough.is_none());
}

#[test]
fn strike_thickness_without_stroke() {
    let mut ctx = EvalContext::new();
    let mut args = args_of(vec![
        named("thickness", Value::Length(700), 1),
        body_arg(Template::Empty),
    ]);
    let v = strike(&mut ctx, &mut args);
    match v {
        Value::Template(Template::Styled(StyleChange::Line(_, st), _)) => {
            let d = st.expect("a descriptor is owed for a non-zero thickness");
            assert!(d.stroke.is_none());
            assert_eq!(d.thickness, Some(Linear { abs: 700, rel: 0 }));
            assert_eq!(d.offset, None);
            assert_eq!(d.extent, Linear { abs: 0, rel: 0 });
        }
        _ => panic!("expected a styled line template"),
    }
}

#[test]
fn decoration_template_executes_identically_on_independent_contexts() {
    let mut build_ctx = EvalContext::new();
    let mut args = args_of(vec![
        named("thickness", Value::Length(700), 1),
        named("offset", Value::Length(120), 2),
        body_arg(Template::Text("x".to_string())),
    ]);
    let v = underline(&mut build_ctx, &mut args);
    let t = match v {
        Value::Template(t) => t,
        _ => panic!("expected a template value"),
    };
    let mut ctx1 = EvalContext::new();
    let mut ctx2 = EvalContext::new();
    ctx2.state.font.size = 20000; // independent contexts may differ elsewhere
    t.exec(&mut ctx1);
    t.exec(&mut ctx2);
    let d1 = match &ctx1.output[0] {
        OutputNode::Text { style, .. } => style.font.underline.clone().expect("descriptor"),
        _ => panic!("expected a text node"),
    };
    let d2 = match &ctx2.output[0] {
        OutputNode::Text { style, .. } => style.font.underline.clone().expect("descriptor"),
        _ => panic!("expected a text node"),
    };
    assert_eq!(*d1, *d2);
}

#[test]
fn overline_sets_its_own_slot() {
    let mut ctx = EvalContext::new();
    let mut args = args_of(vec![body_arg(Template::Text("x".to_string()))]);
    let v = overline(&mut ctx, &mut args);
    exec_value(v, &mut ctx);
    match &ctx.output[0] {
        OutputNode::Text { style, .. } => {
            assert!(style.font.overline.is_some());
            assert!(style.font.underline.is_none());
            assert!(style.font.strikethrough.is_none());
        }
        _ => panic!("expected a text node"),
    }
    assert!(ctx.state.font.overline.is_none());
}

#[test]
fn strike_positional_stroke_and_thickness() {
    let mut ctx = EvalContext::new();
    let black = stylescope::font::Color { r: 0, g: 0, b: 0, a: 255 };
    let mut args = args_of(vec![
        pos(Value::Color(black), 1),
        pos(Value::Length(300), 2),
        body_arg(Template::Empty),
    ]);
    let v = strike(&mut ctx, &mut args);
    match v {
        Value::Template(Template::Styled(StyleChange::Line(_, st), _)) => {
            let d = st.expect("descriptor");
            assert_eq!(d.stroke, Some(stylescope::font::Paint::Color(black)));
            assert_eq!(d.thickness, Some(Linear { abs: 300, rel: 0 }));
        }
        _ => panic!("expected a styled line template"),
    }
}

#[test]
fn font_leaves_foreign_arguments_in_place() {
    let mut ctx = EvalContext::new();
    let mut args = args_of(vec![
        named("size", Value::Length(12000), 1),
        named("columns", Value::Int(2), 2),
        body_arg(Template::Empty),
    ]);
    let _ = font(&mut ctx, &mut args);
    assert_eq!(args.items.len(), 1);
    assert_eq!(args.items[0].name.as_deref(), Some("columns"));
}

#[test]
fn par_captures_all_three_options() {
    let mut ctx = EvalContext::new();
    let mut args = args_of(vec![
        named("spacing", Value::Length(100), 1),
        named("leading", Value::Length(200), 2),
        named("word-spacing", Value::Length(300), 3),
        body_arg(Template::Empty),
    ]);
    let v = par(&mut ctx, &mut args);
    match v {
        Value::Template(Template::Styled(StyleChange::Par(pc), _)) => {
            assert_eq!(pc.spacing, Some(100));
            assert_eq!(pc.leading, Some(200));
            assert_eq!(pc.word_spacing, Some(300));
        }
        _ => panic!("expected a styled paragraph template"),
    }
    assert!(args.items.is_empty());
}

#[test]
fn reexecuting_a_template_is_reproducible() {
    let mut ctx = EvalContext::new();
    let mut args = args_of(vec![
        named("size", Value::Length(13000), 1),
        body_arg(Template::Text("x".to_string())),
    ]);
    let v = font(&mut ctx, &mut args);
    let t = match v {
        Value::Template(t) => t,
        _ => panic!("expected a template value"),
    };
    t.exec(&mut ctx);
    t.exec(&mut ctx);
    assert_eq!(ctx.output.len(), 2);
    let first = &ctx.output[0];
    let second = &ctx.output[1];
    assert_eq!(first, second);
    assert_eq!(ctx.state, EvalContext::new().state);
}
