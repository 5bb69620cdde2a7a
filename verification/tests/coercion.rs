//! Tests for the coercion registry and the small domain types.

use stylescope::font::{FontFamily, FontStretch, FontWeight};
use stylescope::geom::{Axis, Dir, Linear};
use stylescope::text::lang_dir;
use stylescope::value::{
    cast_family_def, cast_font_def, cast_font_stretch, cast_font_weight, cast_linear, Value,
};

#[test]
fn family_string_round_trip_lowercases() {
    let got = cast_font_def(&Value::Str("TIMES".to_string())).expect("a string coerces");
    assert_eq!(got, vec![FontFamily::Named("times".to_string())]);
}

#[test]
fn family_array_drops_invalid_elements_in_order() {
    let arr = Value::Array(vec![
        Value::Str("Arial".to_string()),
        Value::Int(3),
        Value::Str("Georgia".to_string()),
    ]);
    let got = cast_font_def(&arr).expect("arrays always coerce");
    assert_eq!(
        got,
        vec![
            FontFamily::Named("arial".to_string()),
            FontFamily::Named("georgia".to_string()),
        ]
    );
}

#[test]
fn family_array_may_become_empty() {
    let arr = Value::Array(vec![Value::Int(1), Value::Length(2)]);
    let got = cast_font_def(&arr).expect("arrays always coerce");
    assert!(got.is_empty());
}

#[test]
fn family_def_keeps_generic_family_values() {
    let arr = Value::Array(vec![
        Value::Family(FontFamily::Serif),
        Value::Str("Noto".to_string()),
    ]);
    let got = cast_font_def(&arr).expect("arrays always coerce");
    assert_eq!(
        got,
        vec![FontFamily::Serif, FontFamily::Named("noto".to_string())]
    );
}

#[test]
fn name_list_coercion_lowercases_strings_only() {
    let arr = Value::Array(vec![
        Value::Str("PT Sans".to_string()),
        Value::Dir(Dir::Ltr),
        Value::Str("Roboto".to_string()),
    ]);
    let got = cast_family_def(&arr).expect("arrays always coerce");
    assert_eq!(got, vec!["pt sans".to_string(), "roboto".to_string()]);
}

#[test]
fn scalar_with_no_rule_fails() {
    assert!(cast_font_def(&Value::Int(12)).is_none());
    assert!(cast_family_def(&Value::Length(5)).is_none());
    assert!(cast_linear(&Value::Str("12pt".to_string())).is_none());
}

#[test]
fn weight_clamps_to_the_numeric_scale() {
    assert_eq!(
        cast_font_weight(&Value::Int(400)),
        Some(FontWeight(400))
    );
    assert_eq!(cast_font_weight(&Value::Int(0)), Some(FontWeight(1)));
    assert_eq!(cast_font_weight(&Value::Int(4000)), Some(FontWeight(1000)));
    assert_eq!(cast_font_weight(&Value::Int(-3)), Some(FontWeight(900)));
    assert_eq!(cast_font_weight(&Value::Int(70000)), Some(FontWeight(900)));
}

#[test]
fn stretch_clamps_to_the_condensed_expanded_range() {
    assert_eq!(
        cast_font_stretch(&Value::Relative(100)),
        Some(FontStretch(500))
    );
    assert_eq!(
        cast_font_stretch(&Value::Relative(1500)),
        Some(FontStretch(1500))
    );
    assert_eq!(
        cast_font_stretch(&Value::Relative(9000)),
        Some(FontStretch(2000))
    );
}

#[test]
fn linear_coercion_and_resolution() {
    let l = cast_linear(&Value::Relative(500)).expect("relative coerces");
    assert_eq!(l, Linear { abs: 0, rel: 500 });
    assert_eq!(l.resolve(12000), 6000);
    let m = cast_linear(&Value::Length(250)).expect("length coerces");
    assert_eq!(m.resolve(12000), 250);
    let c = cast_linear(&Value::Linear(Linear { abs: 100, rel: 1000 })).expect("linear coerces");
    assert_eq!(c.resolve(400), 500);
}

#[test]
fn resolve_saturates_instead_of_wrapping() {
    let l = Linear { abs: u64::MAX, rel: 1000 };
    assert_eq!(l.resolve(u64::MAX), u64::MAX);
}

#[test]
fn lang_dir_defaults() {
    assert_eq!(lang_dir("ar"), Dir::Rtl);
    assert_eq!(lang_dir("HE"), Dir::Rtl);
    assert_eq!(lang_dir("fa"), Dir::Rtl);
    assert_eq!(lang_dir("ur"), Dir::Rtl);
    assert_eq!(lang_dir("ps"), Dir::Rtl);
    assert_eq!(lang_dir("Yi"), Dir::Rtl);
    assert_eq!(lang_dir("en"), Dir::Ltr);
    assert_eq!(lang_dir("de"), Dir::Ltr);
    assert_eq!(lang_dir("xx"), Dir::Ltr);
    assert_eq!(lang_dir("arab"), Dir::Ltr);
    assert_eq!(lang_dir(""), Dir::Ltr);
}

#[test]
fn direction_axes() {
    assert_eq!(Dir::Ltr.axis(), Axis::Horizontal);
    assert_eq!(Dir::Rtl.axis(), Axis::Horizontal);
    assert_eq!(Dir::Ttb.axis(), Axis::Vertical);
    assert_eq!(Dir::Btt.axis(), Axis::Vertical);
}
