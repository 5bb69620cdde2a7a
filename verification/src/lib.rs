//! Semantic-evaluation layer of a document-preparation language.
//!
//! Built-in style commands (`font`, `par`, `lang`, `strike`, `underline`,
//! `overline`) coerce loosely typed arguments into typed style options and
//! capture them in deferred templates. Executing a template against a live
//! formatting context applies the options, runs the nested body under the
//! derived style, and restores the enclosing style once the body completes.

pub mod args;
pub mod font;
pub mod geom;
pub mod state;
pub mod template;
pub mod text;
pub mod value;
