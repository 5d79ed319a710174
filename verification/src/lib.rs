//! Lint rules for Substrate/FRAME pallets, with the text analyses they rest on
//! stated and proved in Verus.

pub mod text;
pub mod diagnostics;
pub mod patterns;
pub mod config;
pub mod context;
pub mod rules;
pub mod rustc_pipeline;
pub mod rustdoc_analysis;
