//! Field-accessor, mutator, functional-update and staged-builder code
//! generation for named-field structs, over a plain model of the declaration.
pub mod builder;
pub mod data;
pub mod decl;
pub mod emit;
pub mod getter;
pub mod laws;
pub mod setter;
pub mod tokens;
pub mod util;
pub mod wither;
