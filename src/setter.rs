//! Generates mutator methods `set_<name>(&mut self, <name>: T)`, one per field that the field policy keeps.
use vstd::prelude::*;

use crate::decl::{DeriveError, DeriveInput};
use crate::emit::{generate, generated, text_view, MethodKind};

verus! {

/// The impl block of mutator methods `set_<name>(&mut self, <name>: T)` for the declaration.
pub fn gen_ast(input: DeriveInput) -> (r: Result<String, DeriveError>)
    ensures
        text_view(r) == generated(MethodKind::Setter, input),
{
    generate(MethodKind::Setter, input)
}

} // verus!
