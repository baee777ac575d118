//! Generates functional-update methods `with_<name>(self, func) -> Self`, one per field that the field policy keeps.
use vstd::prelude::*;

use crate::decl::{DeriveError, DeriveInput};
use crate::emit::{generate, generated, text_view, MethodKind};

verus! {

/// The impl block of functional-update methods `with_<name>(self, func) -> Self` for the declaration.
pub fn gen_ast(input: DeriveInput) -> (r: Result<String, DeriveError>)
    ensures
        text_view(r) == generated(MethodKind::Wither, input),
{
    generate(MethodKind::Wither, input)
}

} // verus!
