//! Generates accessor methods `get_<name>(&self) -> &T`, one per field that the field policy keeps.
use vstd::prelude::*;

use crate::decl::{DeriveError, DeriveInput};
use crate::emit::{generate, generated, text_view, MethodKind};

verus! {

/// The impl block of accessor methods `get_<name>(&self) -> &T` for the declaration.
pub fn gen_ast(input: DeriveInput) -> (r: Result<String, DeriveError>)
    ensures
        text_view(r) == generated(MethodKind::Getter, input),
{
    generate(MethodKind::Getter, input)
}

} // verus!
