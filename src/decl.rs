//! A plain model of a parsed item declaration: what the generators read.
use vstd::prelude::*;

verus! {

/// The meta of one attribute attached to a field.
pub enum AttrMeta {
    /// A bare marker such as `#[exclude]`: the segments of its path.
    Path(Vec<String>),
    /// A marker with arguments such as `#[name(cost)]`: the segments of its
    /// path and the source text of its arguments.
    List(Vec<String>, String),
    /// A marker with a value such as `#[doc = "..."]`: the segments of its path.
    NameValue(Vec<String>),
}

/// One named field: its identifier, the source text of its type, and its
/// attributes in order.
pub struct Field {
    pub ident: String,
    pub ty: String,
    pub attrs: Vec<AttrMeta>,
}

/// The generics of a declaration, as the three pieces an impl block needs:
/// the parameters with their bounds (`<T: Clone>`), the arguments (`<T>`) and
/// the where-clause (`where T: Debug`); each is empty when absent.
pub struct Generics {
    pub impl_params: String,
    pub type_args: String,
    pub where_clause: String,
}

/// The fields of a struct.
pub enum Fields {
    Named(Vec<Field>),
    /// A tuple struct: the source text of each field's type.
    Unnamed(Vec<String>),
    Unit,
}

/// The body of a declaration.
pub enum Data {
    Struct(Fields),
    Enum,
    Union,
}

/// A declaration that a generator is applied to.
pub struct DeriveInput {
    /// The source text of the visibility (`pub`, `pub(crate)`, or empty).
    pub vis: String,
    pub ident: String,
    pub generics: Generics,
    pub data: Data,
}

/// Why a generator refused a declaration.
pub enum DeriveError {
    /// The declaration is an enum or a union.
    NotStruct,
    /// The struct is a tuple struct or a unit struct.
    NotNamedStruct,
    /// The field (named here) has a rename marker with no argument.
    NameEmpty(String),
    /// The field (named here) has a rename marker with several
    /// comma-separated arguments.
    OnlyOneValue(String),
}

impl DeriveError {
    /// The text that a build aborted by this error shows.
    pub fn message(&self) -> (r: String)
        ensures
            r@ == match self {
                DeriveError::NotStruct => "not a struct"@,
                DeriveError::NotNamedStruct => "not a named struct"@,
                DeriveError::NameEmpty(_) => "name is empty"@,
                DeriveError::OnlyOneValue(_) => "Only one value is required for the name on property"@,
            },
    {
        match self {
            DeriveError::NotStruct => String::from_str("not a struct"),
            DeriveError::NotNamedStruct => String::from_str("not a named struct"),
            DeriveError::NameEmpty(_) => String::from_str("name is empty"),
            DeriveError::OnlyOneValue(_) => String::from_str(
                "Only one value is required for the name on property",
            ),
        }
    }
}

} // verus!
