//! The struct context shared by the generators, and the field policy:
//! which fields get methods, and under which name.
use vstd::prelude::*;

use crate::decl::{AttrMeta, Data, DeriveError, DeriveInput, Field, Fields, Generics};
use crate::tokens::{has_comma, string_is, strip_quotes, unquoted};

verus! {

/// A field that takes part in method generation.
pub struct FieldContext {
    /// The source text of the field's type.
    pub ty: String,
    /// The field's identifier.
    pub ident: String,
    /// The effective name that generated method names use.
    pub name: String,
}

/// The mathematical value of a `FieldContext`.
pub struct FieldView {
    pub ty: Seq<char>,
    pub ident: Seq<char>,
    pub name: Seq<char>,
}

impl View for FieldContext {
    type V = FieldView;

    open spec fn view(&self) -> FieldView {
        FieldView { ty: self.ty@, ident: self.ident@, name: self.name@ }
    }
}

/// The views of a sequence of field contexts.
pub open spec fn views(v: Seq<FieldContext>) -> Seq<FieldView> {
    v.map_values(|f: FieldContext| f@)
}

/// The view of a resolution result.
pub open spec fn resolved_view(r: Result<Vec<FieldContext>, DeriveError>) -> Result<
    Seq<FieldView>,
    DeriveError,
> {
    match r {
        Ok(v) => Ok(views(v@)),
        Err(e) => Err(e),
    }
}

/// Whether the attribute is the exclusion marker `#[exclude]`.
pub open spec fn is_exclude_marker(m: AttrMeta) -> bool {
    match m {
        AttrMeta::Path(segs) => segs@.len() == 1 && segs@[0]@ == "exclude"@,
        _ => false,
    }
}

/// Whether the attribute is a rename marker `#[name(...)]`.
pub open spec fn is_name_marker(m: AttrMeta) -> bool {
    match m {
        AttrMeta::List(segs, _) => segs@.len() > 0 && segs@[0]@ == "name"@,
        _ => false,
    }
}

/// Whether some attribute is the exclusion marker.
pub open spec fn excluded(attrs: Seq<AttrMeta>) -> bool {
    exists|i: int| 0 <= i < attrs.len() && is_exclude_marker(#[trigger] attrs[i])
}

/// The argument text of the first rename marker, if there is one.
pub open spec fn rename_args(attrs: Seq<AttrMeta>) -> Option<Seq<char>>
    decreases attrs.len(),
{
    if attrs.len() == 0 {
        None
    } else if is_name_marker(attrs[0]) {
        match attrs[0] {
            AttrMeta::List(_, args) => Some(args@),
            _ => None,
        }
    } else {
        rename_args(attrs.drop_first())
    }
}

/// What the field policy decides for one field.
pub enum Resolution {
    Excluded,
    Named(Seq<char>),
    EmptyName,
    SeveralNames,
}

/// The field policy for one field: exclusion first, then the rename
/// marker's argument (quotes stripped), else the field's own identifier.
pub open spec fn resolve_field(f: Field) -> Resolution {
    if excluded(f.attrs@) {
        Resolution::Excluded
    } else {
        match rename_args(f.attrs@) {
            None => Resolution::Named(f.ident@),
            Some(a) => if a.len() == 0 {
                Resolution::EmptyName
            } else if a.contains(',') {
                Resolution::SeveralNames
            } else {
                Resolution::Named(unquoted(a))
            },
        }
    }
}

/// The field policy over all fields in order: the included fields with
/// their effective names, or the error of the first malformed rename.
pub open spec fn resolve_fields(fields: Seq<Field>) -> Result<Seq<FieldView>, DeriveError>
    decreases fields.len(),
{
    if fields.len() == 0 {
        Ok(seq![])
    } else {
        match resolve_fields(fields.drop_last()) {
            Err(e) => Err(e),
            Ok(prev) => {
                let f = fields.last();
                match resolve_field(f) {
                    Resolution::Excluded => Ok(prev),
                    Resolution::Named(n) => Ok(
                        prev.push(FieldView { ty: f.ty@, ident: f.ident@, name: n }),
                    ),
                    Resolution::EmptyName => Err(DeriveError::NameEmpty(f.ident)),
                    Resolution::SeveralNames => Err(DeriveError::OnlyOneValue(f.ident)),
                }
            },
        }
    }
}

/// The header that opens an impl block for the declaration.
pub open spec fn impl_sign_text(ident: Seq<char>, g: Generics) -> Seq<char> {
    "impl"@ + g.impl_params@ + " "@ + ident + g.type_args@ + " "@ + g.where_clause@
}

impl FieldContext {
    pub fn new(ty: String, ident: String, name: String) -> (r: Self)
        ensures
            r.ty == ty,
            r.ident == ident,
            r.name == name,
    {
        FieldContext { ty, ident, name }
    }
}

/// Whether the attribute is the exclusion marker.
fn is_exclude_attr(m: &AttrMeta) -> (r: bool)
    ensures
        r == is_exclude_marker(*m),
{
    match m {
        AttrMeta::Path(segs) => segs.len() == 1 && string_is(&segs[0], "exclude"),
        _ => false,
    }
}

/// Whether some attribute is the exclusion marker.
fn has_exclude(attrs: &Vec<AttrMeta>) -> (r: bool)
    ensures
        r == excluded(attrs@),
{
    let mut i: usize = 0;
    while i < attrs.len()
        invariant
            i <= attrs@.len(),
            forall|j: int| 0 <= j < i ==> !is_exclude_marker(#[trigger] attrs@[j]),
        decreases attrs.len() - i,
    {
        if is_exclude_attr(&attrs[i]) {
            return true;
        }
        i = i + 1;
    }
    false
}

/// The argument text of the first rename marker.
fn find_rename(attrs: &Vec<AttrMeta>) -> (r: Option<&String>)
    ensures
        match r {
            None => rename_args(attrs@) is None,
            Some(s) => rename_args(attrs@) == Some(s@),
        },
{
    let mut i: usize = 0;
    assert(attrs@.subrange(0, attrs@.len() as int) =~= attrs@);
    while i < attrs.len()
        invariant
            i <= attrs@.len(),
            rename_args(attrs@) == rename_args(attrs@.subrange(i as int, attrs@.len() as int)),
        decreases attrs.len() - i,
    {
        let rest = Ghost(attrs@.subrange(i as int, attrs@.len() as int));
        assert(rest@.drop_first() =~= attrs@.subrange(i + 1, attrs@.len() as int));
        assert(rest@[0] == attrs@[i as int]);
        match &attrs[i] {
            AttrMeta::List(segs, args) => {
                if segs.len() > 0 && string_is(&segs[0], "name") {
                    return Some(args);
                }
            },
            _ => {},
        }
        i = i + 1;
    }
    assert(attrs@.subrange(i as int, attrs@.len() as int).len() == 0);
    None
}

/// The field policy for one field: `Ok(None)` where it is excluded.
fn resolve_one(f: &Field) -> (r: Result<Option<FieldContext>, DeriveError>)
    ensures
        match resolve_field(*f) {
            Resolution::Excluded => r == Ok::<Option<FieldContext>, DeriveError>(None),
            Resolution::Named(n) => r matches Ok(Some(fc)) && fc@ == (FieldView {
                ty: f.ty@,
                ident: f.ident@,
                name: n,
            }),
            Resolution::EmptyName => r == Err::<Option<FieldContext>, DeriveError>(
                DeriveError::NameEmpty(f.ident),
            ),
            Resolution::SeveralNames => r == Err::<Option<FieldContext>, DeriveError>(
                DeriveError::OnlyOneValue(f.ident),
            ),
        },
{
    if has_exclude(&f.attrs) {
        return Ok(None);
    }
    match find_rename(&f.attrs) {
        None => Ok(Some(FieldContext::new(f.ty.clone(), f.ident.clone(), f.ident.clone()))),
        Some(args) => {
            if args.unicode_len() == 0 {
                Err(DeriveError::NameEmpty(f.ident.clone()))
            } else if has_comma(args.as_str()) {
                Err(DeriveError::OnlyOneValue(f.ident.clone()))
            } else {
                let name = strip_quotes(args.as_str());
                Ok(Some(FieldContext::new(f.ty.clone(), f.ident.clone(), name)))
            }
        },
    }
}

/// What the generators read of a named-field struct.
pub struct StructContext {
    pub vis: String,
    pub ident: String,
    pub generics: Generics,
    pub where_case: String,
    pub fields: Vec<Field>,
}

impl StructContext {
    /// Takes a declaration apart; fails unless it is a struct with named fields.
    pub fn new(input: DeriveInput) -> (r: Result<StructContext, DeriveError>)
        ensures
            match input.data {
                Data::Struct(Fields::Named(fields)) => r matches Ok(c) && c.vis == input.vis
                    && c.ident == input.ident && c.generics == input.generics && c.where_case
                    == input.generics.where_clause && c.fields == fields,
                Data::Struct(_) => r == Err::<StructContext, DeriveError>(
                    DeriveError::NotNamedStruct,
                ),
                _ => r == Err::<StructContext, DeriveError>(DeriveError::NotStruct),
            },
    {
        let DeriveInput { vis, ident, generics, data } = input;
        match data {
            Data::Struct(Fields::Named(fields)) => {
                let where_case = generics.where_clause.clone();
                Ok(StructContext { vis, ident, generics, where_case, fields })
            },
            Data::Struct(_) => Err(DeriveError::NotNamedStruct),
            _ => Err(DeriveError::NotStruct),
        }
    }

    /// The header that opens an impl block for this struct.
    pub fn impl_sign(&self) -> (r: String)
        ensures
            r@ == impl_sign_text(self.ident@, self.generics),
    {
        let mut r = String::from_str("impl");
        r.append(self.generics.impl_params.as_str());
        r.append(" ");
        r.append(self.ident.as_str());
        r.append(self.generics.type_args.as_str());
        r.append(" ");
        r.append(self.generics.where_clause.as_str());
        r
    }

    /// Applies the exclusion and rename markers to the fields, in order.
    pub fn handle_fields_exclude_and_name_attr(&self) -> (r: Result<
        Vec<FieldContext>,
        DeriveError,
    >)
        ensures
            resolved_view(r) == resolve_fields(self.fields@),
    {
        let mut out: Vec<FieldContext> = Vec::new();
        let mut i: usize = 0;
        assert(views(out@) =~= seq![]);
        assert(self.fields@.subrange(0, 0).len() == 0);
        while i < self.fields.len()
            invariant
                i <= self.fields@.len(),
                resolve_fields(self.fields@.subrange(0, i as int)) == Ok::<
                    Seq<FieldView>,
                    DeriveError,
                >(views(out@)),
            decreases self.fields.len() - i,
        {
            let ghost pre = self.fields@.subrange(0, i as int);
            let ghost old_out = out@;
            assert(self.fields@.subrange(0, i + 1).drop_last() =~= pre);
            assert(self.fields@.subrange(0, i + 1).last() == self.fields@[i as int]);
            match resolve_one(&self.fields[i]) {
                Err(e) => {
                    proof {
                        lemma_resolve_error_sticks(self.fields@, i as int + 1, e);
                    }
                    return Err(e);
                },
                Ok(None) => {},
                Ok(Some(fc)) => {
                    let ghost v = fc@;
                    out.push(fc);
                    assert(views(out@) =~= views(old_out).push(v));
                },
            }
            i = i + 1;
        }
        assert(self.fields@.subrange(0, i as int) =~= self.fields@);
        Ok(out)
    }
}

/// An error of the field policy on a prefix of the fields is its error on
/// all of them.
proof fn lemma_resolve_error_sticks(fields: Seq<Field>, k: int, e: DeriveError)
    requires
        0 <= k <= fields.len(),
        resolve_fields(fields.subrange(0, k)) == Err::<Seq<FieldView>, DeriveError>(e),
    ensures
        resolve_fields(fields) == Err::<Seq<FieldView>, DeriveError>(e),
    decreases fields.len() - k,
{
    if k < fields.len() {
        assert(fields.subrange(0, k + 1).drop_last() =~= fields.subrange(0, k));
        lemma_resolve_error_sticks(fields, k + 1, e);
    } else {
        assert(fields.subrange(0, k) =~= fields);
    }
}

} // verus!
