//! The routine shared by the accessor, mutator and functional-update
//! generators: one method per resolved field, inside one impl block.
use vstd::prelude::*;

use crate::decl::{Data, DeriveError, DeriveInput, Field, Fields};
use crate::util::{impl_sign_text, resolve_fields, FieldContext, FieldView, StructContext};

verus! {

/// Which member generator is running.
#[derive(Clone, Copy, PartialEq, Eq, Structural)]
pub enum MethodKind {
    /// `get_<name>(&self) -> &T`
    Getter,
    /// `set_<name>(&mut self, <name>: T)`
    Setter,
    /// `with_<name>(self, func) -> Self`
    Wither,
}

/// One method to generate for one field.
pub struct GenMethod {
    /// The method's name: the kind's prefix followed by the effective name.
    pub name: String,
    /// The identifier of the field that the method reads or writes.
    pub field: String,
    /// The name of the setter's parameter: the effective name.
    pub param: String,
    /// The source text of the field's type.
    pub ty: String,
}

/// The mathematical value of a `GenMethod`.
pub struct GenMethodView {
    pub name: Seq<char>,
    pub field: Seq<char>,
    pub param: Seq<char>,
    pub ty: Seq<char>,
}

impl View for GenMethod {
    type V = GenMethodView;

    open spec fn view(&self) -> GenMethodView {
        GenMethodView { name: self.name@, field: self.field@, param: self.param@, ty: self.ty@ }
    }
}

/// The fixed prefix of a kind's method names.
pub open spec fn prefix(kind: MethodKind) -> Seq<char> {
    match kind {
        MethodKind::Getter => "get_"@,
        MethodKind::Setter => "set_"@,
        MethodKind::Wither => "with_"@,
    }
}

/// The method that a kind generates for one resolved field.
pub open spec fn method_for(kind: MethodKind, f: FieldView) -> GenMethodView {
    GenMethodView { name: prefix(kind) + f.name, field: f.ident, param: f.name, ty: f.ty }
}

/// The methods that a kind generates for the resolved fields, in order.
pub open spec fn methods_for(kind: MethodKind, fs: Seq<FieldView>) -> Seq<GenMethodView> {
    fs.map_values(|f: FieldView| method_for(kind, f))
}

/// The fields of a declaration, or why it has none to offer.
pub open spec fn struct_fields(input: DeriveInput) -> Result<Seq<Field>, DeriveError> {
    match input.data {
        Data::Struct(Fields::Named(fields)) => Ok(fields@),
        Data::Struct(_) => Err(DeriveError::NotNamedStruct),
        _ => Err(DeriveError::NotStruct),
    }
}

/// The methods that a kind generates for a declaration.
pub open spec fn planned_methods(kind: MethodKind, input: DeriveInput) -> Result<
    Seq<GenMethodView>,
    DeriveError,
> {
    match struct_fields(input) {
        Err(e) => Err(e),
        Ok(fields) => match resolve_fields(fields) {
            Err(e) => Err(e),
            Ok(fs) => Ok(methods_for(kind, fs)),
        },
    }
}

/// The source text of one generated method.
pub open spec fn method_text(kind: MethodKind, m: GenMethodView) -> Seq<char> {
    match kind {
        MethodKind::Getter => "#[inline]\npub fn "@ + m.name + "(&self) -> &"@ + m.ty
            + " {\n&self."@ + m.field + "\n}\n"@,
        MethodKind::Setter => "#[inline]\npub fn "@ + m.name + "(&mut self, "@ + m.param + ": "@
            + m.ty + ") {\nself."@ + m.field + " = "@ + m.param + ";\n}\n"@,
        MethodKind::Wither => "#[inline]\npub fn "@ + m.name
            + "<F>(mut self, func: F) -> Self\nwhere\nF: FnOnce("@ + m.ty + ") -> "@ + m.ty
            + ",\n{\nself."@ + m.field + " = func(self."@ + m.field + ");\nself\n}\n"@,
    }
}

/// The source text of several generated methods, one after another.
pub open spec fn methods_text(kind: MethodKind, ms: Seq<GenMethodView>) -> Seq<char>
    decreases ms.len(),
{
    if ms.len() == 0 {
        Seq::empty()
    } else {
        methods_text(kind, ms.drop_last()) + method_text(kind, ms.last())
    }
}

/// An impl block opened by `sign` that holds the methods.
pub open spec fn impl_block_text(sign: Seq<char>, kind: MethodKind, ms: Seq<GenMethodView>) -> Seq<
    char,
> {
    sign + " {\n"@ + methods_text(kind, ms) + "}\n"@
}

/// What a member generator produces for a declaration.
pub open spec fn generated(kind: MethodKind, input: DeriveInput) -> Result<Seq<char>, DeriveError> {
    match planned_methods(kind, input) {
        Err(e) => Err(e),
        Ok(ms) => Ok(impl_block_text(impl_sign_text(input.ident@, input.generics), kind, ms)),
    }
}

/// The view of a generator's result.
pub open spec fn text_view(r: Result<String, DeriveError>) -> Result<Seq<char>, DeriveError> {
    match r {
        Ok(s) => Ok(s@),
        Err(e) => Err(e),
    }
}

/// The method that a kind generates for one resolved field.
pub fn plan_method(kind: MethodKind, fc: &FieldContext) -> (r: GenMethod)
    ensures
        r@ == method_for(kind, fc@),
{
    let mut name = match kind {
        MethodKind::Getter => String::from_str("get_"),
        MethodKind::Setter => String::from_str("set_"),
        MethodKind::Wither => String::from_str("with_"),
    };
    name.append(fc.name.as_str());
    GenMethod { name, field: fc.ident.clone(), param: fc.name.clone(), ty: fc.ty.clone() }
}

/// The methods that a kind generates for the resolved fields, in order.
pub fn plan_methods(kind: MethodKind, fcs: &Vec<FieldContext>) -> (r: Vec<GenMethod>)
    ensures
        r@.len() == fcs@.len(),
        forall|i: int| 0 <= i < r@.len() ==> (#[trigger] r@[i])@ == method_for(kind, fcs@[i]@),
{
    let mut r: Vec<GenMethod> = Vec::new();
    let mut i: usize = 0;
    while i < fcs.len()
        invariant
            i <= fcs@.len(),
            r@.len() == i,
            forall|j: int| 0 <= j < i ==> (#[trigger] r@[j])@ == method_for(kind, fcs@[j]@),
        decreases fcs.len() - i,
    {
        r.push(plan_method(kind, &fcs[i]));
        i = i + 1;
    }
    r
}

/// The source text of one generated method.
pub fn render_method(kind: MethodKind, m: &GenMethod) -> (r: String)
    ensures
        r@ == method_text(kind, m@),
{
    let mut r = String::from_str("#[inline]\npub fn ");
    r.append(m.name.as_str());
    match kind {
        MethodKind::Getter => {
            r.append("(&self) -> &");
            r.append(m.ty.as_str());
            r.append(" {\n&self.");
            r.append(m.field.as_str());
            r.append("\n}\n");
        },
        MethodKind::Setter => {
            r.append("(&mut self, ");
            r.append(m.param.as_str());
            r.append(": ");
            r.append(m.ty.as_str());
            r.append(") {\nself.");
            r.append(m.field.as_str());
            r.append(" = ");
            r.append(m.param.as_str());
            r.append(";\n}\n");
        },
        MethodKind::Wither => {
            r.append("<F>(mut self, func: F) -> Self\nwhere\nF: FnOnce(");
            r.append(m.ty.as_str());
            r.append(") -> ");
            r.append(m.ty.as_str());
            r.append(",\n{\nself.");
            r.append(m.field.as_str());
            r.append(" = func(self.");
            r.append(m.field.as_str());
            r.append(");\nself\n}\n");
        },
    }
    r
}

/// An impl block opened by `sign` that holds the methods.
pub fn render_impl(sign: &String, kind: MethodKind, ms: &Vec<GenMethod>) -> (r: String)
    ensures
        r@ == impl_block_text(sign@, kind, ms@.map_values(|m: GenMethod| m@)),
{
    let ghost mv = ms@.map_values(|m: GenMethod| m@);
    let mut body = String::new();
    let mut i: usize = 0;
    while i < ms.len()
        invariant
            i <= ms@.len(),
            mv == ms@.map_values(|m: GenMethod| m@),
            body@ == methods_text(kind, mv.subrange(0, i as int)),
        decreases ms.len() - i,
    {
        assert(mv.subrange(0, i + 1).drop_last() =~= mv.subrange(0, i as int));
        let piece = render_method(kind, &ms[i]);
        body.append(piece.as_str());
        i = i + 1;
    }
    assert(mv.subrange(0, i as int) =~= mv);
    let mut r = sign.clone();
    r.append(" {\n");
    r.append(body.as_str());
    r.append("}\n");
    r
}

/// Runs one member generator on a declaration.
pub fn generate(kind: MethodKind, input: DeriveInput) -> (r: Result<String, DeriveError>)
    ensures
        text_view(r) == generated(kind, input),
{
    let context = match StructContext::new(input) {
        Ok(c) => c,
        Err(e) => return Err(e),
    };
    let sign = context.impl_sign();
    let fields = match context.handle_fields_exclude_and_name_attr() {
        Ok(f) => f,
        Err(e) => return Err(e),
    };
    let methods = plan_methods(kind, &fields);
    assert(methods@.map_values(|m: GenMethod| m@) =~= methods_for(
        kind,
        fields@.map_values(|f: FieldContext| f@),
    ));
    Ok(render_impl(&sign, kind, &methods))
}

} // verus!
