//! Generates a staged builder: an auxiliary `<Name>Builder` type with one
//! optional slot per declared field, fluent setters, a validating `build`,
//! and a `builder()` factory on the struct itself.
use vstd::prelude::*;

use crate::decl::{DeriveError, DeriveInput, Field};
use crate::emit::{struct_fields, text_view};
use crate::util::{impl_sign_text, StructContext};

verus! {

/// One slot of the staged builder, for one declared field.
pub struct BuilderSlot {
    /// The identifier of the field, which is also the slot's and the
    /// setter's name.
    pub field: String,
    /// The source text of the field's type.
    pub ty: String,
    /// The text `build` aborts with when the slot was never set.
    pub message: String,
}

/// The mathematical value of a `BuilderSlot`.
pub struct BuilderSlotView {
    pub field: Seq<char>,
    pub ty: Seq<char>,
    pub message: Seq<char>,
}

impl View for BuilderSlot {
    type V = BuilderSlotView;

    open spec fn view(&self) -> BuilderSlotView {
        BuilderSlotView { field: self.field@, ty: self.ty@, message: self.message@ }
    }
}

/// The name of the builder type for a struct.
pub open spec fn builder_ident(ident: Seq<char>) -> Seq<char> {
    ident + "Builder"@
}

/// The text `build` aborts with when a field's slot was never set.
pub open spec fn missing_message(field: Seq<char>, ident: Seq<char>) -> Seq<char> {
    field + " field is not set in "@ + ident + " struct"@
}

/// The slot for one declared field of the struct `ident`.
pub open spec fn slot_for(f: Field, ident: Seq<char>) -> BuilderSlotView {
    BuilderSlotView { field: f.ident@, ty: f.ty@, message: missing_message(f.ident@, ident) }
}

/// The slots for the declared fields, in order.
pub open spec fn slots_for(fields: Seq<Field>, ident: Seq<char>) -> Seq<BuilderSlotView> {
    fields.map_values(|f: Field| slot_for(f, ident))
}

/// The four places where each slot appears in the generated code.
#[derive(Clone, Copy, PartialEq, Eq, Structural)]
pub enum SlotPart {
    /// `f: Option<T>,` in the builder type.
    Decl,
    /// `f: None,` in `new`.
    Init,
    /// `f: self.f.expect("..."),` in `build`.
    Take,
    /// The fluent setter `f(mut self, v: T) -> Self`.
    Setter,
}

/// The text of one slot in one place.
pub open spec fn slot_text(part: SlotPart, s: BuilderSlotView) -> Seq<char> {
    match part {
        SlotPart::Decl => s.field + ": Option<"@ + s.ty + ">,\n"@,
        SlotPart::Init => s.field + ": None,\n"@,
        SlotPart::Take => s.field + ": self."@ + s.field + ".expect(\""@ + s.message + "\"),\n"@,
        SlotPart::Setter => "#[inline]\npub fn "@ + s.field + "(mut self, v: "@ + s.ty
            + ") -> Self {\nself."@ + s.field + " = Some(v);\nself\n}\n"@,
    }
}

/// The text of all slots in one place, in order.
pub open spec fn slots_text(part: SlotPart, ss: Seq<BuilderSlotView>) -> Seq<char>
    decreases ss.len(),
{
    if ss.len() == 0 {
        Seq::empty()
    } else {
        slots_text(part, ss.drop_last()) + slot_text(part, ss.last())
    }
}

/// The whole generated code of the staged builder for a struct.
pub open spec fn builder_text(input: DeriveInput, ss: Seq<BuilderSlotView>) -> Seq<char> {
    let b = builder_ident(input.ident@);
    let g = input.generics;
    input.vis@ + " struct "@ + b + g.impl_params@ + " "@ + g.where_clause@ + " {\n"@
        + slots_text(SlotPart::Decl, ss) + "}\n"@ + "impl"@ + g.impl_params@ + " "@ + b
        + g.type_args@ + " "@ + g.where_clause@ + " {\n"@
        + "#[inline]\npub fn new() -> Self {\nSelf {\n"@ + slots_text(SlotPart::Init, ss)
        + "}\n}\n"@ + "#[inline]\npub fn build(self) -> "@ + input.ident@ + g.type_args@
        + " {\n"@ + input.ident@ + " {\n"@ + slots_text(SlotPart::Take, ss) + "}\n}\n"@
        + slots_text(SlotPart::Setter, ss) + "}\n"@ + impl_sign_text(input.ident@, g)
        + " {\n#[inline]\npub fn builder() -> "@ + b + g.type_args@ + " {\n"@ + b
        + "::new()\n}\n}\n"@
}

/// What the staged-builder generator produces for a declaration.
pub open spec fn generated_builder(input: DeriveInput) -> Result<Seq<char>, DeriveError> {
    match struct_fields(input) {
        Err(e) => Err(e),
        Ok(fields) => Ok(builder_text(input, slots_for(fields, input.ident@))),
    }
}

/// The slot for one declared field of the struct `ident`.
pub fn plan_slot(f: &Field, ident: &String) -> (r: BuilderSlot)
    ensures
        r@ == slot_for(*f, ident@),
{
    let mut message = f.ident.clone();
    message.append(" field is not set in ");
    message.append(ident.as_str());
    message.append(" struct");
    BuilderSlot { field: f.ident.clone(), ty: f.ty.clone(), message }
}

/// The slots for all declared fields, in order: the field policy does not
/// apply, since the built value needs every field.
pub fn plan_slots(fields: &Vec<Field>, ident: &String) -> (r: Vec<BuilderSlot>)
    ensures
        r@.map_values(|s: BuilderSlot| s@) == slots_for(fields@, ident@),
{
    let mut r: Vec<BuilderSlot> = Vec::new();
    let mut i: usize = 0;
    while i < fields.len()
        invariant
            i <= fields@.len(),
            r@.len() == i,
            forall|j: int| 0 <= j < i ==> (#[trigger] r@[j])@ == slot_for(fields@[j], ident@),
        decreases fields.len() - i,
    {
        r.push(plan_slot(&fields[i], ident));
        i = i + 1;
    }
    assert(r@.map_values(|s: BuilderSlot| s@) =~= slots_for(fields@, ident@));
    r
}

/// The text of one slot in one place.
pub fn render_slot(part: SlotPart, s: &BuilderSlot) -> (r: String)
    ensures
        r@ == slot_text(part, s@),
{
    match part {
        SlotPart::Decl => {
            let mut r = s.field.clone();
            r.append(": Option<");
            r.append(s.ty.as_str());
            r.append(">,\n");
            r
        },
        SlotPart::Init => {
            let mut r = s.field.clone();
            r.append(": None,\n");
            r
        },
        SlotPart::Take => {
            let mut r = s.field.clone();
            r.append(": self.");
            r.append(s.field.as_str());
            r.append(".expect(\"");
            r.append(s.message.as_str());
            r.append("\"),\n");
            r
        },
        SlotPart::Setter => {
            let mut r = String::from_str("#[inline]\npub fn ");
            r.append(s.field.as_str());
            r.append("(mut self, v: ");
            r.append(s.ty.as_str());
            r.append(") -> Self {\nself.");
            r.append(s.field.as_str());
            r.append(" = Some(v);\nself\n}\n");
            r
        },
    }
}

/// Appends the text of all slots in one place.
pub fn append_slots(out: &mut String, part: SlotPart, ss: &Vec<BuilderSlot>)
    ensures
        final(out)@ == old(out)@ + slots_text(part, ss@.map_values(|s: BuilderSlot| s@)),
{
    let ghost sv = ss@.map_values(|s: BuilderSlot| s@);
    let ghost start = out@;
    let mut i: usize = 0;
    while i < ss.len()
        invariant
            i <= ss@.len(),
            sv == ss@.map_values(|s: BuilderSlot| s@),
            out@ == start + slots_text(part, sv.subrange(0, i as int)),
        decreases ss.len() - i,
    {
        assert(sv.subrange(0, i + 1).drop_last() =~= sv.subrange(0, i as int));
        let piece = render_slot(part, &ss[i]);
        out.append(piece.as_str());
        assert(out@ =~= start + slots_text(part, sv.subrange(0, i + 1)));
        i = i + 1;
    }
    assert(sv.subrange(0, i as int) =~= sv);
}

/// The staged builder for the declaration.
pub fn gen_ast(input: DeriveInput) -> (r: Result<String, DeriveError>)
    ensures
        text_view(r) == generated_builder(input),
{
    let ghost input0 = input;
    let context = match StructContext::new(input) {
        Ok(c) => c,
        Err(e) => return Err(e),
    };
    let impl_sign = context.impl_sign();
    let slots = plan_slots(&context.fields, &context.ident);
    let mut b = context.ident.clone();
    b.append("Builder");
    let g = &context.generics;
    let mut r = context.vis.clone();
    r.append(" struct ");
    r.append(b.as_str());
    r.append(g.impl_params.as_str());
    r.append(" ");
    r.append(g.where_clause.as_str());
    r.append(" {\n");
    append_slots(&mut r, SlotPart::Decl, &slots);
    r.append("}\n");
    r.append("impl");
    r.append(g.impl_params.as_str());
    r.append(" ");
    r.append(b.as_str());
    r.append(g.type_args.as_str());
    r.append(" ");
    r.append(g.where_clause.as_str());
    r.append(" {\n");
    r.append("#[inline]\npub fn new() -> Self {\nSelf {\n");
    append_slots(&mut r, SlotPart::Init, &slots);
    r.append("}\n}\n");
    r.append("#[inline]\npub fn build(self) -> ");
    r.append(context.ident.as_str());
    r.append(g.type_args.as_str());
    r.append(" {\n");
    r.append(context.ident.as_str());
    r.append(" {\n");
    append_slots(&mut r, SlotPart::Take, &slots);
    r.append("}\n}\n");
    append_slots(&mut r, SlotPart::Setter, &slots);
    r.append("}\n");
    r.append(impl_sign.as_str());
    r.append(" {\n#[inline]\npub fn builder() -> ");
    r.append(b.as_str());
    r.append(g.type_args.as_str());
    r.append(" {\n");
    r.append(b.as_str());
    r.append("::new()\n}\n}\n");
    assert(r@ =~= builder_text(input0, slots_for(context.fields@, input0.ident@)));
    Ok(r)
}

} // verus!
