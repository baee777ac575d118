//! What holds of the generators for every declaration.
use vstd::prelude::*;

use crate::builder::{
    builder_text, generated_builder, missing_message, slot_text, slots_for, BuilderSlotView, SlotPart,
};
use crate::data::{
    all_derives, data_header, derive_all_text, header_text, kept_derives, not_excluded,
    options_of,
};
use crate::decl::{DeriveError, DeriveInput, Field};
use crate::emit::{method_text, planned_methods, prefix, struct_fields, GenMethodView, MethodKind};
use crate::tokens::{declares_struct, unquoted, TokenTree};
use crate::util::{excluded, rename_args, resolve_fields, FieldView};

verus! {

/// The name a field's methods carry: its rename marker's argument, quotes
/// stripped, or else its identifier.
pub open spec fn effective_name(f: Field) -> Seq<char> {
    match rename_args(f.attrs@) {
        Some(a) => unquoted(a),
        None => f.ident@,
    }
}

/// The resolved form of an included field.
pub open spec fn effective_view(f: Field) -> FieldView {
    FieldView { ty: f.ty@, ident: f.ident@, name: effective_name(f) }
}

/// Whether a field is not left out by the exclusion marker.
pub open spec fn is_included(f: Field) -> bool {
    !excluded(f.attrs@)
}

/// The fields that the exclusion marker does not leave out, in order.
pub open spec fn included(fields: Seq<Field>) -> Seq<Field> {
    fields.filter(|f: Field| is_included(f))
}

/// Whether an included field carries a rename marker with no argument or
/// with several comma-separated arguments.
pub open spec fn malformed(f: Field) -> bool {
    is_included(f) && match rename_args(f.attrs@) {
        Some(a) => a.len() == 0 || a.contains(','),
        None => false,
    }
}

/// The error that a malformed rename marker raises.
pub open spec fn rename_error(f: Field) -> DeriveError {
    match rename_args(f.attrs@) {
        Some(a) => if a.len() == 0 {
            DeriveError::NameEmpty(f.ident)
        } else {
            DeriveError::OnlyOneValue(f.ident)
        },
        None => DeriveError::NameEmpty(f.ident),
    }
}

/// Where no field carries a malformed rename marker, the field policy keeps
/// exactly the fields without the exclusion marker, in order, each named by
/// its rename marker's argument if it has one and by its identifier if not,
/// while keeping its own identifier as the field that methods touch.
pub proof fn lemma_policy_keeps_included_fields(fields: Seq<Field>)
    requires
        forall|i: int| 0 <= i < fields.len() ==> !malformed(#[trigger] fields[i]),
    ensures
        resolve_fields(fields) == Ok::<Seq<FieldView>, DeriveError>(
            included(fields).map_values(|f: Field| effective_view(f)),
        ),
    decreases fields.len(),
{
    reveal(Seq::filter);
    if fields.len() > 0 {
        let prev = fields.drop_last();
        assert forall|i: int| 0 <= i < prev.len() implies !malformed(#[trigger] prev[i]) by {
            assert(prev[i] == fields[i]);
        }
        lemma_policy_keeps_included_fields(prev);
        let f = fields.last();
        assert(!malformed(fields[fields.len() - 1]));
        let rest = included(prev).map_values(|f: Field| effective_view(f));
        if is_included(f) {
            assert(included(fields) =~= included(prev).push(f));
            assert(included(fields).map_values(|f: Field| effective_view(f)) =~= rest.push(
                effective_view(f),
            ));
        } else {
            assert(included(fields) =~= included(prev));
        }
    } else {
        assert(included(fields).map_values(|f: Field| effective_view(f)) =~= seq![]);
    }
}

/// Every error of the field policy is the one that some malformed rename
/// marker raises.
pub proof fn lemma_policy_error_comes_from_malformed(fields: Seq<Field>)
    ensures
        resolve_fields(fields) matches Err(e) ==> exists|i: int|
            0 <= i < fields.len() && malformed(#[trigger] fields[i]) && e == rename_error(
                fields[i],
            ),
    decreases fields.len(),
{
    if fields.len() > 0 {
        let prev = fields.drop_last();
        lemma_policy_error_comes_from_malformed(prev);
        match resolve_fields(prev) {
            Err(e) => {
                let i = choose|i: int|
                    0 <= i < prev.len() && malformed(#[trigger] prev[i]) && e == rename_error(
                        prev[i],
                    );
                assert(prev[i] == fields[i]);
            },
            Ok(_) => {
                let j = fields.len() - 1;
                assert(fields[j] == fields.last());
            },
        }
    }
}

/// A malformed rename marker on an included field makes the field policy
/// fail, with the error of a malformed marker at that field or before it:
/// `NameEmpty` for no argument, `OnlyOneValue` for several.
pub proof fn lemma_malformed_rename_fails(fields: Seq<Field>, j: int)
    requires
        0 <= j < fields.len(),
        malformed(fields[j]),
    ensures
        resolve_fields(fields) matches Err(e) && exists|i: int|
            0 <= i <= j && malformed(#[trigger] fields[i]) && e == rename_error(fields[i]),
    decreases fields.len(),
{
    let prev = fields.drop_last();
    if j < fields.len() - 1 {
        assert(prev[j] == fields[j]);
        lemma_malformed_rename_fails(prev, j);
        let e = resolve_fields(prev)->Err_0;
        let i = choose|i: int|
            0 <= i <= j && malformed(#[trigger] prev[i]) && e == rename_error(prev[i]);
        assert(prev[i] == fields[i]);
    } else {
        lemma_policy_error_comes_from_malformed(prev);
        match resolve_fields(prev) {
            Err(e) => {
                let i = choose|i: int|
                    0 <= i < prev.len() && malformed(#[trigger] prev[i]) && e == rename_error(
                        prev[i],
                    );
                assert(prev[i] == fields[i]);
            },
            Ok(_) => {
                assert(fields[j] == fields.last());
            },
        }
    }
}

/// Fields with the exclusion marker take no part in method generation,
/// whatever other markers they carry: the policy gives the same result on
/// the fields with them removed.
pub proof fn lemma_excluded_fields_produce_nothing(fields: Seq<Field>)
    ensures
        resolve_fields(fields) == resolve_fields(included(fields)),
    decreases fields.len(),
{
    reveal(Seq::filter);
    if fields.len() > 0 {
        let prev = fields.drop_last();
        lemma_excluded_fields_produce_nothing(prev);
        let f = fields.last();
        if is_included(f) {
            assert(included(fields) =~= included(prev).push(f));
            assert(included(fields).drop_last() =~= included(prev));
        } else {
            assert(included(fields) =~= included(prev));
        }
    }
}

/// On a struct whose fields carry no markers, each member generator makes
/// one method per field, in order, named by its prefix and the field's
/// identifier, touching that field.
pub proof fn lemma_unannotated_fields_all_generated(
    kind: MethodKind,
    input: DeriveInput,
    fields: Seq<Field>,
)
    requires
        struct_fields(input) == Ok::<Seq<Field>, DeriveError>(fields),
        forall|i: int| 0 <= i < fields.len() ==> (#[trigger] fields[i]).attrs@.len() == 0,
    ensures
        planned_methods(kind, input) matches Ok(ms) && ms.len() == fields.len() && forall|i: int|
            0 <= i < ms.len() ==> (#[trigger] ms[i]).name == prefix(kind) + fields[i].ident@
                && ms[i].field == fields[i].ident@ && ms[i].ty == fields[i].ty@,
{
    reveal(Seq::filter);
    assert forall|i: int| 0 <= i < fields.len() implies !malformed(#[trigger] fields[i]) && is_included(fields[i]) && effective_name(fields[i]) == fields[i].ident@ by {
        assert(fields[i].attrs@.len() == 0);
        assert(rename_args(fields[i].attrs@) is None);
    }
    lemma_policy_keeps_included_fields(fields);
    lemma_all_included(fields);
}

/// Where no field carries the exclusion marker, all fields are included.
proof fn lemma_all_included(fields: Seq<Field>)
    requires
        forall|i: int| 0 <= i < fields.len() ==> is_included(#[trigger] fields[i]),
    ensures
        included(fields) == fields,
    decreases fields.len(),
{
    reveal(Seq::filter);
    if fields.len() > 0 {
        let prev = fields.drop_last();
        assert forall|i: int| 0 <= i < prev.len() implies is_included(#[trigger] prev[i]) by {
            assert(prev[i] == fields[i]);
        }
        lemma_all_included(prev);
        assert(is_included(fields[fields.len() - 1]));
        assert(included(fields) =~= fields);
    } else {
        assert(included(fields) =~= fields);
    }
}

/// The staged builder ignores the field policy: it has one slot per
/// declared field, in order, named and typed as that field, whatever
/// markers the field carries.
pub proof fn lemma_builder_slot_per_field(input: DeriveInput, fields: Seq<Field>)
    requires
        struct_fields(input) == Ok::<Seq<Field>, DeriveError>(fields),
    ensures
        generated_builder(input) == Ok::<Seq<char>, DeriveError>(
            builder_text(input, slots_for(fields, input.ident@)),
        ),
        slots_for(fields, input.ident@).len() == fields.len(),
        forall|i: int|
            0 <= i < fields.len() ==> (#[trigger] slots_for(fields, input.ident@)[i]).field
                == fields[i].ident@ && slots_for(fields, input.ident@)[i].ty == fields[i].ty@,
{
}

/// The message `build` aborts with when a slot was never set begins with
/// that field's identifier and names the struct.
pub proof fn lemma_missing_slot_message_names_field_and_struct(
    field: Seq<char>,
    ident: Seq<char>,
)
    ensures
        missing_message(field, ident).subrange(0, field.len() as int) == field,
        missing_message(field, ident).subrange(
            (field.len() + " field is not set in "@.len()) as int,
            (field.len() + " field is not set in "@.len() + ident.len()) as int,
        ) == ident,
{
    let m = missing_message(field, ident);
    assert(m.subrange(0, field.len() as int) =~= field);
    assert(m.subrange(
        (field.len() + " field is not set in "@.len()) as int,
        (field.len() + " field is not set in "@.len() + ident.len()) as int,
    ) =~= ident);
}

/// Each slot's setter fills that same slot and returns the builder, and
/// `build` moves that same slot into the field of the same name: setting
/// every slot once, in any order, builds the value those settings describe.
pub proof fn lemma_builder_slot_round_trip(s: BuilderSlotView)
    ensures
        slot_text(SlotPart::Setter, s) == "#[inline]\npub fn "@ + s.field + "(mut self, v: "@ + s.ty
            + ") -> Self {\n"@ + ("self."@ + s.field + " = Some(v);\nself\n}\n"@),
        slot_text(SlotPart::Take, s).subrange(0, (s.field.len() + 7) as int) == s.field
            + ": self."@,
        slot_text(SlotPart::Take, s).subrange(
            (s.field.len() + 7) as int,
            (2 * s.field.len() + 7) as int,
        ) == s.field,
{
    reveal_strlit(") -> Self {\nself.");
    reveal_strlit(") -> Self {\n");
    reveal_strlit("self.");
    assert(slot_text(SlotPart::Setter, s) =~= "#[inline]\npub fn "@ + s.field + "(mut self, v: "@
        + s.ty + ") -> Self {\n"@ + ("self."@ + s.field + " = Some(v);\nself\n}\n"@));
    let t = slot_text(SlotPart::Take, s);
    assert(": self."@.len() == 7) by {
        reveal_strlit(": self.");
    }
    assert(t.subrange(0, (s.field.len() + 7) as int) =~= s.field + ": self."@);
    assert(t.subrange((s.field.len() + 7) as int, (2 * s.field.len() + 7) as int) =~= s.field);
}

/// A functional-update method passes the current value of its own field to
/// the transform, writes the result back to that field, and touches nothing
/// else: under a transform that returns its input, every field keeps its
/// value.
pub proof fn lemma_wither_writes_back_its_own_field(m: GenMethodView)
    ensures
        method_text(MethodKind::Wither, m) == "#[inline]\npub fn "@ + m.name
            + "<F>(mut self, func: F) -> Self\nwhere\nF: FnOnce("@ + m.ty + ") -> "@ + m.ty
            + ",\n{\n"@ + ("self."@ + m.field + " = func(self."@ + m.field + ");\nself\n}\n"@),
{
    reveal_strlit(",\n{\nself.");
    reveal_strlit(",\n{\n");
    reveal_strlit("self.");
    assert(method_text(MethodKind::Wither, m) =~= "#[inline]\npub fn "@ + m.name
        + "<F>(mut self, func: F) -> Self\nwhere\nF: FnOnce("@ + m.ty + ") -> "@ + m.ty
        + ",\n{\n"@ + ("self."@ + m.field + " = func(self."@ + m.field + ");\nself\n}\n"@));
}

/// The composition generator leaves an item that is not a struct unchanged.
pub proof fn lemma_non_struct_passes_unchanged(attr: Seq<TokenTree>, item: Seq<TokenTree>)
    requires
        !declares_struct(item),
    ensures
        data_header(attr, item) is None,
{
}

/// On a struct, the composition generator imports exactly the generators
/// that the options do not exclude, and still requests all four on the
/// struct itself.
pub proof fn lemma_exclusions_filter_imports_only(attr: Seq<TokenTree>, item: Seq<TokenTree>)
    requires
        declares_struct(item),
    ensures
        data_header(attr, item) == Some(
            header_text(options_of(attr).0, kept_derives(options_of(attr).1)),
        ),
        forall|d: Seq<char>|
            all_derives().contains(d) ==> (kept_derives(options_of(attr).1).contains(d)
                <==> !options_of(attr).1.contains(d)),
        forall|d: Seq<char>| #[trigger]
            kept_derives(options_of(attr).1).contains(d) ==> all_derives().contains(d),
        header_text(options_of(attr).0, kept_derives(options_of(attr).1)).subrange(
            header_text(options_of(attr).0, kept_derives(options_of(attr).1)).len()
                - derive_all_text().len(),
            header_text(options_of(attr).0, kept_derives(options_of(attr).1)).len() as int,
        ) == derive_all_text(),
{
    let excl = options_of(attr).1;
    let p = not_excluded(excl);
    broadcast use vstd::seq_lib::group_filter_ensures;
    let kept = kept_derives(excl);
    assert forall|d: Seq<char>| all_derives().contains(d) implies (kept.contains(d)
        <==> !excl.contains(d)) by {
        let i = choose|i: int| 0 <= i < all_derives().len() && all_derives()[i] == d;
        if kept.contains(d) {
            let k = choose|k: int| 0 <= k < kept.len() && kept[k] == d;
            assert(p(kept[k]));
        }
    }
    assert forall|d: Seq<char>| #[trigger] kept.contains(d) implies all_derives().contains(d) by {
        all_derives().lemma_filter_contains_rev(p, d);
    }
    let h = header_text(options_of(attr).0, kept);
    assert(h.subrange(h.len() - derive_all_text().len(), h.len() as int) =~= derive_all_text());
}

} // verus!
