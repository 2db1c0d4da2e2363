//! The declaration walker: the engine on every field of a record or of a
//! tagged union, and the failures of all fields in one.

use vstd::prelude::*;
use crate::engine::{field_failures, process_optional_field, rewritten_field};
use crate::failure::{
    AggregateFailure, CompileError, FailureKind, ValidationFailure, failures_in, merge_errors,
    rendered,
};
use crate::syntax::{
    Field, FieldView, Fields, FieldsView, Item, ItemView, Path, Position, Variant, VariantView,
    field_views, variant_views,
};

verus! {

/// The fields of a list after the engine.
pub open spec fn rewritten_list(list: Seq<FieldView>, schema: bool) -> Seq<FieldView> {
    list.map_values(|field: FieldView| rewritten_field(field, schema))
}

/// The failures of the fields of a list, field after field.
pub open spec fn list_failures(list: Seq<FieldView>) -> Seq<ValidationFailure> {
    list.map_values(|field: FieldView| field_failures(field)).flatten()
}

/// The fields of a record or of a variant after the engine.
pub open spec fn rewritten_fields(fields: FieldsView, schema: bool) -> FieldsView {
    match fields {
        FieldsView::Unit => FieldsView::Unit,
        FieldsView::Named(list) => FieldsView::Named(rewritten_list(list, schema)),
        FieldsView::Unnamed(list) => FieldsView::Unnamed(rewritten_list(list, schema)),
    }
}

/// The failures of the fields of a record or of a variant, field after field.
pub open spec fn fields_failures(fields: FieldsView) -> Seq<ValidationFailure> {
    list_failures(fields.list())
}

/// The variants of a tagged union after the engine.
pub open spec fn rewritten_variants(variants: Seq<VariantView>, schema: bool) -> Seq<VariantView> {
    variants.map_values(
        |variant: VariantView| VariantView { fields: rewritten_fields(variant.fields, schema) },
    )
}

/// The failures of the variants of a tagged union, variant after variant.
pub open spec fn variants_failures(variants: Seq<VariantView>) -> Seq<ValidationFailure> {
    variants.map_values(|variant: VariantView| fields_failures(variant.fields)).flatten()
}

/// The failure for a declaration that is neither a record nor a tagged union.
pub open spec fn unsupported() -> ValidationFailure {
    ValidationFailure { position: Position::CallSite, kind: FailureKind::UnsupportedItemKind }
}

/// The failures of a declaration: those of its fields, in declared order, for
/// a record or a tagged union, and one failure for anything else.
pub open spec fn item_failures(item: ItemView) -> Seq<ValidationFailure> {
    match item {
        ItemView::Struct(fields) => fields_failures(fields),
        ItemView::Enum(variants) => variants_failures(variants),
        ItemView::Other => seq![unsupported()],
    }
}

/// The declaration after the engine.
pub open spec fn rewritten_item(item: ItemView, schema: bool) -> ItemView {
    match item {
        ItemView::Struct(fields) => ItemView::Struct(rewritten_fields(fields, schema)),
        ItemView::Enum(variants) => ItemView::Enum(rewritten_variants(variants, schema)),
        ItemView::Other => ItemView::Other,
    }
}

/// Runs the engine on each field of the list, in order.
fn process_field_list(list: &mut Vec<Field>, schema: bool) -> (result: Result<(), AggregateFailure>)
    ensures
        field_views(final(list)@) == rewritten_list(field_views(old(list)@), schema),
        result is Ok <==> list_failures(field_views(old(list)@)).len() == 0,
        result matches Err(aggregate) ==> aggregate@ == list_failures(field_views(old(list)@)),
{
    let ghost before = list@;
    let mut results: Vec<Result<(), AggregateFailure>> = Vec::new();
    let mut at: usize = 0;
    while at < list.len()
        invariant
            list@.len() == before.len(),
            results@.len() == at,
            at <= list@.len(),
            forall|i: int|
                0 <= i < at ==> (#[trigger] list@[i])@ == rewritten_field(before[i]@, schema),
            forall|i: int| at <= i < list@.len() ==> #[trigger] list@[i] == before[i],
            forall|i: int|
                0 <= i < at ==> failures_in(#[trigger] results@[i]) == field_failures(
                    before[i]@,
                ),
        decreases list@.len() - at,
    {
        let result = process_optional_field(&mut list[at], schema);
        results.push(result);
        at += 1;
    }
    proof {
        assert(results@.map_values(|result: Result<(), AggregateFailure>| failures_in(result))
            =~= field_views(before).map_values(|field: FieldView| field_failures(field)));
    }
    merge_errors(results)
}

/// Runs the engine on the fields of one record or of one variant, in
/// declared order, and merges what the fields come to: `Ok` when no field was
/// refused, and otherwise the failures of all fields. The unit form has no
/// fields and is accepted.
pub fn process_fields(fields: &mut Fields, schema: bool) -> (result: Result<(), AggregateFailure>)
    ensures
        final(fields)@ == rewritten_fields(old(fields)@, schema),
        result is Ok <==> fields_failures(old(fields)@).len() == 0,
        result matches Err(aggregate) ==> aggregate@ == fields_failures(old(fields)@),
{
    match fields {
        Fields::Unit => Ok(()),
        Fields::Named(list) => process_field_list(list, schema),
        Fields::Unnamed(list) => process_field_list(list, schema),
    }
}

/// Runs the engine on the fields of each variant, in declared order.
fn process_variants(variants: &mut Vec<Variant>, schema: bool) -> (result: Result<
    (),
    AggregateFailure,
>)
    ensures
        variant_views(final(variants)@) == rewritten_variants(
            variant_views(old(variants)@),
            schema,
        ),
        result is Ok <==> variants_failures(variant_views(old(variants)@)).len() == 0,
        result matches Err(aggregate) ==> aggregate@ == variants_failures(
            variant_views(old(variants)@),
        ),
{
    let ghost before = variants@;
    let mut results: Vec<Result<(), AggregateFailure>> = Vec::new();
    let mut at: usize = 0;
    while at < variants.len()
        invariant
            variants@.len() == before.len(),
            results@.len() == at,
            at <= variants@.len(),
            forall|i: int|
                0 <= i < at ==> (#[trigger] variants@[i]).fields@ == rewritten_fields(
                    before[i].fields@,
                    schema,
                ),
            forall|i: int| at <= i < variants@.len() ==> #[trigger] variants@[i] == before[i],
            forall|i: int|
                0 <= i < at ==> failures_in(#[trigger] results@[i]) == fields_failures(
                    before[i].fields@,
                ),
        decreases variants@.len() - at,
    {
        let result = process_fields(&mut variants[at].fields, schema);
        results.push(result);
        at += 1;
    }
    proof {
        assert(results@.map_values(|result: Result<(), AggregateFailure>| failures_in(result))
            =~= variant_views(before).map_values(
            |variant: VariantView| fields_failures(variant.fields),
        ));
    }
    merge_errors(results)
}

/// Runs the engine on every field of a declaration: on the fields of a
/// record in declared order, on those of a tagged union variant by variant.
///
/// Where no field is refused, the declaration comes back with every field
/// rewritten. Where a field is refused, the failures of all fields come back
/// in one aggregate, in the order of the fields, and no declaration.
/// Anything but a record or a tagged union is refused with one failure at
/// the call site.
pub fn process_items(item: Item, schema: bool) -> (result: Result<Item, AggregateFailure>)
    ensures
        result is Ok <==> item_failures(item@).len() == 0,
        result matches Ok(rewritten) ==> rewritten@ == rewritten_item(item@, schema),
        result matches Err(aggregate) ==> aggregate@ == item_failures(item@),
{
    match item {
        Item::Struct(mut fields) => match process_fields(&mut fields, schema) {
            Ok(()) => Ok(Item::Struct(fields)),
            Err(aggregate) => Err(aggregate),
        },
        Item::Enum(mut variants) => match process_variants(&mut variants, schema) {
            Ok(()) => Ok(Item::Enum(variants)),
            Err(aggregate) => Err(aggregate),
        },
        Item::Other => Err(
            AggregateFailure::new(Position::CallSite, FailureKind::UnsupportedItemKind),
        ),
    }
}

/// What the transformation hands back.
#[derive(Debug, PartialEq, Eq)]
pub enum Expansion {
    /// The declaration, with every field rewritten.
    Declaration(Item),
    /// The compile errors that take the declaration's place.
    CompileErrors(Vec<CompileError>),
}

/// Whether the arguments of the invocation ask for the schema hints: whether
/// one of them is the identifier `utoipa`.
pub open spec fn asks_for_schema(attr: Seq<Path>) -> bool {
    exists|at: int| 0 <= at < attr.len() && (#[trigger] attr[at]).spec_is_ident("utoipa"@)
}

/// Says whether the arguments of the invocation ask for the schema hints.
/// Arguments that the transformation does not know are passed over.
pub fn schema_requested(attr: &Vec<Path>) -> (schema: bool)
    ensures
        schema == asks_for_schema(attr@),
{
    let mut at: usize = 0;
    while at < attr.len()
        invariant
            at <= attr@.len(),
            forall|before: int|
                0 <= before < at ==> !(#[trigger] attr@[before]).spec_is_ident("utoipa"@),
        decreases attr@.len() - at,
    {
        if attr[at].is_ident("utoipa") {
            return true;
        }
        at += 1;
    }
    false
}

/// Turns the markers `nullable` and `not_required` on the fields of a
/// declaration into the serde directives they stand for.
///
/// `attr` holds the arguments of the invocation: with `utoipa` among them,
/// the schema hints are written beside the serde directives. The declaration
/// comes back rewritten where every marker is in order. Where one is not,
/// compile errors come back in its place: one for each offending marker, at
/// the position of its field, in the order of the fields.
pub fn serde_option(attr: &Vec<Path>, item: Item) -> (expansion: Expansion)
    ensures
        match expansion {
            Expansion::Declaration(rewritten) => {
                &&& item_failures(item@).len() == 0
                &&& rewritten@ == rewritten_item(item@, asks_for_schema(attr@))
            },
            Expansion::CompileErrors(errors) => {
                &&& item_failures(item@).len() > 0
                &&& errors@.map_values(|error: CompileError| error@) == rendered(
                    item_failures(item@),
                )
            },
        },
{
    match process_items(item, schema_requested(attr)) {
        Ok(rewritten) => Expansion::Declaration(rewritten),
        Err(aggregate) => Expansion::CompileErrors(aggregate.to_compile_error()),
    }
}

} // verus!
