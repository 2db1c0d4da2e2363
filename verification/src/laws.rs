//! What holds of the engine on every field and on every declaration.
//!
//! The laws speak of fields and declarations by their views, through the same
//! functions as the contracts of the engine and of the walker: what
//! `rewritten_field` and `field_failures` say of a field is what
//! `process_optional_field` does to it, and what `item_failures` says of a
//! declaration is what `process_items` hands back.

use vstd::prelude::*;
use vstd::seq_lib::lemma_flatten_concat;
use crate::engine::{
    Outcome, carries_marker, field_failures, field_verdict, has_default, has_skip, is_no_marker,
    flags_do_not_see_markers, offending_markers, rewritten_field, without_markers,
};
use crate::failure::{FailureKind, ValidationFailure};
use crate::shape::option_argument;
use crate::syntax::{
    Annotation, Bundle, DirectiveSet, FieldView, ItemView, Marker, VariantView,
};
use crate::walker::{fields_failures, item_failures, list_failures};

verus! {

/// The failure of this kind at the position of the field.
pub open spec fn failure_at(field: FieldView, kind: FailureKind) -> ValidationFailure {
    ValidationFailure { position: field.position, kind }
}

/// All fields of a declaration in the order in which they are visited: those
/// of a record as declared, those of a tagged union variant by variant.
pub open spec fn fields_of(item: ItemView) -> Seq<FieldView> {
    match item {
        ItemView::Struct(fields) => fields.list(),
        ItemView::Enum(variants) => variants.map_values(
            |variant: VariantView| variant.fields.list(),
        ).flatten(),
        ItemView::Other => Seq::empty(),
    }
}

/// How many markers offend on the fields of a list, all fields together.
pub open spec fn offending_in(list: Seq<FieldView>) -> nat
    decreases list.len(),
{
    if list.len() == 0 {
        0
    } else {
        offending_in(list.drop_last()) + offending_markers(list.last())
    }
}

/// The failures of a field: for each marker on it, in the order `nullable`,
/// `not_required`, the failure of this kind at the field's position.
pub open spec fn one_for_each_marker(field: FieldView, kind: spec_fn(Marker) -> FailureKind) -> Seq<
    ValidationFailure,
> {
    let nullable = if carries_marker(field.attrs, Marker::Nullable) {
        seq![failure_at(field, kind(Marker::Nullable))]
    } else {
        Seq::empty()
    };
    let not_required = if carries_marker(field.attrs, Marker::NotRequired) {
        seq![failure_at(field, kind(Marker::NotRequired))]
    } else {
        Seq::empty()
    };
    nullable + not_required
}

/// Whether the failure is one of those of the field, at the field's
/// position.
pub open spec fn is_failure_of(failure: ValidationFailure, field: FieldView) -> bool {
    &&& field_failures(field).contains(failure)
    &&& failure.position == field.position
    &&& offending_markers(field) > 0
}

/// A list that holds neither marker is the same without its markers.
proof fn lemma_nothing_to_remove(attrs: Seq<Annotation>)
    requires
        !carries_marker(attrs, Marker::Nullable),
        !carries_marker(attrs, Marker::NotRequired),
    ensures
        without_markers(attrs) == attrs,
    decreases attrs.len(),
{
    let keep = |annotation: Annotation| is_no_marker(annotation);
    reveal(Seq::filter);
    if attrs.len() > 0 {
        let shorter = attrs.drop_last();
        assert forall|marker: Marker| !carries_marker(shorter, marker) by {
            if carries_marker(shorter, marker) {
                let at = choose|at: int|
                    0 <= at < shorter.len() && (#[trigger] shorter[at]).spec_is_marker(marker);
                assert(attrs[at].spec_is_marker(marker));
            }
        }
        lemma_nothing_to_remove(shorter);
        assert(attrs[attrs.len() - 1] == attrs.last());
        assert(keep(attrs.last()));
        assert(attrs.filter(keep) =~= attrs);
    } else {
        assert(attrs.filter(keep) =~= attrs);
    }
}

/// What is left of a list without its markers holds neither marker.
proof fn lemma_markers_removed(attrs: Seq<Annotation>)
    ensures
        !carries_marker(without_markers(attrs), Marker::Nullable),
        !carries_marker(without_markers(attrs), Marker::NotRequired),
{
    let keep = |annotation: Annotation| is_no_marker(annotation);
    let kept = attrs.filter(keep);
    assert forall|at: int| 0 <= at < kept.len() implies is_no_marker(#[trigger] kept[at]) by {
        attrs.lemma_filter_pred(keep, at);
    }
}

/// A field without a marker comes out of the engine as it went in and is not
/// refused, whatever its type and its other annotations.
pub proof fn unmarked_field_is_unchanged(field: FieldView, schema: bool)
    requires
        !carries_marker(field.attrs, Marker::Nullable),
        !carries_marker(field.attrs, Marker::NotRequired),
    ensures
        field_verdict(field) == Outcome::Untouched,
        rewritten_field(field, schema) == field,
        field_failures(field).len() == 0,
{
    lemma_nothing_to_remove(field.attrs);
}

/// The markers leave the field, whatever comes of it: neither is on the
/// field after the engine, refused or not.
pub proof fn markers_always_leave(field: FieldView, schema: bool)
    ensures
        !carries_marker(rewritten_field(field, schema).attrs, Marker::Nullable),
        !carries_marker(rewritten_field(field, schema).attrs, Marker::NotRequired),
{
    lemma_markers_removed(field.attrs);
    let kept = without_markers(field.attrs);
    let after = rewritten_field(field, schema).attrs;
    assert forall|marker: Marker| !carries_marker(after, marker) by {
        if carries_marker(after, marker) {
            let at = choose|at: int|
                0 <= at < after.len() && (#[trigger] after[at]).spec_is_marker(marker);
            if at < kept.len() {
                assert(kept[at].spec_is_marker(marker));
            }
        }
    }
}

/// The engine changes nothing on a field that it has been over: a second run
/// leaves the field as the first left it, and refuses nothing.
pub proof fn second_run_changes_nothing(field: FieldView, schema: bool)
    ensures
        rewritten_field(rewritten_field(field, schema), schema) == rewritten_field(field, schema),
        field_failures(rewritten_field(field, schema)).len() == 0,
{
    markers_always_leave(field, schema);
    unmarked_field_is_unchanged(rewritten_field(field, schema), schema);
}

/// `not_required` alone, on a field of optional type that has neither the
/// serde directive `skip` nor `default`, is replaced by the unwrap-or-skip
/// set, and with `schema` by the hint that the value is never null as well.
pub proof fn not_required_alone_is_unwrap_or_skip(field: FieldView, schema: bool)
    requires
        option_argument(field.ty) is Some,
        carries_marker(field.attrs, Marker::NotRequired),
        !carries_marker(field.attrs, Marker::Nullable),
        !has_skip(field.attrs),
        !has_default(field.attrs),
    ensures
        field_failures(field).len() == 0,
        field_verdict(field) == Outcome::Emit(DirectiveSet::UnwrapOrSkip),
        !schema ==> rewritten_field(field, schema).attrs == without_markers(field.attrs).push(
            Annotation::Emitted(Bundle::Serde(DirectiveSet::UnwrapOrSkip)),
        ),
        schema ==> rewritten_field(field, schema).attrs == without_markers(field.attrs).push(
            Annotation::Emitted(Bundle::Serde(DirectiveSet::UnwrapOrSkip)),
        ).push(Annotation::Emitted(Bundle::SchemaNotNullable)),
{
}

/// `nullable` alone, on a field of optional type that serde is not told to
/// skip, is replaced by the direct set, whether or not the field has a serde
/// default, and with `schema` by the hint that the field is always present
/// as well.
pub proof fn nullable_alone_is_direct(field: FieldView, schema: bool)
    requires
        option_argument(field.ty) is Some,
        carries_marker(field.attrs, Marker::Nullable),
        !carries_marker(field.attrs, Marker::NotRequired),
        !has_skip(field.attrs),
    ensures
        field_failures(field).len() == 0,
        field_verdict(field) == Outcome::Emit(DirectiveSet::Direct),
        !schema ==> rewritten_field(field, schema).attrs == without_markers(field.attrs).push(
            Annotation::Emitted(Bundle::Serde(DirectiveSet::Direct)),
        ),
        schema ==> rewritten_field(field, schema).attrs == without_markers(field.attrs).push(
            Annotation::Emitted(Bundle::Serde(DirectiveSet::Direct)),
        ).push(Annotation::Emitted(Bundle::SchemaRequired)),
{
}

/// Both markers, on a field of optional type that has neither the serde
/// directive `skip` nor `default`, are replaced by the double-option set,
/// with or without `schema`.
pub proof fn both_markers_are_double_option(field: FieldView, schema: bool)
    requires
        option_argument(field.ty) is Some,
        carries_marker(field.attrs, Marker::Nullable),
        carries_marker(field.attrs, Marker::NotRequired),
        !has_skip(field.attrs),
        !has_default(field.attrs),
    ensures
        field_failures(field).len() == 0,
        field_verdict(field) == Outcome::Emit(DirectiveSet::DoubleOption),
        rewritten_field(field, schema).attrs == without_markers(field.attrs).push(
            Annotation::Emitted(Bundle::Serde(DirectiveSet::DoubleOption)),
        ),
{
}

/// A field of optional type that serde is told to skip is refused as soon as
/// it has a marker: with one failure for each marker on it, at the field's
/// position, that says the marker does not go with `skip`. The field keeps
/// its `skip` without the markers.
pub proof fn markers_on_skipped_field_are_refused(field: FieldView, schema: bool)
    requires
        option_argument(field.ty) is Some,
        has_skip(field.attrs),
        carries_marker(field.attrs, Marker::Nullable) || carries_marker(
            field.attrs,
            Marker::NotRequired,
        ),
    ensures
        field_failures(field).len() > 0,
        field_failures(field) == one_for_each_marker(
            field,
            |marker: Marker| FailureKind::IncompatibleWithSkip(marker),
        ),
        rewritten_field(field, schema).attrs == without_markers(field.attrs),
        has_skip(rewritten_field(field, schema).attrs),
{
    flags_do_not_see_markers(field.attrs);
}

/// A field whose type does not read `Option<T>` is refused as soon as it has
/// a marker: with one failure for each marker on it, at the field's position,
/// that says the marker is on the wrong kind of field. Both markers make two
/// failures.
pub proof fn markers_on_other_types_are_refused(field: FieldView)
    requires
        option_argument(field.ty) is None,
        carries_marker(field.attrs, Marker::Nullable) || carries_marker(
            field.attrs,
            Marker::NotRequired,
        ),
    ensures
        field_failures(field).len() > 0,
        field_failures(field) == one_for_each_marker(
            field,
            |marker: Marker| FailureKind::InvalidMarkerTarget(marker),
        ),
        carries_marker(field.attrs, Marker::Nullable) && carries_marker(
            field.attrs,
            Marker::NotRequired,
        ) ==> field_failures(field).len() == 2,
{
}

/// `not_required` on a field of optional type that has a serde default and
/// that serde is not told to skip is refused, with the one failure that says
/// so, at the field's position, with or without `nullable` beside it.
pub proof fn not_required_with_default_is_refused(field: FieldView)
    requires
        option_argument(field.ty) is Some,
        carries_marker(field.attrs, Marker::NotRequired),
        has_default(field.attrs),
        !has_skip(field.attrs),
    ensures
        field_failures(field) == seq![failure_at(field, FailureKind::IncompatibleWithDefault)],
{
}

/// A field is refused with as many failures as it has offending markers, each
/// at the field's position.
pub proof fn field_failures_count_offending_markers(field: FieldView)
    ensures
        field_failures(field).len() == offending_markers(field),
        forall|at: int|
            0 <= at < field_failures(field).len() ==> (#[trigger] field_failures(
                field,
            )[at]).position == field.position,
{
}

/// The failures of a list of fields, seen from its last field.
proof fn lemma_list_failures_from_the_back(list: Seq<FieldView>)
    requires
        list.len() > 0,
    ensures
        list_failures(list) == list_failures(list.drop_last()) + field_failures(list.last()),
{
    let part = |field: FieldView| field_failures(field);
    let shorter = list.drop_last();
    assert(list.map_values(part) =~= shorter.map_values(part).push(part(list.last())));
    shorter.map_values(part).lemma_flatten_push(part(list.last()));
}

/// The failures of two lists of fields, one behind the other.
proof fn lemma_list_failures_of_both(front: Seq<FieldView>, back: Seq<FieldView>)
    ensures
        list_failures(front + back) == list_failures(front) + list_failures(back),
{
    let part = |field: FieldView| field_failures(field);
    assert((front + back).map_values(part) =~= front.map_values(part) + back.map_values(part));
    lemma_flatten_concat(front.map_values(part), back.map_values(part));
}

/// The failures of a list of fields are as many as the markers that offend
/// on its fields, and each stands among the failures of one of the fields,
/// at that field's position.
proof fn lemma_list_failures(list: Seq<FieldView>)
    ensures
        list_failures(list).len() == offending_in(list),
        forall|at: int|
            0 <= at < list_failures(list).len() ==> exists|of: int|
                0 <= of < list.len() && is_failure_of(
                    #[trigger] list_failures(list)[at],
                    #[trigger] list[of],
                ),
    decreases list.len(),
{
    if list.len() == 0 {
        assert(list.map_values(|field: FieldView| field_failures(field)) =~= Seq::empty());
    } else {
        let shorter = list.drop_last();
        lemma_list_failures(shorter);
        lemma_list_failures_from_the_back(list);
        field_failures_count_offending_markers(list.last());
        let all = list_failures(list);
        let head = list_failures(shorter);
        assert forall|at: int| 0 <= at < all.len() implies exists|of: int|
            0 <= of < list.len() && is_failure_of(#[trigger] all[at], #[trigger] list[of]) by {
            if at < head.len() {
                assert(all[at] == head[at]);
                let of = choose|of: int|
                    0 <= of < shorter.len() && is_failure_of(head[at], #[trigger] shorter[of]);
                assert(list[of] == shorter[of]);
                assert(is_failure_of(all[at], list[of]));
            } else {
                let of = list.len() - 1;
                assert(all[at] == field_failures(list.last())[at - head.len()]);
                assert(list[of] == list.last());
                assert(is_failure_of(all[at], list[of]));
            }
        }
    }
}

/// The failures of the variants of a tagged union are those of all its
/// fields, variant by variant.
proof fn lemma_variants_failures(variants: Seq<VariantView>)
    ensures
        item_failures(ItemView::Enum(variants)) == list_failures(
            fields_of(ItemView::Enum(variants)),
        ),
    decreases variants.len(),
{
    let lists = |variant: VariantView| variant.fields.list();
    let parts = |variant: VariantView| list_failures(variant.fields.list());
    assert(item_failures(ItemView::Enum(variants)) == variants.map_values(
        |variant: VariantView| fields_failures(variant.fields),
    ).flatten());
    assert(variants.map_values(
        |variant: VariantView| fields_failures(variant.fields),
    ) =~= variants.map_values(parts));
    if variants.len() == 0 {
        assert(variants.map_values(lists) =~= Seq::empty());
        assert(variants.map_values(parts) =~= Seq::empty());
        assert(Seq::<FieldView>::empty().map_values(|field: FieldView| field_failures(field))
            =~= Seq::empty());
    } else {
        let shorter = variants.drop_last();
        let last = variants.last();
        lemma_variants_failures(shorter);
        assert(variants =~= shorter.push(last));
        assert(variants.map_values(lists) =~= shorter.map_values(lists).push(lists(last)));
        assert(variants.map_values(parts) =~= shorter.map_values(parts).push(parts(last)));
        shorter.map_values(lists).lemma_flatten_push(lists(last));
        shorter.map_values(parts).lemma_flatten_push(parts(last));
        lemma_list_failures_of_both(shorter.map_values(lists).flatten(), lists(last));
        assert(shorter.map_values(
            |variant: VariantView| fields_failures(variant.fields),
        ) =~= shorter.map_values(parts));
    }
}

/// The failures of a record or of a tagged union are those of its fields, in
/// the order in which the fields are visited: as many as there are offending
/// markers on all its fields, each at the position of its own field. None is
/// left out and none is added.
pub proof fn one_failure_for_each_offending_marker(item: ItemView)
    requires
        !(item is Other),
    ensures
        item_failures(item) == list_failures(fields_of(item)),
        item_failures(item).len() == offending_in(fields_of(item)),
        forall|at: int|
            0 <= at < item_failures(item).len() ==> exists|of: int|
                0 <= of < fields_of(item).len() && is_failure_of(
                    #[trigger] item_failures(item)[at],
                    #[trigger] fields_of(item)[of],
                ),
{
    match item {
        ItemView::Struct(fields) => {},
        ItemView::Enum(variants) => {
            lemma_variants_failures(variants);
        },
        ItemView::Other => {},
    }
    lemma_list_failures(fields_of(item));
}

} // verus!
