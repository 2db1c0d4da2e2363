//! The field decision engine: what the two markers on a field mean, given its
//! type and the serde directives it already has.
//!
//! Each marker on a field is judged on its own. A marker offends where the
//! field's type does not read `Option<T>`, where serde is told to skip the
//! field, and, for `not_required`, where the field already has a serde
//! default. A field with an offending marker is refused, with one failure for
//! each offending marker. Otherwise the markers are replaced by the directive
//! set that stands for them. The markers leave the field in either case.

use vstd::prelude::*;
use crate::failure::{AggregateFailure, FailureKind, ValidationFailure};
use crate::shape::{get_std_option, option_argument};
use crate::syntax::{Annotation, Bundle, DirectiveSet, Field, FieldView, Marker};

verus! {

/// The four facts about a field that the rules go by.
#[derive(Clone, Copy, Debug, PartialEq, Eq)]
pub struct Flags {
    /// The field has the serde directive `skip`.
    pub skip: bool,
    /// The field has the marker `nullable`.
    pub nullable: bool,
    /// The field has the marker `not_required`.
    pub not_required: bool,
    /// The field has the serde directive `default`.
    pub default: bool,
}

/// What the rules say of one field.
#[derive(Clone, Copy, Debug, PartialEq, Eq)]
pub enum Outcome {
    /// The field has no marker: it stays as it is.
    Untouched,
    /// The markers are in order: this directive set replaces them.
    Emit(DirectiveSet),
    /// One marker offends.
    Reject(FailureKind),
    /// Both markers offend: the failure for `nullable`, then the failure for
    /// `not_required`.
    RejectBoth(FailureKind, FailureKind),
}

impl Outcome {
    /// The failures of the outcome, in order.
    pub open spec fn failures(self) -> Seq<FailureKind> {
        match self {
            Outcome::Reject(kind) => seq![kind],
            Outcome::RejectBoth(first, second) => seq![first, second],
            _ => Seq::empty(),
        }
    }
}

/// Whether the annotation at `at` is the first of the list in `namespace`.
pub open spec fn is_first_in_namespace(
    attrs: Seq<Annotation>,
    namespace: Seq<char>,
    at: int,
) -> bool {
    &&& 0 <= at < attrs.len()
    &&& attrs[at].spec_in_namespace(namespace)
    &&& forall|before: int|
        0 <= before < at ==> !(#[trigger] attrs[before]).spec_in_namespace(namespace)
}

/// Whether the first annotation of the list in `namespace` names the
/// directive `name`, at any place and with or without a value. Later
/// annotations in the namespace are not looked at.
pub open spec fn has_attribute(
    attrs: Seq<Annotation>,
    namespace: Seq<char>,
    name: Seq<char>,
) -> bool {
    exists|at: int| #[trigger]
        is_first_in_namespace(attrs, namespace, at) && attrs[at].spec_has_directive(name)
}

/// Whether the list holds the marker.
pub open spec fn carries_marker(attrs: Seq<Annotation>, marker: Marker) -> bool {
    exists|at: int| 0 <= at < attrs.len() && (#[trigger] attrs[at]).spec_is_marker(marker)
}

/// Whether an annotation is neither of the two markers.
pub open spec fn is_no_marker(annotation: Annotation) -> bool {
    !annotation.spec_is_marker(Marker::Nullable) && !annotation.spec_is_marker(
        Marker::NotRequired,
    )
}

/// The list without the markers: the other annotations, in their order.
pub open spec fn without_markers(attrs: Seq<Annotation>) -> Seq<Annotation> {
    attrs.filter(|annotation: Annotation| is_no_marker(annotation))
}

/// Whether serde is told to skip a field with these annotations.
pub open spec fn has_skip(attrs: Seq<Annotation>) -> bool {
    has_attribute(attrs, "serde"@, "skip"@)
}

/// Whether a field with these annotations has a serde default.
pub open spec fn has_default(attrs: Seq<Annotation>) -> bool {
    has_attribute(attrs, "serde"@, "default"@)
}

/// The four facts about a field with these annotations.
pub open spec fn flags_of(attrs: Seq<Annotation>) -> Flags {
    Flags {
        skip: has_skip(attrs),
        nullable: carries_marker(attrs, Marker::Nullable),
        not_required: carries_marker(attrs, Marker::NotRequired),
        default: has_default(attrs),
    }
}

/// What is wrong with one marker on a field, if anything: `matched` says
/// whether the field's type reads `Option<T>`, `skip` and `default` whether
/// the field has those serde directives.
pub open spec fn objection(marker: Marker, matched: bool, skip: bool, default: bool) -> Option<
    FailureKind,
> {
    if !matched {
        Some(FailureKind::InvalidMarkerTarget(marker))
    } else if skip {
        Some(FailureKind::IncompatibleWithSkip(marker))
    } else if marker == Marker::NotRequired && default {
        Some(FailureKind::IncompatibleWithDefault)
    } else {
        None
    }
}

/// The failure for one marker, if the field has it and it offends.
pub open spec fn marker_failures(marker: Marker, present: bool, matched: bool, flags: Flags) -> Seq<
    FailureKind,
> {
    if present {
        match objection(marker, matched, flags.skip, flags.default) {
            Some(kind) => seq![kind],
            None => Seq::empty(),
        }
    } else {
        Seq::empty()
    }
}

/// The failures of a field: that for `nullable`, then that for
/// `not_required`.
pub open spec fn objections(matched: bool, flags: Flags) -> Seq<FailureKind> {
    marker_failures(Marker::Nullable, flags.nullable, matched, flags) + marker_failures(
        Marker::NotRequired,
        flags.not_required,
        matched,
        flags,
    )
}

/// The directive set that stands for the markers of a field.
pub open spec fn directive_set(flags: Flags) -> Option<DirectiveSet> {
    if flags.nullable && flags.not_required {
        Some(DirectiveSet::DoubleOption)
    } else if flags.nullable {
        Some(DirectiveSet::Direct)
    } else if flags.not_required {
        Some(DirectiveSet::UnwrapOrSkip)
    } else {
        None
    }
}

/// What the rules say of a field: refused where a marker offends, and
/// otherwise the directive set for its markers.
pub open spec fn verdict(matched: bool, flags: Flags) -> Outcome {
    let found = objections(matched, flags);
    if found.len() == 2 {
        Outcome::RejectBoth(found[0], found[1])
    } else if found.len() == 1 {
        Outcome::Reject(found[0])
    } else {
        match directive_set(flags) {
            Some(set) => Outcome::Emit(set),
            None => Outcome::Untouched,
        }
    }
}

/// The bundles written for a directive set: its serde directives, and with
/// `schema` the schema hint that goes with the set. The set for both markers
/// has no schema hint.
pub open spec fn bundles(set: DirectiveSet, schema: bool) -> Seq<Bundle> {
    match set {
        DirectiveSet::UnwrapOrSkip => if schema {
            seq![Bundle::Serde(set), Bundle::SchemaNotNullable]
        } else {
            seq![Bundle::Serde(set)]
        },
        DirectiveSet::Direct => if schema {
            seq![Bundle::Serde(set), Bundle::SchemaRequired]
        } else {
            seq![Bundle::Serde(set)]
        },
        DirectiveSet::DoubleOption => seq![Bundle::Serde(set)],
    }
}

/// What the rules say of this field.
pub open spec fn field_verdict(field: FieldView) -> Outcome {
    verdict(option_argument(field.ty) is Some, flags_of(field.attrs))
}

/// The failures of this field, each at the field's position.
pub open spec fn field_failures(field: FieldView) -> Seq<ValidationFailure> {
    field_verdict(field).failures().map_values(
        |kind: FailureKind| ValidationFailure { position: field.position, kind },
    )
}

/// The annotations written on this field in place of its markers.
pub open spec fn field_emitted(field: FieldView, schema: bool) -> Seq<Annotation> {
    match field_verdict(field) {
        Outcome::Emit(set) => bundles(set, schema).map_values(
            |bundle: Bundle| Annotation::Emitted(bundle),
        ),
        _ => Seq::empty(),
    }
}

/// Whether the field has the marker and the marker offends.
pub open spec fn offends(field: FieldView, marker: Marker) -> bool {
    &&& carries_marker(field.attrs, marker)
    &&& objection(
        marker,
        option_argument(field.ty) is Some,
        has_skip(field.attrs),
        has_default(field.attrs),
    ) is Some
}

/// How many of the two markers offend on this field.
pub open spec fn offending_markers(field: FieldView) -> nat {
    let nullable: nat = if offends(field, Marker::Nullable) {
        1
    } else {
        0
    };
    let not_required: nat = if offends(field, Marker::NotRequired) {
        1
    } else {
        0
    };
    nullable + not_required
}

/// The field after the engine: without its markers, and with the bundles for
/// them behind the annotations that stay.
pub open spec fn rewritten_field(field: FieldView, schema: bool) -> FieldView {
    FieldView {
        attrs: without_markers(field.attrs) + field_emitted(field, schema),
        ty: field.ty,
        position: field.position,
    }
}

/// Says what the rules make of a field, from whether its type reads
/// `Option<T>` and its four flags.
pub fn decide(matched: bool, flags: Flags) -> (outcome: Outcome)
    ensures
        outcome == verdict(matched, flags),
{
    let nullable = Marker::Nullable;
    let not_required = Marker::NotRequired;
    match (matched, flags.skip, flags.nullable, flags.not_required, flags.default) {
        (_, _, false, false, _) => Outcome::Untouched,
        (false, _, true, false, _) => Outcome::Reject(FailureKind::InvalidMarkerTarget(nullable)),
        (false, _, false, true, _) => Outcome::Reject(
            FailureKind::InvalidMarkerTarget(not_required),
        ),
        (false, _, true, true, _) => Outcome::RejectBoth(
            FailureKind::InvalidMarkerTarget(nullable),
            FailureKind::InvalidMarkerTarget(not_required),
        ),
        (true, true, true, false, _) => Outcome::Reject(
            FailureKind::IncompatibleWithSkip(nullable),
        ),
        (true, true, false, true, _) => Outcome::Reject(
            FailureKind::IncompatibleWithSkip(not_required),
        ),
        (true, true, true, true, _) => Outcome::RejectBoth(
            FailureKind::IncompatibleWithSkip(nullable),
            FailureKind::IncompatibleWithSkip(not_required),
        ),
        (true, false, _, true, true) => Outcome::Reject(FailureKind::IncompatibleWithDefault),
        (true, false, false, true, false) => Outcome::Emit(DirectiveSet::UnwrapOrSkip),
        (true, false, true, false, _) => Outcome::Emit(DirectiveSet::Direct),
        (true, false, true, true, false) => Outcome::Emit(DirectiveSet::DoubleOption),
    }
}

/// Determines whether the field has an annotation in `namespace` with the
/// directive `name`.
///
/// In `#[serde(default = "example")]`, `serde` is the namespace and `default`
/// the name. A directive counts by its presence, wherever it stands in the
/// annotation and whatever its value. Only the first annotation in the
/// namespace counts.
pub fn field_has_attribute(field: &Field, namespace: &str, name: &str) -> (found: bool)
    ensures
        found == has_attribute(field.attrs@, namespace@, name@),
{
    let mut at: usize = 0;
    while at < field.attrs.len()
        invariant
            at <= field.attrs@.len(),
            forall|before: int|
                0 <= before < at ==> !(#[trigger] field.attrs@[before]).spec_in_namespace(
                    namespace@,
                ),
        decreases field.attrs@.len() - at,
    {
        if field.attrs[at].in_namespace(namespace) {
            let found = field.attrs[at].has_directive(name);
            proof {
                assert(is_first_in_namespace(field.attrs@, namespace@, at as int));
                assert forall|other: int| #[trigger]
                    is_first_in_namespace(field.attrs@, namespace@, other) implies other == at by {}
            }
            return found;
        }
        at += 1;
    }
    false
}

/// What a scan finds in a list that starts with `first`: the answer of
/// `first` where it is in the namespace, and otherwise what the scan finds in
/// the rest.
proof fn lemma_scan_from_the_front(
    first: Annotation,
    rest: Seq<Annotation>,
    namespace: Seq<char>,
    name: Seq<char>,
)
    ensures
        has_attribute(seq![first] + rest, namespace, name) == if first.spec_in_namespace(
            namespace,
        ) {
            first.spec_has_directive(name)
        } else {
            has_attribute(rest, namespace, name)
        },
{
    let all = seq![first] + rest;
    if first.spec_in_namespace(namespace) {
        assert(is_first_in_namespace(all, namespace, 0));
        assert forall|at: int| #[trigger] is_first_in_namespace(all, namespace, at) implies at
            == 0 by {}
    } else {
        if has_attribute(rest, namespace, name) {
            let at = choose|at: int| #[trigger]
                is_first_in_namespace(rest, namespace, at) && rest[at].spec_has_directive(name);
            assert forall|before: int| 0 <= before < at + 1 implies !(
            #[trigger] all[before]).spec_in_namespace(namespace) by {}
            assert(is_first_in_namespace(all, namespace, at + 1));
        }
        if has_attribute(all, namespace, name) {
            let at = choose|at: int| #[trigger]
                is_first_in_namespace(all, namespace, at) && all[at].spec_has_directive(name);
            assert forall|before: int| 0 <= before < at - 1 implies !(
            #[trigger] rest[before]).spec_in_namespace(namespace) by {
                assert(all[before + 1] == rest[before]);
            }
            assert(is_first_in_namespace(rest, namespace, at - 1));
        }
    }
}

/// A scan for a directive finds the same with the markers on the list and
/// without them, in every namespace but those of the markers' own names.
pub proof fn scan_does_not_see_markers(
    attrs: Seq<Annotation>,
    namespace: Seq<char>,
    name: Seq<char>,
)
    requires
        namespace != Marker::Nullable.spec_name(),
        namespace != Marker::NotRequired.spec_name(),
    ensures
        has_attribute(without_markers(attrs), namespace, name) == has_attribute(
            attrs,
            namespace,
            name,
        ),
    decreases attrs.len(),
{
    let keep = |annotation: Annotation| is_no_marker(annotation);
    if attrs.len() == 0 {
        reveal(Seq::filter);
    } else {
        let first = attrs.first();
        let rest = attrs.drop_first();
        assert(attrs =~= seq![first] + rest);
        rest.lemma_filter_prepend(first, keep);
        scan_does_not_see_markers(rest, namespace, name);
        lemma_scan_from_the_front(first, rest, namespace, name);
        if keep(first) {
            lemma_scan_from_the_front(first, rest.filter(keep), namespace, name);
        }
    }
}

/// The serde directives `skip` and `default` are found on a list without its
/// markers exactly where they are found on the list with them.
pub proof fn flags_do_not_see_markers(attrs: Seq<Annotation>)
    ensures
        has_skip(without_markers(attrs)) == has_skip(attrs),
        has_default(without_markers(attrs)) == has_default(attrs),
{
    reveal_strlit("serde");
    reveal_strlit("nullable");
    reveal_strlit("not_required");
    assert("serde"@ != "nullable"@) by {
        assert("serde"@.len() != "nullable"@.len());
    }
    assert("serde"@ != "not_required"@) by {
        assert("serde"@.len() != "not_required"@.len());
    }
    scan_does_not_see_markers(attrs, "serde"@, "skip"@);
    scan_does_not_see_markers(attrs, "serde"@, "default"@);
}

/// Takes the two markers off the list and says which of them were there.
fn take_markers(attrs: &mut Vec<Annotation>) -> (found: (bool, bool))
    ensures
        final(attrs)@ == without_markers(old(attrs)@),
        found.0 == carries_marker(old(attrs)@, Marker::Nullable),
        found.1 == carries_marker(old(attrs)@, Marker::NotRequired),
{
    let ghost before = attrs@;
    let ghost keep = |annotation: Annotation| is_no_marker(annotation);
    let ghost mut seen: int = 0;
    let mut nullable = false;
    let mut not_required = false;
    let mut at: usize = 0;
    proof {
        reveal(Seq::filter);
        assert(before.take(0).filter(keep) =~= attrs@.take(0));
        assert(before.skip(0) =~= attrs@.skip(0));
    }
    while at < attrs.len()
        invariant
            keep == |annotation: Annotation| is_no_marker(annotation),
            0 <= seen <= before.len(),
            at <= attrs@.len(),
            attrs@.take(at as int) == before.take(seen).filter(keep),
            attrs@.skip(at as int) == before.skip(seen),
            nullable == carries_marker(before.take(seen), Marker::Nullable),
            not_required == carries_marker(before.take(seen), Marker::NotRequired),
        decreases attrs@.len() - at,
    {
        let is_nullable = attrs[at].is_marker(Marker::Nullable);
        let is_not_required = attrs[at].is_marker(Marker::NotRequired);
        proof {
            let current = attrs@[at as int];
            assert(attrs@.skip(at as int).len() == attrs@.len() - at);
            assert(before.skip(seen).len() == before.len() - seen);
            assert(current == attrs@.skip(at as int)[0]);
            assert(current == before.skip(seen)[0]);
            assert(current == before[seen]);
            let longer = before.take(seen + 1);
            assert(longer =~= before.take(seen).push(current));
            before.take(seen).lemma_filter_push(current, keep);
            assert(longer[seen] == current);
            assert forall|marker: Marker|
                carries_marker(longer, marker) == (carries_marker(before.take(seen), marker)
                    || current.spec_is_marker(marker)) by {
                if carries_marker(before.take(seen), marker) {
                    let w = choose|w: int|
                        0 <= w < before.take(seen).len() && (#[trigger] before.take(
                            seen,
                        )[w]).spec_is_marker(marker);
                    assert(longer[w].spec_is_marker(marker));
                }
                if carries_marker(longer, marker) {
                    let w = choose|w: int|
                        0 <= w < longer.len() && (#[trigger] longer[w]).spec_is_marker(marker);
                    if w < seen {
                        assert(before.take(seen)[w].spec_is_marker(marker));
                    }
                }
            }
        }
        if is_nullable || is_not_required {
            nullable = nullable || is_nullable;
            not_required = not_required || is_not_required;
            let ghost shorter = attrs@;
            attrs.remove(at);
            proof {
                assert(attrs@.take(at as int) =~= shorter.take(at as int));
                assert(attrs@.skip(at as int) =~= shorter.skip(at as int).skip(1));
                assert(before.skip(seen + 1) =~= before.skip(seen).skip(1));
            }
        } else {
            proof {
                assert(attrs@.take(at + 1) =~= attrs@.take(at as int).push(attrs@[at as int]));
                assert(attrs@.skip(at + 1) =~= attrs@.skip(at as int).skip(1));
                assert(before.skip(seen + 1) =~= before.skip(seen).skip(1));
            }
            at += 1;
        }
        proof {
            seen = seen + 1;
        }
    }
    proof {
        assert(attrs@.skip(at as int).len() == 0);
        assert(before.skip(seen).len() == 0);
        assert(before.take(seen) =~= before);
        assert(attrs@.take(at as int) =~= attrs@);
    }
    (nullable, not_required)
}

/// Writes the bundles of a directive set behind the annotations of the list.
fn emit(attrs: &mut Vec<Annotation>, set: DirectiveSet, schema: bool)
    ensures
        final(attrs)@ == old(attrs)@ + bundles(set, schema).map_values(
            |bundle: Bundle| Annotation::Emitted(bundle),
        ),
{
    attrs.push(Annotation::Emitted(Bundle::Serde(set)));
    if schema {
        match set {
            DirectiveSet::UnwrapOrSkip => attrs.push(Annotation::Emitted(Bundle::SchemaNotNullable)),
            DirectiveSet::Direct => attrs.push(Annotation::Emitted(Bundle::SchemaRequired)),
            DirectiveSet::DoubleOption => {},
        }
    }
}

/// Applies the markers `nullable` and `not_required` of one field.
///
/// The markers are taken off the field, whatever comes of it. Where one of
/// them offends, the field is refused, with one failure at the field's
/// position for each offending marker. Where none does, the bundles of the
/// directive set for the markers are written behind the annotations that
/// stay; `schema` says whether the schema hints are written too. A field
/// without a marker stays as it is.
pub fn process_optional_field(field: &mut Field, schema: bool) -> (result: Result<
    (),
    AggregateFailure,
>)
    ensures
        final(field)@ == rewritten_field(old(field)@, schema),
        result is Ok <==> field_failures(old(field)@).len() == 0,
        result matches Err(aggregate) ==> aggregate@ == field_failures(old(field)@),
{
    let (nullable, not_required) = take_markers(&mut field.attrs);
    let matched = get_std_option(&field.ty).is_some();
    let skip = field_has_attribute(field, "serde", "skip");
    let default = field_has_attribute(field, "serde", "default");
    let flags = Flags { skip, nullable, not_required, default };
    proof {
        flags_do_not_see_markers(old(field).attrs@);
    }
    match decide(matched, flags) {
        Outcome::Untouched => Ok(()),
        Outcome::Emit(set) => {
            emit(&mut field.attrs, set, schema);
            Ok(())
        },
        Outcome::Reject(kind) => Err(AggregateFailure::new(field.position, kind)),
        Outcome::RejectBoth(first, second) => Err(
            AggregateFailure::new(field.position, first).combine(
                AggregateFailure::new(field.position, second),
            ),
        ),
    }
}

} // verus!
