//! Validation failures, and how the failures of many fields become one.

use vstd::prelude::*;
use crate::syntax::{Marker, Position};

verus! {

/// Why a declaration is refused.
#[derive(Clone, Copy, Debug, PartialEq, Eq)]
pub enum FailureKind {
    /// The declaration is neither a record nor a tagged union.
    UnsupportedItemKind,
    /// The marker stands on a field whose type does not read `Option<T>`.
    InvalidMarkerTarget(Marker),
    /// The marker stands on a field that serde is told to skip.
    IncompatibleWithSkip(Marker),
    /// `not_required` stands on a field that already has a serde default.
    IncompatibleWithDefault,
}

/// One failure: what is wrong, and where.
#[derive(Clone, Copy, Debug, PartialEq, Eq)]
pub struct ValidationFailure {
    pub position: Position,
    pub kind: FailureKind,
}

impl FailureKind {
    /// The message that the author reads.
    pub open spec fn spec_message(&self) -> Seq<char> {
        match self {
            FailureKind::UnsupportedItemKind =>
                "The attribute can only be applied to struct or enum definitions."@,
            FailureKind::InvalidMarkerTarget(Marker::Nullable) =>
                "`#[nullable]` may only be used on fields of type `Option<T>`."@,
            FailureKind::InvalidMarkerTarget(Marker::NotRequired) =>
                "`#[not_required]` may only be used on fields of type `Option<T>`."@,
            FailureKind::IncompatibleWithSkip(Marker::Nullable) =>
                "`#[nullable]` cannot be used in combination with `#[serde(skip)]`"@,
            FailureKind::IncompatibleWithSkip(Marker::NotRequired) =>
                "`#[not_required]` cannot be used in combination with `#[serde(skip)]`"@,
            FailureKind::IncompatibleWithDefault =>
                "`#[not_required]` cannot be used in combination with `#[serde(default)]`"@,
        }
    }

    /// The message that the author reads.
    pub fn message(&self) -> (text: &'static str)
        ensures
            text@ == self.spec_message(),
    {
        match self {
            FailureKind::UnsupportedItemKind =>
                "The attribute can only be applied to struct or enum definitions.",
            FailureKind::InvalidMarkerTarget(Marker::Nullable) =>
                "`#[nullable]` may only be used on fields of type `Option<T>`.",
            FailureKind::InvalidMarkerTarget(Marker::NotRequired) =>
                "`#[not_required]` may only be used on fields of type `Option<T>`.",
            FailureKind::IncompatibleWithSkip(Marker::Nullable) =>
                "`#[nullable]` cannot be used in combination with `#[serde(skip)]`",
            FailureKind::IncompatibleWithSkip(Marker::NotRequired) =>
                "`#[not_required]` cannot be used in combination with `#[serde(skip)]`",
            FailureKind::IncompatibleWithDefault =>
                "`#[not_required]` cannot be used in combination with `#[serde(default)]`",
        }
    }
}

impl ValidationFailure {
    /// The message that the author reads.
    pub fn message(&self) -> (text: &'static str)
        ensures
            text@ == self.kind.spec_message(),
    {
        self.kind.message()
    }
}

/// One failure as the author reads it: a message at a position.
#[derive(Debug, PartialEq, Eq)]
pub struct CompileError {
    pub position: Position,
    pub message: String,
}

impl View for CompileError {
    type V = (Position, Seq<char>);

    open spec fn view(&self) -> (Position, Seq<char>) {
        (self.position, self.message@)
    }
}

/// The failures as the author reads them: for each its position and its
/// message, in the same order.
pub open spec fn rendered(failures: Seq<ValidationFailure>) -> Seq<(Position, Seq<char>)> {
    failures.map_values(
        |failure: ValidationFailure| (failure.position, failure.kind.spec_message()),
    )
}

/// Every failure found in one declaration, in the order in which the fields
/// were visited. It is never empty.
#[derive(Debug, PartialEq, Eq)]
pub struct AggregateFailure {
    failures: Vec<ValidationFailure>,
}

impl View for AggregateFailure {
    type V = Seq<ValidationFailure>;

    closed spec fn view(&self) -> Seq<ValidationFailure> {
        self.failures@
    }
}

impl AggregateFailure {
    #[verifier::type_invariant]
    closed spec fn holds_a_failure(&self) -> bool {
        self.failures@.len() > 0
    }

    /// The aggregate of one failure.
    pub fn new(position: Position, kind: FailureKind) -> (aggregate: AggregateFailure)
        ensures
            aggregate@ == seq![(ValidationFailure { position, kind })],
    {
        let mut failures = Vec::new();
        failures.push(ValidationFailure { position, kind });
        AggregateFailure { failures }
    }

    /// The failures held, followed by those of `other`.
    pub fn combine(self, other: AggregateFailure) -> (aggregate: AggregateFailure)
        ensures
            aggregate@ == self@ + other@,
    {
        proof {
            use_type_invariant(&self);
        }
        let AggregateFailure { failures: mut all } = self;
        let AggregateFailure { failures: mut more } = other;
        all.append(&mut more);
        AggregateFailure { failures: all }
    }

    /// The failures held, in order: at least one.
    pub fn failures(&self) -> (list: &Vec<ValidationFailure>)
        ensures
            list@ == self@,
            list@.len() > 0,
    {
        proof {
            use_type_invariant(self);
        }
        &self.failures
    }

    /// The failures as compile errors: one message for each failure, at the
    /// failure's position, in the same order.
    pub fn to_compile_error(&self) -> (errors: Vec<CompileError>)
        ensures
            errors@.map_values(|error: CompileError| error@) == rendered(self@),
            errors@.len() > 0,
    {
        proof {
            use_type_invariant(self);
        }
        let mut errors: Vec<CompileError> = Vec::new();
        let mut at: usize = 0;
        while at < self.failures.len()
            invariant
                at <= self.failures@.len(),
                errors@.len() == at,
                forall|i: int|
                    0 <= i < at ==> (#[trigger] errors@[i])@ == (
                        self.failures@[i].position,
                        self.failures@[i].kind.spec_message(),
                    ),
            decreases self.failures@.len() - at,
        {
            let failure = &self.failures[at];
            errors.push(
                CompileError { position: failure.position, message: failure.message().to_owned() },
            );
            at += 1;
        }
        errors
    }

    /// How many failures are held: at least one.
    pub fn len(&self) -> (count: usize)
        ensures
            count == self@.len(),
            count > 0,
    {
        proof {
            use_type_invariant(self);
        }
        self.failures.len()
    }
}

/// The failures of one result: none for `Ok`.
pub open spec fn failures_in(result: Result<(), AggregateFailure>) -> Seq<ValidationFailure> {
    match result {
        Ok(()) => Seq::empty(),
        Err(aggregate) => aggregate@,
    }
}

/// The failures of a list of results, one result after the other.
pub open spec fn merged(results: Seq<Result<(), AggregateFailure>>) -> Seq<ValidationFailure> {
    results.map_values(|result: Result<(), AggregateFailure>| failures_in(result)).flatten()
}

/// Merges the results of many steps into one: `Ok` when every step
/// succeeded, and otherwise the failures of all the steps that failed, in the
/// order of the steps.
pub fn merge_errors(results: Vec<Result<(), AggregateFailure>>) -> (merged_result: Result<
    (),
    AggregateFailure,
>)
    ensures
        merged_result is Ok <==> forall|i: int|
            0 <= i < results@.len() ==> (#[trigger] results@[i]) is Ok,
        merged_result is Ok <==> merged(results@).len() == 0,
        merged_result matches Err(aggregate) ==> aggregate@ == merged(results@),
{
    let ghost all = results@;
    let ghost part = |result: Result<(), AggregateFailure>| failures_in(result);
    let mut accu: Result<(), AggregateFailure> = Ok(());
    for entry in iter: results
        invariant
            iter.seq() == all,
            part == |result: Result<(), AggregateFailure>| failures_in(result),
            accu is Ok <==> forall|i: int| 0 <= i < iter.index() ==> (#[trigger] all[i]) is Ok,
            accu is Ok <==> merged(all.take(iter.index() as int)).len() == 0,
            accu matches Err(aggregate) ==> aggregate@ == merged(all.take(iter.index() as int)),
    {
        proof {
            let done = all.take(iter.index() as int);
            assert(all.take(iter.index() + 1) =~= done.push(entry));
            assert(done.push(entry).map_values(part) =~= done.map_values(part).push(part(entry)));
            done.map_values(part).lemma_flatten_push(part(entry));
            if let Err(aggregate) = &entry {
                use_type_invariant(aggregate);
            }
        }
        accu = match (accu, entry) {
            (Ok(()), entry) => entry,
            (accu, Ok(())) => accu,
            (Err(aggregate), Err(more)) => Err(aggregate.combine(more)),
        };
    }
    proof {
        assert(all.take(all.len() as int) =~= all);
    }
    accu
}

} // verus!
