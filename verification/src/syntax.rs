//! The syntax the engine reads: paths, types, annotations, fields and
//! declarations, as a parser hands them over.

use vstd::prelude::*;

verus! {

/// A place in the source text. The engine never looks inside a position: it
/// copies the position of an offending field into the failure it reports, and
/// leaves the position of an annotation that stays on the annotation.
#[derive(Clone, Copy, Debug, PartialEq, Eq)]
pub enum Position {
    /// The place where the transformation was invoked.
    CallSite,
    /// A place that whoever read the source gave this number.
    Source(u64),
}

/// The arguments that one segment of a path carries.
#[derive(Debug, PartialEq, Eq)]
pub enum PathArguments {
    /// No arguments: `Option`.
    Absent,
    /// Arguments in angle brackets: `Option<T>`.
    AngleBracketed(Vec<GenericArgument>),
    /// Arguments in round brackets, as written: `Fn(u8) -> bool`.
    Parenthesized(String),
}

/// One argument between angle brackets.
#[derive(Debug, PartialEq, Eq)]
pub enum GenericArgument {
    /// A type: the `T` of `Option<T>`.
    Type(Type),
    /// Anything else, as written: a lifetime, a constant, a binding.
    Other(String),
}

/// One segment of a path: an identifier and its arguments.
#[derive(Debug, PartialEq, Eq)]
pub struct PathSegment {
    pub ident: String,
    pub arguments: PathArguments,
}

/// A path: `Option`, `std::option::Option<T>`, `::core::fmt`.
#[derive(Debug, PartialEq, Eq)]
pub struct Path {
    /// Whether the path starts with `::`.
    pub leading_colon: bool,
    pub segments: Vec<PathSegment>,
}

/// A path in type position, with the qualified self type in front of it, if
/// there is one: `<T as Trait>::Name`.
#[derive(Debug, PartialEq, Eq)]
pub struct TypePath {
    pub qself: Option<Box<Type>>,
    pub path: Path,
}

/// The declared type of a field, as far as the engine tells types apart.
#[derive(Debug, PartialEq, Eq)]
pub enum Type {
    /// A type in an invisible group.
    Group(Box<Type>),
    /// A type in round brackets: `(T)`.
    Paren(Box<Type>),
    /// A path: `Option<T>`.
    Path(TypePath),
    /// Any other type, as written: `&str`, `[u8; 4]`, `(A, B)`.
    Other(String),
}

/// One of the two markers that an author may put on a field.
#[derive(Clone, Copy, Debug, PartialEq, Eq)]
pub enum Marker {
    /// `#[nullable]`: the field's value may be null.
    Nullable,
    /// `#[not_required]`: the field may be missing.
    NotRequired,
}

/// The directives that stand for the markers of one field.
#[derive(Clone, Copy, Debug, PartialEq, Eq)]
pub enum DirectiveSet {
    /// For `not_required` alone: take the default when the field is missing,
    /// leave the field out when it holds no value, and encode it through the
    /// adapter that unwraps or skips.
    UnwrapOrSkip,
    /// For `nullable` alone: encode the field as an optional value. The field
    /// is never left out and has no default.
    Direct,
    /// For both markers: take the default when the field is missing, leave the
    /// field out when the outer value is absent, and encode it through the
    /// adapter for an optional value inside an optional value.
    DoubleOption,
}

/// An annotation that the engine writes: one fixed bundle of directives.
#[derive(Clone, Copy, Debug, PartialEq, Eq)]
pub enum Bundle {
    /// The serde directives of a directive set.
    Serde(DirectiveSet),
    /// The schema hint that the field's value is never null.
    SchemaNotNullable,
    /// The schema hint that the field is always present.
    SchemaRequired,
}

/// One annotation on a field.
#[derive(Debug, PartialEq, Eq)]
pub enum Annotation {
    /// An annotation that the author wrote: `#[serde(skip)]`, `#[nullable]`.
    Written {
        /// The path in front: `serde`.
        path: Path,
        /// The paths of all the directives between its round brackets, in
        /// order, each with or without a value or arguments of its own:
        /// `rename` and `skip` in `#[serde(rename = "a", skip)]`. Empty where
        /// the annotation has no round brackets.
        nested: Vec<Path>,
        /// Where it was written.
        position: Position,
    },
    /// An annotation that the engine wrote in place of the markers.
    Emitted(Bundle),
}

/// One field of a record or of a variant.
#[derive(Debug, PartialEq, Eq)]
pub struct Field {
    pub attrs: Vec<Annotation>,
    pub ty: Type,
    pub position: Position,
}

/// The fields of a record or of a variant.
#[derive(Debug, PartialEq, Eq)]
pub enum Fields {
    /// No fields at all: `struct Marker;`.
    Unit,
    /// Fields with names: `{ a: A, b: B }`.
    Named(Vec<Field>),
    /// Fields without names: `(A, B)`.
    Unnamed(Vec<Field>),
}

/// One variant of a tagged union.
#[derive(Debug, PartialEq, Eq)]
pub struct Variant {
    pub fields: Fields,
}

/// What the transformation is handed.
#[derive(Debug, PartialEq, Eq)]
pub enum Item {
    /// A record: a `struct`.
    Struct(Fields),
    /// A tagged union: an `enum`.
    Enum(Vec<Variant>),
    /// Anything else: a function, a type alias, a module.
    Other,
}

/// A field as the contracts see it: its annotations as a sequence.
pub struct FieldView {
    pub attrs: Seq<Annotation>,
    pub ty: Type,
    pub position: Position,
}

/// The fields of a record or of a variant as the contracts see them.
pub enum FieldsView {
    Unit,
    Named(Seq<FieldView>),
    Unnamed(Seq<FieldView>),
}

/// A variant as the contracts see it.
pub struct VariantView {
    pub fields: FieldsView,
}

/// A declaration as the contracts see it.
pub enum ItemView {
    Struct(FieldsView),
    Enum(Seq<VariantView>),
    Other,
}

impl View for Field {
    type V = FieldView;

    open spec fn view(&self) -> FieldView {
        FieldView { attrs: self.attrs@, ty: self.ty, position: self.position }
    }
}

impl View for Fields {
    type V = FieldsView;

    open spec fn view(&self) -> FieldsView {
        match self {
            Fields::Unit => FieldsView::Unit,
            Fields::Named(list) => FieldsView::Named(field_views(list@)),
            Fields::Unnamed(list) => FieldsView::Unnamed(field_views(list@)),
        }
    }
}

impl View for Variant {
    type V = VariantView;

    open spec fn view(&self) -> VariantView {
        VariantView { fields: self.fields@ }
    }
}

impl View for Item {
    type V = ItemView;

    open spec fn view(&self) -> ItemView {
        match self {
            Item::Struct(fields) => ItemView::Struct(fields@),
            Item::Enum(variants) => ItemView::Enum(variant_views(variants@)),
            Item::Other => ItemView::Other,
        }
    }
}

/// The views of the fields of a list.
pub open spec fn field_views(list: Seq<Field>) -> Seq<FieldView> {
    list.map_values(|field: Field| field@)
}

/// The views of the variants of a list.
pub open spec fn variant_views(list: Seq<Variant>) -> Seq<VariantView> {
    list.map_values(|variant: Variant| variant@)
}

impl FieldsView {
    /// The fields in declared order; none for the unit form.
    pub open spec fn list(self) -> Seq<FieldView> {
        match self {
            FieldsView::Unit => Seq::empty(),
            FieldsView::Named(list) => list,
            FieldsView::Unnamed(list) => list,
        }
    }
}

impl Path {
    /// The identifiers of the segments, in order.
    pub open spec fn idents(&self) -> Seq<Seq<char>> {
        self.segments@.map_values(|segment: PathSegment| segment.ident@)
    }

    /// Whether the path is the single identifier `name`: no leading `::`, one
    /// segment, no arguments.
    pub open spec fn spec_is_ident(&self, name: Seq<char>) -> bool {
        &&& !self.leading_colon
        &&& self.segments@.len() == 1
        &&& self.segments@[0].arguments is Absent
        &&& self.segments@[0].ident@ == name
    }

    /// Whether the path is the single identifier `name`.
    pub fn is_ident(&self, name: &str) -> (r: bool)
        ensures
            r == self.spec_is_ident(name@),
    {
        if self.leading_colon || self.segments.len() != 1 {
            return false;
        }
        match &self.segments[0].arguments {
            PathArguments::Absent => same_str(self.segments[0].ident.as_str(), name),
            _ => false,
        }
    }
}

impl Marker {
    /// The marker's name as the author writes it.
    pub open spec fn spec_name(&self) -> Seq<char> {
        match self {
            Marker::Nullable => "nullable"@,
            Marker::NotRequired => "not_required"@,
        }
    }

    /// The marker's name as the author writes it.
    pub fn name(&self) -> (text: &'static str)
        ensures
            text@ == self.spec_name(),
    {
        match self {
            Marker::Nullable => "nullable",
            Marker::NotRequired => "not_required",
        }
    }
}

impl Bundle {
    /// The bundle as it is written on the field.
    pub open spec fn spec_text(&self) -> Seq<char> {
        match self {
            Bundle::Serde(DirectiveSet::UnwrapOrSkip) =>
                "#[serde(default, skip_serializing_if = \"Option::is_none\", with = \"serde_with::rust::unwrap_or_skip\")]"@,
            Bundle::Serde(DirectiveSet::Direct) => "#[serde(with = \"Option\")]"@,
            Bundle::Serde(DirectiveSet::DoubleOption) =>
                "#[serde(default, skip_serializing_if = \"Option::is_none\", with = \"serde_with::rust::double_option\")]"@,
            Bundle::SchemaNotNullable => "#[schema(nullable = false)]"@,
            Bundle::SchemaRequired => "#[schema(required = true)]"@,
        }
    }

    /// The bundle as it is written on the field.
    pub fn text(&self) -> (text: &'static str)
        ensures
            text@ == self.spec_text(),
    {
        match self {
            Bundle::Serde(DirectiveSet::UnwrapOrSkip) =>
                "#[serde(default, skip_serializing_if = \"Option::is_none\", with = \"serde_with::rust::unwrap_or_skip\")]",
            Bundle::Serde(DirectiveSet::Direct) => "#[serde(with = \"Option\")]",
            Bundle::Serde(DirectiveSet::DoubleOption) =>
                "#[serde(default, skip_serializing_if = \"Option::is_none\", with = \"serde_with::rust::double_option\")]",
            Bundle::SchemaNotNullable => "#[schema(nullable = false)]",
            Bundle::SchemaRequired => "#[schema(required = true)]",
        }
    }

    /// The namespace that the bundle is written in.
    pub open spec fn spec_namespace(&self) -> Seq<char> {
        match self {
            Bundle::Serde(_) => "serde"@,
            Bundle::SchemaNotNullable => "schema"@,
            Bundle::SchemaRequired => "schema"@,
        }
    }

    /// The namespace that the bundle is written in.
    pub fn namespace(&self) -> (text: &'static str)
        ensures
            text@ == self.spec_namespace(),
    {
        match self {
            Bundle::Serde(_) => "serde",
            Bundle::SchemaNotNullable => "schema",
            Bundle::SchemaRequired => "schema",
        }
    }

    /// Whether the bundle names the directive `name`, at any place between
    /// its round brackets and with or without a value: `with` in the direct
    /// set, `default`, `skip_serializing_if` and `with` in the other two
    /// sets, `nullable` and `required` in the schema hints.
    pub open spec fn spec_has_directive(&self, name: Seq<char>) -> bool {
        match self {
            Bundle::Serde(DirectiveSet::Direct) => name == "with"@,
            Bundle::Serde(_) => {
                ||| name == "default"@
                ||| name == "skip_serializing_if"@
                ||| name == "with"@
            },
            Bundle::SchemaNotNullable => name == "nullable"@,
            Bundle::SchemaRequired => name == "required"@,
        }
    }

    /// Whether the bundle names the directive `name`.
    pub fn has_directive(&self, name: &str) -> (r: bool)
        ensures
            r == self.spec_has_directive(name@),
    {
        match self {
            Bundle::Serde(DirectiveSet::Direct) => same_str(name, "with"),
            Bundle::Serde(_) => same_str(name, "default") || same_str(name, "skip_serializing_if")
                || same_str(name, "with"),
            Bundle::SchemaNotNullable => same_str(name, "nullable"),
            Bundle::SchemaRequired => same_str(name, "required"),
        }
    }
}

impl Annotation {
    /// Whether the annotation belongs to `namespace`: whether its path is
    /// that one identifier.
    pub open spec fn spec_in_namespace(&self, namespace: Seq<char>) -> bool {
        match self {
            Annotation::Written { path, .. } => path.spec_is_ident(namespace),
            Annotation::Emitted(bundle) => bundle.spec_namespace() == namespace,
        }
    }

    /// Whether the annotation belongs to `namespace`.
    pub fn in_namespace(&self, namespace: &str) -> (r: bool)
        ensures
            r == self.spec_in_namespace(namespace@),
    {
        match self {
            Annotation::Written { path, .. } => path.is_ident(namespace),
            Annotation::Emitted(bundle) => same_str(bundle.namespace(), namespace),
        }
    }

    /// Whether the annotation names the directive `name`: whether one of the
    /// directives between its round brackets, at any place and with or
    /// without a value, is that one identifier.
    pub open spec fn spec_has_directive(&self, name: Seq<char>) -> bool {
        match self {
            Annotation::Written { nested, .. } => exists|i: int|
                0 <= i < nested@.len() && (#[trigger] nested@[i]).spec_is_ident(name),
            Annotation::Emitted(bundle) => bundle.spec_has_directive(name),
        }
    }

    /// Whether the annotation names the directive `name`.
    pub fn has_directive(&self, name: &str) -> (r: bool)
        ensures
            r == self.spec_has_directive(name@),
    {
        match self {
            Annotation::Written { nested, .. } => {
                let mut at: usize = 0;
                while at < nested.len()
                    invariant
                        self is Written,
                        self->nested == *nested,
                        at <= nested@.len(),
                        forall|i: int| 0 <= i < at ==> !(#[trigger] nested@[i]).spec_is_ident(name@),
                    decreases nested@.len() - at,
                {
                    if nested[at].is_ident(name) {
                        return true;
                    }
                    at += 1;
                }
                false
            },
            Annotation::Emitted(bundle) => bundle.has_directive(name),
        }
    }

    /// Whether the annotation is the marker `marker`, as an author writes it.
    pub open spec fn spec_is_marker(&self, marker: Marker) -> bool {
        self matches Annotation::Written { path, .. } && path.spec_is_ident(marker.spec_name())
    }

    /// Whether the annotation is the marker `marker`.
    pub fn is_marker(&self, marker: Marker) -> (r: bool)
        ensures
            r == self.spec_is_marker(marker),
    {
        match self {
            Annotation::Written { path, .. } => path.is_ident(marker.name()),
            Annotation::Emitted(_) => false,
        }
    }
}

/// Whether two texts read the same.
pub fn same_str(left: &str, right: &str) -> (r: bool)
    ensures
        r == (left@ == right@),
{
    let left = left.to_owned();
    let right = right.to_owned();
    left == right
}

} // verus!
