use serde_option::failure::{CompileError, FailureKind, ValidationFailure};
use serde_option::syntax::{
    Annotation, Bundle, DirectiveSet, Field, Fields, GenericArgument, Item, Marker, Path,
    PathArguments, PathSegment, Position, Type, TypePath, Variant,
};
use serde_option::walker::{
    process_fields, process_items, schema_requested, serde_option, Expansion,
};

fn ident(name: &str) -> Path {
    Path {
        leading_colon: false,
        segments: vec![PathSegment { ident: name.to_string(), arguments: PathArguments::Absent }],
    }
}

fn named(name: &str) -> Type {
    Type::Path(TypePath { qself: None, path: ident(name) })
}

fn option_of(ty: Type) -> Type {
    Type::Path(TypePath {
        qself: None,
        path: Path {
            leading_colon: false,
            segments: vec![PathSegment {
                ident: "Option".to_string(),
                arguments: PathArguments::AngleBracketed(vec![GenericArgument::Type(ty)]),
            }],
        },
    })
}

fn word(name: &str, at: u64) -> Annotation {
    Annotation::Written { path: ident(name), nested: vec![], position: Position::Source(at) }
}

fn list(name: &str, nested: &[&str], at: u64) -> Annotation {
    Annotation::Written {
        path: ident(name),
        nested: nested.iter().map(|name| ident(name)).collect(),
        position: Position::Source(at),
    }
}

fn field(at: u64, attrs: Vec<Annotation>, ty: Type) -> Field {
    Field { attrs, ty, position: Position::Source(at) }
}

fn failure(at: u64, kind: FailureKind) -> ValidationFailure {
    ValidationFailure { position: Position::Source(at), kind }
}

fn serde(set: DirectiveSet) -> Annotation {
    Annotation::Emitted(Bundle::Serde(set))
}

fn u64_option() -> Type {
    option_of(named("u64"))
}

#[test]
fn the_unit_form_is_accepted() {
    let mut fields = Fields::Unit;
    assert!(process_fields(&mut fields, false).is_ok());
    assert_eq!(fields, Fields::Unit);
    assert_eq!(process_items(Item::Struct(Fields::Unit), true), Ok(Item::Struct(Fields::Unit)));
}

#[test]
fn records_without_fields_are_accepted() {
    assert_eq!(
        process_items(Item::Struct(Fields::Named(vec![])), false),
        Ok(Item::Struct(Fields::Named(vec![])))
    );
    assert_eq!(
        process_items(Item::Struct(Fields::Unnamed(vec![])), false),
        Ok(Item::Struct(Fields::Unnamed(vec![])))
    );
    assert_eq!(process_items(Item::Enum(vec![]), false), Ok(Item::Enum(vec![])));
}

#[test]
fn every_field_of_a_record_is_rewritten() {
    let mut fields = Fields::Named(vec![
        field(0, vec![word("nullable", 0)], u64_option()),
        field(1, vec![word("doc", 0)], named("u64")),
        field(2, vec![word("not_required", 0)], u64_option()),
    ]);
    assert!(process_fields(&mut fields, false).is_ok());
    assert_eq!(
        fields,
        Fields::Named(vec![
            field(0, vec![serde(DirectiveSet::Direct)], u64_option()),
            field(1, vec![word("doc", 0)], named("u64")),
            field(2, vec![serde(DirectiveSet::UnwrapOrSkip)], u64_option()),
        ])
    );
}

#[test]
fn fields_without_names_are_rewritten_too() {
    let mut fields = Fields::Unnamed(vec![
        field(0, vec![word("nullable", 0), word("not_required", 1)], option_of(u64_option())),
        field(1, vec![], named("String")),
    ]);
    assert!(process_fields(&mut fields, true).is_ok());
    assert_eq!(
        fields,
        Fields::Unnamed(vec![
            field(0, vec![serde(DirectiveSet::DoubleOption)], option_of(u64_option())),
            field(1, vec![], named("String")),
        ])
    );
}

#[test]
fn the_failures_of_all_fields_come_back_in_one() {
    let mut fields = Fields::Named(vec![
        field(10, vec![word("nullable", 0)], named("u64")),
        field(11, vec![word("nullable", 0)], u64_option()),
        field(12, vec![word("not_required", 0), list("serde", &["default"], 1)], u64_option()),
        field(13, vec![word("not_required", 0), word("nullable", 1)], named("String")),
        field(14, vec![list("serde", &["skip"], 0), word("nullable", 1)], u64_option()),
    ]);
    let failures = process_fields(&mut fields, false).unwrap_err();
    assert_eq!(failures.len(), 5);
    assert_eq!(
        failures.failures(),
        &vec![
            failure(10, FailureKind::InvalidMarkerTarget(Marker::Nullable)),
            failure(12, FailureKind::IncompatibleWithDefault),
            failure(13, FailureKind::InvalidMarkerTarget(Marker::Nullable)),
            failure(13, FailureKind::InvalidMarkerTarget(Marker::NotRequired)),
            failure(14, FailureKind::IncompatibleWithSkip(Marker::Nullable)),
        ]
    );
    // Every field was visited: the markers are gone from all of them, and
    // the field that was in order has its directive set.
    assert_eq!(
        fields,
        Fields::Named(vec![
            field(10, vec![], named("u64")),
            field(11, vec![serde(DirectiveSet::Direct)], u64_option()),
            field(12, vec![list("serde", &["default"], 1)], u64_option()),
            field(13, vec![], named("String")),
            field(14, vec![list("serde", &["skip"], 0)], u64_option()),
        ])
    );
}

#[test]
fn a_refused_record_hands_back_no_declaration() {
    let item = Item::Struct(Fields::Named(vec![
        field(0, vec![word("nullable", 0)], u64_option()),
        field(1, vec![word("nullable", 0)], named("u64")),
    ]));
    let failures = process_items(item, false).unwrap_err();
    assert_eq!(
        failures.failures(),
        &vec![failure(1, FailureKind::InvalidMarkerTarget(Marker::Nullable))]
    );
}

#[test]
fn every_variant_of_a_tagged_union_is_walked() {
    let item = Item::Enum(vec![
        Variant { fields: Fields::Unit },
        Variant {
            fields: Fields::Named(vec![field(0, vec![word("not_required", 0)], u64_option())]),
        },
        Variant {
            fields: Fields::Unnamed(vec![
                field(1, vec![], named("u8")),
                field(2, vec![word("nullable", 0)], u64_option()),
            ]),
        },
    ]);
    assert_eq!(
        process_items(item, true),
        Ok(Item::Enum(vec![
            Variant { fields: Fields::Unit },
            Variant {
                fields: Fields::Named(vec![field(
                    0,
                    vec![
                        serde(DirectiveSet::UnwrapOrSkip),
                        Annotation::Emitted(Bundle::SchemaNotNullable)
                    ],
                    u64_option()
                )]),
            },
            Variant {
                fields: Fields::Unnamed(vec![
                    field(1, vec![], named("u8")),
                    field(
                        2,
                        vec![serde(DirectiveSet::Direct), Annotation::Emitted(Bundle::SchemaRequired)],
                        u64_option()
                    ),
                ]),
            },
        ]))
    );
}

#[test]
fn the_failures_of_a_tagged_union_follow_variants_then_fields() {
    let item = Item::Enum(vec![
        Variant {
            fields: Fields::Named(vec![
                field(0, vec![word("nullable", 0)], named("u64")),
                field(1, vec![word("not_required", 0)], named("u64")),
            ]),
        },
        Variant { fields: Fields::Unit },
        Variant { fields: Fields::Unnamed(vec![field(2, vec![word("nullable", 0)], u64_option())]) },
        Variant {
            fields: Fields::Unnamed(vec![field(
                3,
                vec![word("nullable", 0), word("not_required", 1), list("serde", &["skip"], 2)],
                u64_option(),
            )]),
        },
    ]);
    let failures = process_items(item, false).unwrap_err();
    assert_eq!(
        failures.failures(),
        &vec![
            failure(0, FailureKind::InvalidMarkerTarget(Marker::Nullable)),
            failure(1, FailureKind::InvalidMarkerTarget(Marker::NotRequired)),
            failure(3, FailureKind::IncompatibleWithSkip(Marker::Nullable)),
            failure(3, FailureKind::IncompatibleWithSkip(Marker::NotRequired)),
        ]
    );
}

#[test]
fn anything_else_is_refused_at_the_call_site() {
    for schema in [false, true] {
        let failures = process_items(Item::Other, schema).unwrap_err();
        assert_eq!(
            failures.failures(),
            &vec![ValidationFailure {
                position: Position::CallSite,
                kind: FailureKind::UnsupportedItemKind
            }]
        );
    }
}

#[test]
fn the_expansion_is_the_rewritten_declaration() {
    let item = Item::Struct(Fields::Named(vec![field(0, vec![word("nullable", 0)], u64_option())]));
    assert_eq!(
        serde_option(&vec![], item),
        Expansion::Declaration(Item::Struct(Fields::Named(vec![field(
            0,
            vec![serde(DirectiveSet::Direct)],
            u64_option()
        )])))
    );
}

#[test]
fn the_expansion_of_a_refused_declaration_is_its_compile_errors() {
    let item = Item::Struct(Fields::Named(vec![
        field(8, vec![word("nullable", 0), list("serde", &["skip"], 1)], u64_option()),
        field(9, vec![word("not_required", 0), list("serde", &["default"], 1)], u64_option()),
    ]));
    assert_eq!(
        serde_option(&vec![], item),
        Expansion::CompileErrors(vec![
            CompileError {
                position: Position::Source(8),
                message: "`#[nullable]` cannot be used in combination with `#[serde(skip)]`"
                    .to_string(),
            },
            CompileError {
                position: Position::Source(9),
                message: "`#[not_required]` cannot be used in combination with `#[serde(default)]`"
                    .to_string(),
            },
        ])
    );
    assert_eq!(
        serde_option(&vec![ident("utoipa")], Item::Other),
        Expansion::CompileErrors(vec![CompileError {
            position: Position::CallSite,
            message: "The attribute can only be applied to struct or enum definitions."
                .to_string(),
        }])
    );
}

#[test]
fn as_many_failures_as_offending_markers() {
    // Seven markers, five of them offending.
    let item = Item::Enum(vec![
        Variant {
            fields: Fields::Named(vec![
                field(0, vec![word("nullable", 0), word("not_required", 1)], named("u64")),
                field(1, vec![word("nullable", 0), word("not_required", 1)], u64_option()),
            ]),
        },
        Variant {
            fields: Fields::Unnamed(vec![
                field(
                    2,
                    vec![list("serde", &["default"], 0), word("nullable", 1), word("not_required", 2)],
                    u64_option(),
                ),
                field(
                    3,
                    vec![list("serde", &["skip"], 0), word("nullable", 1), word("not_required", 2)],
                    u64_option(),
                ),
            ]),
        },
    ]);
    let failures = process_items(item, false).unwrap_err();
    assert_eq!(failures.len(), 5);
    let positions: Vec<Position> =
        failures.failures().iter().map(|failure| failure.position).collect();
    assert_eq!(
        positions,
        vec![
            Position::Source(0),
            Position::Source(0),
            Position::Source(2),
            Position::Source(3),
            Position::Source(3)
        ]
    );
}

#[test]
fn the_schema_flag_is_the_argument_utoipa() {
    assert!(!schema_requested(&vec![]));
    assert!(schema_requested(&vec![ident("utoipa")]));
    assert!(schema_requested(&vec![ident("other"), ident("utoipa")]));
    assert!(schema_requested(&vec![ident("utoipa"), ident("utoipa")]));
    assert!(!schema_requested(&vec![ident("other")]));
    assert!(!schema_requested(&vec![ident("Utoipa"), ident("schema")]));
    let qualified = Path {
        leading_colon: false,
        segments: vec![
            PathSegment { ident: "utoipa".to_string(), arguments: PathArguments::Absent },
            PathSegment { ident: "schema".to_string(), arguments: PathArguments::Absent },
        ],
    };
    assert!(!schema_requested(&vec![qualified]));
    let rooted = Path {
        leading_colon: true,
        segments: vec![PathSegment { ident: "utoipa".to_string(), arguments: PathArguments::Absent }],
    };
    assert!(!schema_requested(&vec![rooted]));
}

#[test]
fn the_expansion_has_the_schema_hints_when_asked_for() {
    let item = || {
        Item::Struct(Fields::Named(vec![field(0, vec![word("not_required", 0)], u64_option())]))
    };
    assert_eq!(
        serde_option(&vec![ident("utoipa")], item()),
        Expansion::Declaration(Item::Struct(Fields::Named(vec![field(
            0,
            vec![
                serde(DirectiveSet::UnwrapOrSkip),
                Annotation::Emitted(Bundle::SchemaNotNullable)
            ],
            u64_option()
        )])))
    );
    assert_eq!(
        serde_option(&vec![ident("serde")], item()),
        Expansion::Declaration(Item::Struct(Fields::Named(vec![field(
            0,
            vec![serde(DirectiveSet::UnwrapOrSkip)],
            u64_option()
        )])))
    );
}
