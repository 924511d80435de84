use isograph_schema::compilation_options::OptionalValidationLevel;
use isograph_schema::ids::{
    ClientFieldId, SelectableServerFieldId, ServerFieldId, ServerObjectId, ServerScalarId,
    ServerStrongIdFieldId,
};
use isograph_schema::isograph_schema::{
    ClientField, ClientFieldVariant, FieldDefinitionLocation, ObjectTypeAndFieldName,
    SchemaServerField, SchemaServerFieldVariant,
};
use isograph_schema::process_type_definition_error::InternalConsistencyError;
use isograph_schema::refetch_strategy::{RefetchStrategy, UseRefetchFieldRefetchStrategy};
use isograph_schema::selection::{
    LinkedFieldSelection, ScalarFieldSelection, Selection, ServerFieldSelection,
    VariableDefinition,
};
use isograph_schema::source_location::{
    EmbeddedLocation, Location, Span, TextSource, WithLocation, WithSpan,
};
use isograph_schema::type_annotation::{
    GraphQLListTypeAnnotation, GraphQLNamedTypeAnnotation, GraphQLNonNullTypeAnnotation,
    GraphQLTypeAnnotation,
};
use isograph_schema::unvalidated_schema::UnvalidatedSchema;
use isograph_schema::validate_schema::{
    resolve_type_annotation, validate_selection, validate_selection_set, UnvalidatedSelection,
    ValidateSchemaError, ValidatedIsographSelectionVariant, ValidatedSchema, ValidatedSelection,
};

fn source() -> TextSource {
    TextSource { path: "schema.graphql".to_string(), span: None }
}

fn at(name: &str, start: u32) -> WithLocation<String> {
    WithLocation::new(name.to_string(), Location::new(source(), Span::new(start, start + 1)))
}

fn named(name: &str) -> GraphQLTypeAnnotation<String> {
    GraphQLTypeAnnotation::Named(GraphQLNamedTypeAnnotation(WithSpan::new(
        name.to_string(),
        Span::new(5, 6),
    )))
}

fn non_null_list_of(name: &str) -> GraphQLTypeAnnotation<String> {
    GraphQLTypeAnnotation::NonNull(Box::new(GraphQLNonNullTypeAnnotation::List(
        GraphQLListTypeAnnotation(GraphQLTypeAnnotation::NonNull(Box::new(
            GraphQLNonNullTypeAnnotation::Named(GraphQLNamedTypeAnnotation(WithSpan::new(
                name.to_string(),
                Span::new(7, 8),
            ))),
        ))),
    )))
}

fn add_object(schema: &mut UnvalidatedSchema, name: &str) -> ServerObjectId {
    schema
        .server_field_data
        .allocate_object(None, at(name, 0), Vec::new(), Some(name.to_string()))
        .unwrap()
}

fn add_field_with(
    schema: &mut UnvalidatedSchema,
    parent: ServerObjectId,
    name: WithLocation<String>,
    type_: GraphQLTypeAnnotation<String>,
    arguments: Vec<WithLocation<VariableDefinition<String>>>,
) -> ServerFieldId {
    let id = schema.allocate_server_field(SchemaServerField {
        description: Some("described".to_string()),
        name: name.clone(),
        id: ServerFieldId(0),
        associated_data: type_,
        parent_type_id: parent,
        arguments,
        is_discriminator: false,
        variant: SchemaServerFieldVariant::LinkedField,
    });
    schema
        .insert_encountered_field(parent, name, FieldDefinitionLocation::Server(id))
        .unwrap();
    id
}

fn add_field(
    schema: &mut UnvalidatedSchema,
    parent: ServerObjectId,
    name: &str,
    type_text: &str,
) -> ServerFieldId {
    add_field_with(schema, parent, at(name, 1), named(type_text), Vec::new())
}

fn scalar(name: &str, start: u32) -> WithSpan<UnvalidatedSelection> {
    WithSpan::new(
        Selection::ServerField(ServerFieldSelection::ScalarField(ScalarFieldSelection {
            name: at(name, start),
            reader_alias: None,
            associated_data: (),
            unwraps: Vec::new(),
            arguments: Vec::new(),
            directives: Vec::new(),
        })),
        Span::new(start, start + 10),
    )
}

fn linked(
    name: &str,
    start: u32,
    selection_set: Vec<WithSpan<UnvalidatedSelection>>,
) -> WithSpan<UnvalidatedSelection> {
    WithSpan::new(
        Selection::ServerField(ServerFieldSelection::LinkedField(LinkedFieldSelection {
            name: at(name, start),
            reader_alias: Some(at("alias", start + 1)),
            associated_data: (),
            selection_set,
            unwraps: Vec::new(),
            arguments: Vec::new(),
            directives: Vec::new(),
        })),
        Span::new(start, start + 20),
    )
}

fn client_field(
    parent: ServerObjectId,
    parent_name: &str,
    name: &str,
    reader: Option<Vec<WithSpan<UnvalidatedSelection>>>,
    refetch: Option<Vec<WithSpan<UnvalidatedSelection>>>,
    variables: Vec<WithSpan<VariableDefinition<String>>>,
) -> ClientField<(), (), String> {
    ClientField {
        description: None,
        name: name.to_string(),
        id: ClientFieldId(0),
        reader_selection_set: reader,
        refetch_strategy: refetch.map(|refetch_selection_set| {
            RefetchStrategy::UseRefetchField(UseRefetchFieldRefetchStrategy {
                root_fetchable_type: ServerObjectId(0),
                refetch_selection_set,
            })
        }),
        unwraps: Vec::new(),
        variant: ClientFieldVariant::Component,
        variable_definitions: variables,
        type_and_field: ObjectTypeAndFieldName {
            object_type_name: parent_name.to_string(),
            field_name: name.to_string(),
        },
        parent_object_id: parent,
    }
}

fn add_client_field(
    schema: &mut UnvalidatedSchema,
    field: ClientField<(), (), String>,
) -> ClientFieldId {
    let parent = field.parent_object_id;
    let name = field.name.clone();
    let id = schema.allocate_client_field(field).unwrap();
    schema
        .insert_encountered_field(parent, at(&name, 2), FieldDefinitionLocation::Client(id))
        .unwrap();
    id
}

fn variable(name: &str, type_text: &str, start: u32) -> VariableDefinition<String> {
    VariableDefinition { name: at(name, start), type_: named(type_text) }
}

struct Example {
    schema: UnvalidatedSchema,
    query: ServerObjectId,
    user: ServerObjectId,
    me: ServerFieldId,
    user_id: ServerFieldId,
    user_name: ServerFieldId,
    friends: ServerFieldId,
}

/// `Query { me: User }` and `User { id: ID, name: String, friends: [User!]! }`.
fn example() -> Example {
    let mut schema = UnvalidatedSchema::new();
    let query = add_object(&mut schema, "Query");
    let user = add_object(&mut schema, "User");
    let me = add_field(&mut schema, query, "me", "User");
    let user_id = add_field(&mut schema, user, "id", "ID");
    schema
        .set_id_field(user, ServerStrongIdFieldId(user_id.0), Location::generated())
        .unwrap();
    let user_name = add_field(&mut schema, user, "name", "String");
    let friends = add_field_with(
        &mut schema,
        user,
        at("friends", 3),
        non_null_list_of("User"),
        vec![WithLocation::new(
            variable("first", "Int", 4),
            Location::new(source(), Span::new(40, 50)),
        )],
    );
    Example { schema, query, user, me, user_id, user_name, friends }
}

fn validated_scalar(selection: &WithSpan<ValidatedSelection>) -> (&str, FieldDefinitionLocation<ServerFieldId, ClientFieldId>) {
    match &selection.item {
        Selection::ServerField(ServerFieldSelection::ScalarField(scalar)) => {
            assert_eq!(
                scalar.associated_data.selection_variant,
                ValidatedIsographSelectionVariant::Regular
            );
            (scalar.name.item.as_str(), scalar.associated_data.location)
        }
        _ => panic!("expected a scalar selection"),
    }
}

#[test]
fn a_type_annotation_keeps_its_wrappers_when_resolved() {
    let example = example();
    let data = &example.schema.server_field_data;
    assert_eq!(
        resolve_type_annotation(data, named("User")),
        Ok(GraphQLTypeAnnotation::Named(GraphQLNamedTypeAnnotation(WithSpan::new(
            SelectableServerFieldId::Object(example.user),
            Span::new(5, 6),
        ))))
    );
    assert_eq!(
        resolve_type_annotation(data, non_null_list_of("Int")),
        Ok(GraphQLTypeAnnotation::NonNull(Box::new(GraphQLNonNullTypeAnnotation::List(
            GraphQLListTypeAnnotation(GraphQLTypeAnnotation::NonNull(Box::new(
                GraphQLNonNullTypeAnnotation::Named(GraphQLNamedTypeAnnotation(WithSpan::new(
                    SelectableServerFieldId::Scalar(ServerScalarId(4)),
                    Span::new(7, 8),
                ))),
            ))),
        ))))
    );
    let list = GraphQLTypeAnnotation::List(Box::new(GraphQLListTypeAnnotation(named("ID"))));
    assert_eq!(
        resolve_type_annotation(data, list),
        Ok(GraphQLTypeAnnotation::List(Box::new(GraphQLListTypeAnnotation(
            GraphQLTypeAnnotation::Named(GraphQLNamedTypeAnnotation(WithSpan::new(
                SelectableServerFieldId::Scalar(ServerScalarId(0)),
                Span::new(5, 6),
            )))
        ))))
    );
}

#[test]
fn a_type_that_is_not_defined_is_handed_back() {
    let example = example();
    let data = &example.schema.server_field_data;
    assert_eq!(resolve_type_annotation(data, named("Usr")), Err("Usr".to_string()));
    assert_eq!(
        resolve_type_annotation(data, non_null_list_of("user")),
        Err("user".to_string())
    );
}

#[test]
fn a_schema_without_failures_is_validated() {
    let Example { mut schema, query, user, me, user_id, user_name, friends } = example();
    let greeting = add_client_field(
        &mut schema,
        client_field(
            user,
            "User",
            "greeting",
            Some(vec![scalar("name", 10)]),
            Some(vec![scalar("id", 20)]),
            vec![WithSpan::new(variable("size", "Int", 30), Span::new(30, 40))],
        ),
    );
    let home = add_client_field(
        &mut schema,
        client_field(
            query,
            "Query",
            "home",
            Some(vec![linked(
                "me",
                10,
                vec![
                    scalar("greeting", 11),
                    linked("friends", 12, vec![scalar("name", 13), scalar("id", 14)]),
                ],
            )]),
            None,
            Vec::new(),
        ),
    );
    schema.entrypoints.push((
        source(),
        WithSpan::new(
            ObjectTypeAndFieldName {
                object_type_name: "Query".to_string(),
                field_name: "home".to_string(),
            },
            Span::new(1, 2),
        ),
    ));

    let (validated, warnings) =
        ValidatedSchema::validate_and_construct(schema, OptionalValidationLevel::Error)
            .ok()
            .unwrap();

    assert!(warnings.is_empty());
    assert_eq!(validated.entrypoints, vec![home]);
    assert_eq!(validated.server_fields.len(), 4);
    assert_eq!(validated.client_fields.len(), 2);
    assert_eq!(validated.server_field_data.server_objects.len(), 2);
    assert_eq!(
        validated.server_field_data.lookup_field_by_name(query, "me"),
        Some(FieldDefinitionLocation::Server(me))
    );

    let me_field = validated.server_field(me);
    assert_eq!(me_field.id, me);
    assert_eq!(me_field.name, at("me", 1));
    assert_eq!(me_field.description, Some("described".to_string()));
    assert_eq!(me_field.parent_type_id, query);
    assert_eq!(
        me_field.associated_data,
        GraphQLTypeAnnotation::Named(GraphQLNamedTypeAnnotation(WithSpan::new(
            SelectableServerFieldId::Object(user),
            Span::new(5, 6),
        )))
    );
    assert_eq!(
        *validated.server_field(user_id).associated_data.inner(),
        SelectableServerFieldId::Scalar(validated.id_type_id)
    );
    assert_eq!(
        *validated.server_field(user_name).associated_data.inner(),
        SelectableServerFieldId::Scalar(validated.string_type_id)
    );
    let friends_field = validated.server_field(friends);
    assert_eq!(
        *friends_field.associated_data.inner(),
        SelectableServerFieldId::Object(user)
    );
    assert!(matches!(friends_field.associated_data, GraphQLTypeAnnotation::NonNull(_)));
    assert_eq!(friends_field.arguments.len(), 1);
    assert_eq!(friends_field.arguments[0].item.name, at("first", 4));
    assert_eq!(
        *friends_field.arguments[0].item.type_.inner(),
        SelectableServerFieldId::Scalar(validated.int_type_id)
    );

    let greeting_field = validated.client_field(greeting);
    assert_eq!(greeting_field.name, "greeting");
    assert_eq!(greeting_field.id, greeting);
    assert_eq!(greeting_field.parent_object_id, user);
    let reader = greeting_field.reader_selection_set.as_ref().unwrap();
    assert_eq!(reader.len(), 1);
    assert_eq!(reader[0].span, Span::new(10, 20));
    assert_eq!(
        validated_scalar(&reader[0]),
        ("name", FieldDefinitionLocation::Server(user_name))
    );
    let refetch = greeting_field.refetch_strategy.as_ref().unwrap().refetch_selection_set();
    assert_eq!(validated_scalar(&refetch[0]), ("id", FieldDefinitionLocation::Server(user_id)));
    assert_eq!(
        *greeting_field.variable_definitions[0].item.type_.inner(),
        SelectableServerFieldId::Scalar(ServerScalarId(4))
    );
    assert_eq!(greeting_field.variable_definitions[0].span, Span::new(30, 40));

    let home_field = validated.client_field(home);
    let reader = home_field.selection_set_for_parent_query().unwrap();
    assert_eq!(reader.len(), 1);
    match &reader[0].item {
        Selection::ServerField(ServerFieldSelection::LinkedField(me_selection)) => {
            assert_eq!(me_selection.name, at("me", 10));
            assert_eq!(me_selection.reader_alias, Some(at("alias", 11)));
            assert_eq!(me_selection.associated_data.parent_object_id, user);
            assert_eq!(me_selection.selection_set.len(), 2);
            assert_eq!(
                validated_scalar(&me_selection.selection_set[0]),
                ("greeting", FieldDefinitionLocation::Client(greeting))
            );
            match &me_selection.selection_set[1].item {
                Selection::ServerField(ServerFieldSelection::LinkedField(friends_selection)) => {
                    assert_eq!(friends_selection.associated_data.parent_object_id, user);
                    assert_eq!(
                        validated_scalar(&friends_selection.selection_set[0]),
                        ("name", FieldDefinitionLocation::Server(user_name))
                    );
                    assert_eq!(
                        validated_scalar(&friends_selection.selection_set[1]),
                        ("id", FieldDefinitionLocation::Server(user_id))
                    );
                }
                _ => panic!("expected a linked selection"),
            }
        }
        _ => panic!("expected a linked selection"),
    }
}

#[test]
fn every_failure_of_a_schema_is_reported() {
    let Example { mut schema, query, user, .. } = example();
    let broken = add_field_with(
        &mut schema,
        user,
        at("pet", 60),
        named("Animal"),
        vec![
            WithLocation::new(variable("kind", "Kind", 61), Location::new(source(), Span::new(61, 70))),
            WithLocation::new(variable("first", "Int", 62), Location::generated()),
            WithLocation::new(variable("order", "Order", 63), Location::generated()),
        ],
    );
    assert_eq!(broken, ServerFieldId(4));
    add_client_field(
        &mut schema,
        client_field(
            query,
            "Query",
            "home",
            Some(vec![
                scalar("missing", 70),
                linked("me", 71, vec![scalar("name", 72), scalar("nickname", 73)]),
                linked("nobody", 74, vec![scalar("unseen", 75)]),
                linked("me", 76, vec![linked("name", 77, vec![scalar("unseen", 78)])]),
            ]),
            Some(vec![scalar("absent", 79)]),
            vec![
                WithSpan::new(variable("size", "Int", 80), Span::new(80, 81)),
                WithSpan::new(variable("color", "Color", 82), Span::new(82, 83)),
            ],
        ),
    );
    schema.entrypoints.push((
        source(),
        WithSpan::new(
            ObjectTypeAndFieldName {
                object_type_name: "Mutation".to_string(),
                field_name: "home".to_string(),
            },
            Span::new(90, 91),
        ),
    ));
    schema.entrypoints.push((
        source(),
        WithSpan::new(
            ObjectTypeAndFieldName {
                object_type_name: "Query".to_string(),
                field_name: "me".to_string(),
            },
            Span::new(92, 93),
        ),
    ));
    schema.entrypoints.push((
        source(),
        WithSpan::new(
            ObjectTypeAndFieldName {
                object_type_name: "String".to_string(),
                field_name: "home".to_string(),
            },
            Span::new(94, 95),
        ),
    ));

    let errors =
        ValidatedSchema::validate_and_construct(schema, OptionalValidationLevel::Error).err().unwrap();

    let entrypoint_at = |start: u32| {
        Location::Embedded(EmbeddedLocation { text_source: source(), span: Span::new(start, start + 1) })
    };
    let expected = vec![
        WithLocation::new(
            ValidateSchemaError::FieldTypenameDoesNotExist {
                parent_type_name: "User".to_string(),
                field_name: "pet".to_string(),
                field_type: "Animal".to_string(),
            },
            at("pet", 60).location,
        ),
        WithLocation::new(
            ValidateSchemaError::FieldArgumentTypeDoesNotExist {
                parent_type_name: "User".to_string(),
                field_name: "pet".to_string(),
                argument_name: "kind".to_string(),
                argument_type: "Kind".to_string(),
            },
            Location::new(source(), Span::new(61, 70)),
        ),
        WithLocation::new(
            ValidateSchemaError::FieldArgumentTypeDoesNotExist {
                parent_type_name: "User".to_string(),
                field_name: "pet".to_string(),
                argument_name: "order".to_string(),
                argument_type: "Order".to_string(),
            },
            Location::generated(),
        ),
        WithLocation::new(
            ValidateSchemaError::ClientFieldSelectionFieldDoesNotExist {
                client_field_name: "home".to_string(),
                field_parent_type_name: "Query".to_string(),
                field_name: "missing".to_string(),
            },
            at("missing", 70).location,
        ),
        WithLocation::new(
            ValidateSchemaError::ClientFieldSelectionFieldDoesNotExist {
                client_field_name: "home".to_string(),
                field_parent_type_name: "User".to_string(),
                field_name: "nickname".to_string(),
            },
            at("nickname", 73).location,
        ),
        WithLocation::new(
            ValidateSchemaError::ClientFieldSelectionFieldDoesNotExist {
                client_field_name: "home".to_string(),
                field_parent_type_name: "Query".to_string(),
                field_name: "nobody".to_string(),
            },
            at("nobody", 74).location,
        ),
        WithLocation::new(
            ValidateSchemaError::ClientFieldSelectionFieldIsNotLinked {
                client_field_name: "home".to_string(),
                field_parent_type_name: "User".to_string(),
                field_name: "name".to_string(),
            },
            at("name", 77).location,
        ),
        WithLocation::new(
            ValidateSchemaError::ClientFieldSelectionFieldDoesNotExist {
                client_field_name: "home".to_string(),
                field_parent_type_name: "Query".to_string(),
                field_name: "absent".to_string(),
            },
            at("absent", 79).location,
        ),
        WithLocation::new(
            ValidateSchemaError::VariableDefinitionInnerTypeDoesNotExist {
                client_field_name: "home".to_string(),
                variable_name: "color".to_string(),
                variable_type: "Color".to_string(),
            },
            at("color", 82).location,
        ),
        WithLocation::new(
            ValidateSchemaError::EntrypointTypeDoesNotExist {
                object_type_name: "Mutation".to_string(),
            },
            entrypoint_at(90),
        ),
        WithLocation::new(
            ValidateSchemaError::EntrypointFieldDoesNotExist {
                object_type_name: "Query".to_string(),
                field_name: "me".to_string(),
            },
            entrypoint_at(92),
        ),
        WithLocation::new(
            ValidateSchemaError::EntrypointTypeDoesNotExist {
                object_type_name: "String".to_string(),
            },
            entrypoint_at(94),
        ),
    ];
    assert_eq!(errors.len(), expected.len());
    for (error, wanted) in errors.iter().zip(expected.iter()) {
        assert_eq!(error, wanted);
    }
}

#[test]
fn a_field_whose_type_is_not_defined_cannot_be_selected_into() {
    let Example { mut schema, query, .. } = example();
    add_field(&mut schema, query, "pet", "Animal");
    let data = &schema.server_field_data;
    let mut errors = Vec::new();
    let selection = linked("pet", 1, vec![scalar("name", 2)]);
    let resolved = validate_selection(
        &schema.server_fields,
        data,
        &"home".to_string(),
        query,
        selection.item,
        &mut errors,
    );
    assert!(resolved.is_none());
    assert_eq!(
        errors,
        vec![WithLocation::new(
            ValidateSchemaError::ClientFieldSelectionFieldIsNotLinked {
                client_field_name: "home".to_string(),
                field_parent_type_name: "Query".to_string(),
                field_name: "pet".to_string(),
            },
            at("pet", 1).location,
        )]
    );
}

#[test]
fn errors_are_added_after_those_that_are_there() {
    let Example { schema, user, user_name, .. } = example();
    let earlier = WithLocation::new(
        ValidateSchemaError::EntrypointTypeDoesNotExist { object_type_name: "X".to_string() },
        Location::generated(),
    );
    let mut errors = vec![earlier];
    let resolved = validate_selection_set(
        &schema.server_fields,
        &schema.server_field_data,
        &"card".to_string(),
        user,
        vec![scalar("name", 1), scalar("age", 2), scalar("name", 3)],
        &mut errors,
    );
    assert!(resolved.is_none());
    assert_eq!(errors.len(), 2);
    assert!(matches!(
        errors[0].item,
        ValidateSchemaError::EntrypointTypeDoesNotExist { .. }
    ));
    assert_eq!(
        errors[1].item,
        ValidateSchemaError::ClientFieldSelectionFieldDoesNotExist {
            client_field_name: "card".to_string(),
            field_parent_type_name: "User".to_string(),
            field_name: "age".to_string(),
        }
    );

    let mut errors = Vec::new();
    let resolved = validate_selection_set(
        &schema.server_fields,
        &schema.server_field_data,
        &"card".to_string(),
        user,
        vec![scalar("name", 1), scalar("name", 3)],
        &mut errors,
    )
    .unwrap();
    assert!(errors.is_empty());
    assert_eq!(resolved.len(), 2);
    assert_eq!(resolved[0].span, Span::new(1, 11));
    assert_eq!(resolved[1].span, Span::new(3, 13));
    assert_eq!(
        validated_scalar(&resolved[1]),
        ("name", FieldDefinitionLocation::Server(user_name))
    );
    let empty = validate_selection_set(
        &schema.server_fields,
        &schema.server_field_data,
        &"card".to_string(),
        user,
        Vec::new(),
        &mut errors,
    );
    assert_eq!(empty.map(|set| set.len()), Some(0));
}

/// A schema in which the id field of `Post` has the type `String`.
fn schema_with_string_id() -> UnvalidatedSchema {
    let Example { mut schema, .. } = example();
    let post = add_object(&mut schema, "Post");
    let id = add_field_with(&mut schema, post, at("id", 50), named("String"), Vec::new());
    schema
        .set_id_field(post, ServerStrongIdFieldId(id.0), Location::generated())
        .unwrap();
    schema
}

fn invalid_id_type() -> WithLocation<ValidateSchemaError> {
    WithLocation::new(
        ValidateSchemaError::IdFieldMustBeIdType {
            parent_type: "Post".to_string(),
            field_name: "id".to_string(),
        },
        at("id", 50).location,
    )
}

#[test]
fn an_id_field_of_another_type_is_an_error_by_default() {
    let errors = ValidatedSchema::validate_and_construct(
        schema_with_string_id(),
        OptionalValidationLevel::Error,
    )
    .err()
    .unwrap();
    assert_eq!(errors, vec![invalid_id_type()]);
}

#[test]
fn an_id_field_of_another_type_can_be_warned_of() {
    let (validated, warnings) = ValidatedSchema::validate_and_construct(
        schema_with_string_id(),
        OptionalValidationLevel::Warn,
    )
    .unwrap();
    assert_eq!(warnings, vec![invalid_id_type()]);
    assert_eq!(validated.server_fields.len(), 5);
}

#[test]
fn an_id_field_of_another_type_can_be_ignored() {
    let (validated, warnings) = ValidatedSchema::validate_and_construct(
        schema_with_string_id(),
        OptionalValidationLevel::Ignore,
    )
    .unwrap();
    assert!(warnings.is_empty());
    assert_eq!(validated.server_field_data.server_objects.len(), 3);
}

#[test]
fn an_id_field_with_a_wrapped_type_is_an_internal_fault_at_every_level() {
    for level in [
        OptionalValidationLevel::Ignore,
        OptionalValidationLevel::Warn,
        OptionalValidationLevel::Error,
    ] {
        let Example { mut schema, .. } = example();
        let post = add_object(&mut schema, "Post");
        let non_null = GraphQLTypeAnnotation::NonNull(Box::new(
            GraphQLNonNullTypeAnnotation::Named(GraphQLNamedTypeAnnotation(WithSpan::new(
                "ID".to_string(),
                Span::new(0, 2),
            ))),
        ));
        let id = add_field_with(&mut schema, post, at("id", 50), non_null, Vec::new());
        schema
            .set_id_field(post, ServerStrongIdFieldId(id.0), Location::generated())
            .unwrap();
        let errors = ValidatedSchema::validate_and_construct(schema, level).err().unwrap();
        assert_eq!(
            errors,
            vec![WithLocation::new(
                ValidateSchemaError::Internal(
                    InternalConsistencyError::ExpectedIdFieldToBeValid {
                        field_name: "id".to_string(),
                    }
                ),
                at("id", 50).location,
            )]
        );
    }
}

#[test]
fn an_empty_schema_is_valid() {
    let (validated, warnings) = ValidatedSchema::validate_and_construct(
        UnvalidatedSchema::new(),
        OptionalValidationLevel::Error,
    )
    .unwrap();
    assert!(warnings.is_empty());
    assert!(validated.server_fields.is_empty());
    assert!(validated.client_fields.is_empty());
    assert!(validated.entrypoints.is_empty());
    assert_eq!(validated.server_field_data.server_scalars.len(), 5);
    assert_eq!(
        validated.server_field_data.lookup_type_by_name("Boolean"),
        Some(SelectableServerFieldId::Scalar(validated.boolean_type_id))
    );
}

#[test]
fn each_validation_error_has_its_message() {
    let messages = [
        (
            ValidateSchemaError::FieldTypenameDoesNotExist {
                parent_type_name: "User".to_string(),
                field_name: "pet".to_string(),
                field_type: "Animal".to_string(),
            },
            "The field `User.pet` has inner type `Animal`, which does not exist.",
        ),
        (
            ValidateSchemaError::FieldArgumentTypeDoesNotExist {
                parent_type_name: "User".to_string(),
                field_name: "pet".to_string(),
                argument_name: "kind".to_string(),
                argument_type: "Kind".to_string(),
            },
            "The argument `kind` on field `User.pet` has inner type `Kind`, which does not exist.",
        ),
        (
            ValidateSchemaError::VariableDefinitionInnerTypeDoesNotExist {
                client_field_name: "home".to_string(),
                variable_name: "color".to_string(),
                variable_type: "Color".to_string(),
            },
            "The variable `color` of the client field `home` has inner type `Color`, which does not exist.",
        ),
        (
            ValidateSchemaError::ClientFieldSelectionFieldDoesNotExist {
                client_field_name: "home".to_string(),
                field_parent_type_name: "Query".to_string(),
                field_name: "missing".to_string(),
            },
            "In the client field `home`, the field `Query.missing` is selected, but that field does not exist on `Query`",
        ),
        (
            ValidateSchemaError::ClientFieldSelectionFieldIsNotLinked {
                client_field_name: "home".to_string(),
                field_parent_type_name: "User".to_string(),
                field_name: "name".to_string(),
            },
            "In the client field `home`, the field `User.name` is selected as a linked field, but its type is not an object",
        ),
        (
            ValidateSchemaError::IdFieldMustBeIdType {
                parent_type: "Post".to_string(),
                field_name: "id".to_string(),
            },
            "The id field on \"Post\" must have type \"ID\".\nThis error can be suppressed using the \"on_invalid_id_type\" config parameter.",
        ),
        (
            ValidateSchemaError::EntrypointTypeDoesNotExist {
                object_type_name: "Mutation".to_string(),
            },
            "The entrypoint names the type `Mutation`, which is not defined as an object",
        ),
        (
            ValidateSchemaError::EntrypointFieldDoesNotExist {
                object_type_name: "Query".to_string(),
                field_name: "me".to_string(),
            },
            "The entrypoint names the field `Query.me`, which is not a client field",
        ),
    ];
    for (error, message) in messages {
        assert_eq!(error.message(), message);
        assert!(!error.is_internal_fault());
    }
    let fault = ValidateSchemaError::Internal(InternalConsistencyError::ExpectedIdFieldToBeValid {
        field_name: "id".to_string(),
    });
    assert!(fault.is_internal_fault());
    assert_eq!(
        fault.message(),
        "Expected id field to be valid, but the field id is not. This is indicative of a bug in Isograph."
    );
}
