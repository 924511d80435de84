use isograph_schema::ids::{
    ClientFieldId, SelectableServerFieldId, ServerFieldId, ServerObjectId, ServerScalarId,
    ServerStrongIdFieldId,
};
use isograph_schema::isograph_schema::{
    ClientField, ClientFieldVariant, FieldDefinitionLocation, ObjectTypeAndFieldName,
    RootOperationName, SchemaInputType, SchemaServerField, SchemaServerFieldVariant, SchemaType,
    ID_GRAPHQL_TYPE,
};
use isograph_schema::process_type_definition_error::{
    InternalConsistencyError, ProcessTypeDefinitionError, TypeDefinitionKind,
};
use isograph_schema::source_location::{Location, Span, TextSource, WithLocation, WithSpan};
use isograph_schema::type_annotation::{
    GraphQLListTypeAnnotation, GraphQLNamedTypeAnnotation, GraphQLNonNullTypeAnnotation,
    GraphQLTypeAnnotation,
};
use isograph_schema::selection::VariableDefinition;
use isograph_schema::unvalidated_schema::UnvalidatedSchema;

fn generated(name: &str) -> WithLocation<String> {
    WithLocation::new(name.to_string(), Location::generated())
}

fn named(type_text: &str) -> GraphQLTypeAnnotation<String> {
    GraphQLTypeAnnotation::Named(GraphQLNamedTypeAnnotation(WithSpan::new(
        type_text.to_string(),
        Span::new(3, 9),
    )))
}

fn field_of(parent: ServerObjectId, name: &str, type_: GraphQLTypeAnnotation<String>) -> SchemaServerField<GraphQLTypeAnnotation<String>, String> {
    SchemaServerField {
        description: None,
        name: generated(name),
        id: ServerFieldId(usize::MAX),
        associated_data: type_,
        parent_type_id: parent,
        arguments: Vec::new(),
        is_discriminator: false,
        variant: SchemaServerFieldVariant::LinkedField,
    }
}

fn add_object(schema: &mut UnvalidatedSchema, name: &str) -> ServerObjectId {
    schema
        .server_field_data
        .allocate_object(None, generated(name), Vec::new(), Some(name.to_string()))
        .unwrap()
}

fn add_field(
    schema: &mut UnvalidatedSchema,
    parent: ServerObjectId,
    name: &str,
    type_text: &str,
) -> ServerFieldId {
    let id = schema.allocate_server_field(field_of(parent, name, named(type_text)));
    schema
        .insert_encountered_field(parent, generated(name), FieldDefinitionLocation::Server(id))
        .unwrap();
    id
}

fn client_field_of(parent: ServerObjectId, name: &str, with_reader: bool) -> ClientField<(), (), String> {
    ClientField {
        description: Some("a client field".to_string()),
        name: name.to_string(),
        id: ClientFieldId(usize::MAX),
        reader_selection_set: if with_reader { Some(Vec::new()) } else { None },
        refetch_strategy: None,
        unwraps: Vec::new(),
        variant: ClientFieldVariant::Eager,
        variable_definitions: Vec::new(),
        type_and_field: ObjectTypeAndFieldName {
            object_type_name: "Query".to_string(),
            field_name: name.to_string(),
        },
        parent_object_id: parent,
    }
}

#[test]
fn a_new_schema_holds_the_built_in_scalars() {
    let schema = UnvalidatedSchema::new();
    assert_eq!(schema.server_field_data.server_scalars.len(), 5);
    assert_eq!(schema.server_field_data.server_objects.len(), 0);
    assert_eq!(schema.server_fields.len(), 0);
    assert_eq!(schema.client_fields.len(), 0);
    assert_eq!(schema.id_type_id, ServerScalarId(0));
    assert_eq!(schema.string_type_id, ServerScalarId(1));
    assert_eq!(schema.float_type_id, ServerScalarId(2));
    assert_eq!(schema.boolean_type_id, ServerScalarId(3));
    assert_eq!(schema.int_type_id, ServerScalarId(4));
    let expected = [
        ("ID", "string"),
        ("String", "string"),
        ("Float", "number"),
        ("Boolean", "boolean"),
        ("Int", "number"),
    ];
    for (index, (name, javascript_name)) in expected.iter().enumerate() {
        let scalar = schema.server_field_data.scalar(ServerScalarId(index));
        assert_eq!(scalar.name.item, *name);
        assert_eq!(scalar.javascript_name, *javascript_name);
        assert_eq!(scalar.id, ServerScalarId(index));
        assert_eq!(
            schema.server_field_data.lookup_type_by_name(name),
            Some(SelectableServerFieldId::Scalar(ServerScalarId(index)))
        );
    }
    assert_eq!(ID_GRAPHQL_TYPE, "ID");
}

#[test]
fn a_name_that_is_not_defined_is_absent() {
    let schema = UnvalidatedSchema::new();
    assert_eq!(schema.server_field_data.lookup_type_by_name("User"), None);
    assert_eq!(schema.server_field_data.lookup_type_by_name("id"), None);
    assert_eq!(schema.server_field_data.lookup_type_by_name(""), None);
}

#[test]
fn objects_get_dense_ids_in_the_order_of_allocation() {
    let mut schema = UnvalidatedSchema::new();
    let query = add_object(&mut schema, "Query");
    let user = add_object(&mut schema, "User");
    let post = add_object(&mut schema, "Post");
    assert_eq!(query, ServerObjectId(0));
    assert_eq!(user, ServerObjectId(1));
    assert_eq!(post, ServerObjectId(2));
    assert_eq!(schema.server_field_data.object(user).name, "User");
    assert_eq!(schema.server_field_data.object(user).id, user);
    assert_eq!(schema.server_field_data.object(user).id_field, None);
    assert_eq!(
        schema.server_field_data.object(user).concrete_type,
        Some("User".to_string())
    );
    assert_eq!(
        schema.server_field_data.lookup_type_by_name("Post"),
        Some(SelectableServerFieldId::Object(post))
    );
    assert_eq!(schema.server_field_data.lookup_field_by_name(user, "id"), None);
}

#[test]
fn a_second_type_of_the_same_name_is_rejected() {
    let mut schema = UnvalidatedSchema::new();
    add_object(&mut schema, "User");
    let location = Location::new(
        TextSource { path: "schema.graphql".to_string(), span: None },
        Span::new(10, 14),
    );
    let error = schema
        .server_field_data
        .allocate_object(
            None,
            WithLocation::new("User".to_string(), location.clone()),
            Vec::new(),
            None,
        )
        .unwrap_err();
    assert_eq!(error.location, location);
    assert_eq!(
        error.item,
        ProcessTypeDefinitionError::DuplicateTypeDefinition {
            type_definition_type: TypeDefinitionKind::Object,
            defined_name: "User".to_string(),
        }
    );
    assert_eq!(schema.server_field_data.server_objects.len(), 1);

    let error = schema
        .server_field_data
        .allocate_scalar(None, generated("String"), "string".to_string())
        .unwrap_err();
    assert_eq!(
        error.item,
        ProcessTypeDefinitionError::DuplicateTypeDefinition {
            type_definition_type: TypeDefinitionKind::Scalar,
            defined_name: "String".to_string(),
        }
    );
    assert_eq!(schema.server_field_data.server_scalars.len(), 5);

    let error = schema
        .server_field_data
        .allocate_scalar(None, generated("User"), "object".to_string())
        .unwrap_err();
    assert!(matches!(
        error.item,
        ProcessTypeDefinitionError::DuplicateTypeDefinition {
            type_definition_type: TypeDefinitionKind::Scalar,
            ..
        }
    ));
    assert_eq!(
        schema.server_field_data.lookup_type_by_name("User"),
        Some(SelectableServerFieldId::Object(ServerObjectId(0)))
    );
}

#[test]
fn a_custom_scalar_is_stored_after_the_built_in_ones() {
    let mut schema = UnvalidatedSchema::new();
    let id = schema
        .server_field_data
        .allocate_scalar(None, generated("DateTime"), "string".to_string())
        .unwrap();
    assert_eq!(id, ServerScalarId(5));
    assert_eq!(schema.server_field_data.scalar(id).name.item, "DateTime");
    assert_eq!(
        schema.server_field_data.lookup_type_by_name("DateTime"),
        Some(SelectableServerFieldId::Scalar(id))
    );
    match schema
        .server_field_data
        .lookup_unvalidated_type(SelectableServerFieldId::Scalar(id))
    {
        SchemaType::Scalar(scalar) => assert_eq!(scalar.javascript_name, "string"),
        SchemaType::Object(_) => panic!("expected a scalar"),
    }
}

#[test]
fn the_store_assigns_the_id_of_a_server_field() {
    let mut schema = UnvalidatedSchema::new();
    let user = add_object(&mut schema, "User");
    assert_eq!(schema.next_server_field_id(), ServerFieldId(0));
    let first = schema.allocate_server_field(field_of(user, "name", named("String")));
    let second = schema.allocate_server_field(field_of(user, "age", named("Int")));
    assert_eq!(first, ServerFieldId(0));
    assert_eq!(second, ServerFieldId(1));
    assert_eq!(schema.next_server_field_id(), ServerFieldId(2));
    assert_eq!(schema.server_field(first).id, first);
    assert_eq!(schema.server_field(second).id, second);
    assert_eq!(schema.server_field(first).name.item, "name");
    assert_eq!(schema.server_field(second).parent_type_id, user);
    assert_eq!(schema.server_field_data.lookup_field_by_name(user, "name"), None);
}

#[test]
fn ids_keep_leading_to_the_same_items_through_later_allocations() {
    let mut schema = UnvalidatedSchema::new();
    let user = add_object(&mut schema, "User");
    let name = add_field(&mut schema, user, "name", "String");
    let client = schema
        .allocate_client_field(client_field_of(user, "greeting", true))
        .unwrap();
    let scalar = schema
        .server_field_data
        .allocate_scalar(None, generated("Date"), "string".to_string())
        .unwrap();

    for round in 0..20 {
        let object = add_object(&mut schema, &format!("Type{round}"));
        add_field(&mut schema, object, "value", "Int");
        add_field(&mut schema, user, &format!("field{round}"), "String");
        schema
            .allocate_client_field(client_field_of(object, &format!("client{round}"), true))
            .unwrap();
        schema
            .server_field_data
            .allocate_scalar(None, generated(&format!("Scalar{round}")), "string".to_string())
            .unwrap();

        assert_eq!(schema.server_field_data.object(user).name, "User");
        assert_eq!(schema.server_field_data.object(user).id, user);
        assert_eq!(
            schema.server_field_data.lookup_field_by_name(user, "name"),
            Some(FieldDefinitionLocation::Server(name))
        );
        assert_eq!(schema.server_field(name).name.item, "name");
        assert_eq!(schema.server_field(name).id, name);
        assert_eq!(schema.server_field(name).parent_type_id, user);
        assert_eq!(*schema.server_field(name).associated_data.inner(), "String");
        assert_eq!(schema.client_field(client).name, "greeting");
        assert_eq!(schema.client_field(client).id, client);
        assert_eq!(schema.server_field_data.scalar(scalar).name.item, "Date");
        assert_eq!(
            schema.server_field_data.lookup_type_by_name("User"),
            Some(SelectableServerFieldId::Object(user))
        );
    }
    assert_eq!(schema.server_fields.len(), 41);
    assert_eq!(schema.client_fields.len(), 21);
    assert_eq!(schema.server_field_data.server_objects.len(), 21);
}

#[test]
fn a_field_name_occurs_once_on_an_object() {
    let mut schema = UnvalidatedSchema::new();
    let user = add_object(&mut schema, "User");
    let other = add_object(&mut schema, "Other");
    let name = add_field(&mut schema, user, "name", "String");
    let second = schema.allocate_server_field(field_of(user, "name", named("Int")));
    let location = Location::new(
        TextSource { path: "schema.graphql".to_string(), span: Some(Span::new(0, 100)) },
        Span::new(20, 24),
    );
    let error = schema
        .insert_encountered_field(
            user,
            WithLocation::new("name".to_string(), location.clone()),
            FieldDefinitionLocation::Server(second),
        )
        .unwrap_err();
    assert_eq!(error.location, location);
    assert_eq!(
        error.item,
        ProcessTypeDefinitionError::FieldExistsOnType {
            field_name: "name".to_string(),
            parent_type: "User".to_string(),
        }
    );
    assert!(!error.item.is_internal_fault());
    assert_eq!(
        schema.server_field_data.lookup_field_by_name(user, "name"),
        Some(FieldDefinitionLocation::Server(name))
    );
    schema
        .insert_encountered_field(other, generated("name"), FieldDefinitionLocation::Server(second))
        .unwrap();
    assert_eq!(
        schema.server_field_data.lookup_field_by_name(other, "name"),
        Some(FieldDefinitionLocation::Server(second))
    );
}

#[test]
fn an_object_inserts_a_field_unless_it_has_the_name() {
    let mut schema = UnvalidatedSchema::new();
    let user = add_object(&mut schema, "User");
    let object = schema.server_field_data.object_mut(user);
    assert!(object.insert_field(
        "name".to_string(),
        FieldDefinitionLocation::Server(ServerFieldId(7))
    ));
    assert!(!object.insert_field(
        "name".to_string(),
        FieldDefinitionLocation::Client(ClientFieldId(1))
    ));
    assert_eq!(
        object.lookup_field("name"),
        Some(FieldDefinitionLocation::Server(ServerFieldId(7)))
    );
    assert_eq!(object.lookup_field("Name"), None);
    assert_eq!(
        schema.server_field_data.lookup_field_by_name(user, "name"),
        Some(FieldDefinitionLocation::Server(ServerFieldId(7)))
    );
}

#[test]
fn a_client_field_needs_a_selection_set_or_a_refetch_strategy() {
    let mut schema = UnvalidatedSchema::new();
    let user = add_object(&mut schema, "User");
    let fault = schema
        .allocate_client_field(client_field_of(user, "broken", false))
        .unwrap_err();
    assert_eq!(
        fault,
        InternalConsistencyError::ExpectedSelectionSetOrRefetchStrategy {
            field_name: "broken".to_string(),
        }
    );
    assert_eq!(schema.client_fields.len(), 0);
    let id = schema
        .allocate_client_field(client_field_of(user, "fine", true))
        .unwrap();
    assert_eq!(id, ClientFieldId(0));
    assert_eq!(schema.client_field(id).id, id);
    assert_eq!(schema.client_field(id).name, "fine");
}

#[test]
fn an_id_field_is_set_once() {
    let mut schema = UnvalidatedSchema::new();
    let user = add_object(&mut schema, "User");
    let id = add_field(&mut schema, user, "id", "ID");
    let other = add_field(&mut schema, user, "uuid", "ID");
    schema
        .set_id_field(user, ServerStrongIdFieldId(id.0), Location::generated())
        .unwrap();
    assert_eq!(
        schema.server_field_data.object(user).id_field,
        Some(ServerStrongIdFieldId(id.0))
    );
    let error = schema
        .set_id_field(user, ServerStrongIdFieldId(other.0), Location::generated())
        .unwrap_err();
    assert_eq!(
        error.item,
        ProcessTypeDefinitionError::IdFieldAlreadyDefined { parent_type: "User".to_string() }
    );
    assert_eq!(error.location, Location::Generated);
    assert_eq!(
        schema.server_field_data.object(user).id_field,
        Some(ServerStrongIdFieldId(id.0))
    );
}

#[test]
fn an_id_field_is_made_of_a_field_with_a_bare_named_type() {
    let mut schema = UnvalidatedSchema::new();
    let user = add_object(&mut schema, "User");
    let id = add_field(&mut schema, user, "id", "ID");
    let id_field = schema.id_field(ServerStrongIdFieldId(id.0)).unwrap();
    assert_eq!(id_field.id, ServerStrongIdFieldId(id.0));
    assert_eq!(id_field.name.item, "id");
    assert_eq!(id_field.name.location, Location::Generated);
    assert_eq!(id_field.parent_type_id, user);
    assert_eq!(id_field.description, None);
    assert_eq!(id_field.associated_data.0.item, "ID");
    assert_eq!(id_field.associated_data.0.span, Span::new(3, 9));
}

#[test]
fn a_wrapped_type_or_an_argument_makes_an_id_field_invalid() {
    let mut schema = UnvalidatedSchema::new();
    let user = add_object(&mut schema, "User");
    let non_null = GraphQLTypeAnnotation::NonNull(Box::new(GraphQLNonNullTypeAnnotation::Named(
        GraphQLNamedTypeAnnotation(WithSpan::new("ID".to_string(), Span::new(0, 2))),
    )));
    let wrapped = schema.allocate_server_field(field_of(user, "id", non_null));
    assert_eq!(
        schema.id_field(ServerStrongIdFieldId(wrapped.0)).unwrap_err(),
        InternalConsistencyError::ExpectedIdFieldToBeValid { field_name: "id".to_string() }
    );
    let list = GraphQLTypeAnnotation::List(Box::new(GraphQLListTypeAnnotation(named("ID"))));
    let listed = schema.allocate_server_field(field_of(user, "ids", list));
    assert_eq!(
        schema.id_field(ServerStrongIdFieldId(listed.0)).unwrap_err(),
        InternalConsistencyError::ExpectedIdFieldToBeValid { field_name: "ids".to_string() }
    );
    let mut with_argument = field_of(user, "key", named("ID"));
    with_argument.arguments.push(generated_argument("version", "Int"));
    let argued = schema.allocate_server_field(with_argument);
    assert_eq!(
        schema.id_field(ServerStrongIdFieldId(argued.0)).unwrap_err(),
        InternalConsistencyError::ExpectedIdFieldToBeValid { field_name: "key".to_string() }
    );
}

fn generated_argument(name: &str, type_text: &str) -> WithLocation<VariableDefinition<String>> {
    WithLocation::new(
        VariableDefinition { name: generated(name), type_: named(type_text) },
        Location::generated(),
    )
}

#[test]
fn the_query_root_is_the_first_fetchable_type_named_query() {
    let mut schema = UnvalidatedSchema::new();
    let mutation = add_object(&mut schema, "Mutation");
    let query = add_object(&mut schema, "Query");
    let other = add_object(&mut schema, "OtherQuery");
    assert!(schema
        .insert_fetchable_type(mutation, RootOperationName("mutation".to_string()))
        .is_none());
    assert!(schema
        .insert_fetchable_type(query, RootOperationName("query".to_string()))
        .is_none());
    assert!(schema
        .insert_fetchable_type(other, RootOperationName("query".to_string()))
        .is_none());
    assert_eq!(schema.fetchable_types.len(), 3);
    assert_eq!(schema.query_id(), query);
}

#[test]
fn a_fetchable_type_occurs_once() {
    let mut schema = UnvalidatedSchema::new();
    let mutation = add_object(&mut schema, "Mutation");
    let query = add_object(&mut schema, "Query");
    schema.insert_fetchable_type(mutation, RootOperationName("mutation".to_string()));
    schema.insert_fetchable_type(query, RootOperationName("subscription".to_string()));
    let replaced = schema
        .insert_fetchable_type(query, RootOperationName("query".to_string()))
        .unwrap();
    assert_eq!(replaced.0, "subscription");
    assert_eq!(schema.fetchable_types.len(), 2);
    assert_eq!(schema.fetchable_types[0].0, mutation);
    assert_eq!(schema.fetchable_types[0].1 .0, "mutation");
    assert_eq!(schema.fetchable_types[1].0, query);
    assert_eq!(schema.fetchable_types[1].1 .0, "query");
    assert_eq!(schema.query_id(), query);
}

#[test]
fn a_type_is_looked_up_by_its_id() {
    let mut schema = UnvalidatedSchema::new();
    let user = add_object(&mut schema, "User");
    let found = schema
        .server_field_data
        .lookup_unvalidated_type(SelectableServerFieldId::Object(user));
    match found {
        SchemaType::Object(object) => assert_eq!(object.name, "User"),
        SchemaType::Scalar(_) => panic!("expected an object"),
    }
    assert_eq!(found.name(), "User");
    let string = schema
        .server_field_data
        .lookup_unvalidated_type(SelectableServerFieldId::Scalar(ServerScalarId(1)));
    assert_eq!(string.name(), "String");
    let input = SchemaInputType::Scalar(schema.server_field_data.scalar(ServerScalarId(4)));
    assert_eq!(input.name(), "Int");
}

#[test]
fn identifiers_give_their_index() {
    assert_eq!(ServerObjectId(3).as_usize(), 3);
    assert_eq!(ServerScalarId(4).as_usize(), 4);
    assert_eq!(ServerFieldId(5).as_usize(), 5);
    assert_eq!(ClientFieldId(6).as_usize(), 6);
    assert_eq!(ServerStrongIdFieldId(7).as_usize(), 7);
    assert_eq!(ServerStrongIdFieldId(7).as_server_field_id(), ServerFieldId(7));
    assert_eq!(
        SelectableServerFieldId::Object(ServerObjectId(1)).as_object_id(),
        Some(ServerObjectId(1))
    );
    assert_eq!(SelectableServerFieldId::Object(ServerObjectId(1)).as_scalar_id(), None);
    assert_eq!(
        SelectableServerFieldId::Scalar(ServerScalarId(2)).as_scalar_id(),
        Some(ServerScalarId(2))
    );
    assert_eq!(SelectableServerFieldId::Scalar(ServerScalarId(2)).as_object_id(), None);
}

#[test]
fn a_location_is_either_embedded_or_generated() {
    let source = TextSource { path: "a.ts".to_string(), span: Some(Span::new(1, 2)) };
    let location = Location::new(source.clone(), Span::new(4, 8));
    assert!(!location.is_generated());
    assert!(Location::generated().is_generated());
    assert_eq!(Span::generated(), Span::new(0, 0));
    let spanned = WithLocation::new(5u32, location.clone()).to_with_span();
    assert_eq!(spanned, WithSpan::new(5u32, Span::new(4, 8)));
    let spanned = WithLocation::new(5u32, Location::generated()).to_with_span();
    assert_eq!(spanned, WithSpan::new(5u32, Span::new(0, 0)));
    let located = WithSpan::new("x".to_string(), Span::new(4, 8)).to_with_location(source);
    assert_eq!(located, WithLocation::new("x".to_string(), location));
}

#[test]
fn a_location_of_a_field_is_either_kind() {
    let server: FieldDefinitionLocation<u32, u8> = FieldDefinitionLocation::Server(7);
    let client: FieldDefinitionLocation<u32, u8> = FieldDefinitionLocation::Client(9);
    assert_eq!(server.as_server_field(), Some(&7));
    assert_eq!(server.as_client_field(), None);
    assert_eq!(client.as_server_field(), None);
    assert_eq!(client.as_client_field(), Some(&9));
}
