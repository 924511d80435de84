//! The validated state of a schema, in which every reference by name has
//! become a reference by id.

use crate::add_pointers_to_supertypes::UnvalidatedSchemaServerField;
use crate::ids::{ClientFieldId, SelectableServerFieldId, ServerFieldId, ServerObjectId};
use crate::compilation_options::OptionalValidationLevel;
use crate::isograph_schema::{
    ClientField, FieldDefinitionLocation, ObjectTypeAndFieldName, Schema, SchemaObject,
    SchemaServerField, SchemaValidationState, ServerFieldData, ID_GRAPHQL_TYPE,
};
use crate::unvalidated_schema::UnvalidatedSchema;
use vstd::string::StringExecFns;
use crate::refetch_strategy::{RefetchStrategy, UseRefetchFieldRefetchStrategy};
use crate::names::{
    IsographObjectTypeName, SelectableFieldName, UnvalidatedTypeName, VariableName,
};
use crate::process_type_definition_error::InternalConsistencyError;
use crate::selection::{
    LinkedFieldSelection, ScalarFieldSelection, Selection, ServerFieldSelection,
    VariableDefinition,
};
use crate::source_location::{EmbeddedLocation, Location, TextSource, WithLocation, WithSpan};
use crate::type_annotation::GraphQLTypeAnnotation;
use vstd::pervasive::unreached;
use vstd::prelude::*;

verus! {

/// How a selected scalar field is read.
#[derive(Clone, Copy, Debug, PartialEq, Eq, Structural)]
pub enum ValidatedIsographSelectionVariant {
    Regular,
    Loadable,
}

/// What a validated selection of a scalar field holds: where the field is
/// defined and how it is read.
#[derive(Clone, Copy, Debug, PartialEq, Eq)]
pub struct ValidatedScalarFieldAssociatedData {
    pub location: FieldDefinitionLocation<ServerFieldId, ClientFieldId>,
    pub selection_variant: ValidatedIsographSelectionVariant,
}

/// What a validated selection of a linked field holds: the object that the
/// field leads to.
#[derive(Clone, Copy, Debug, PartialEq, Eq, Structural)]
pub struct ValidatedLinkedFieldAssociatedData {
    pub parent_object_id: ServerObjectId,
}

/// A selection in a validated schema.
pub type ValidatedSelection = Selection<
    ValidatedScalarFieldAssociatedData,
    ValidatedLinkedFieldAssociatedData,
>;

/// The state of a schema whose references have all been resolved.
#[derive(Debug)]
pub struct ValidatedSchemaState;

impl SchemaValidationState for ValidatedSchemaState {
    type FieldTypeAssociatedData = SelectableServerFieldId;

    type ClientFieldSelectionScalarFieldAssociatedData = ValidatedScalarFieldAssociatedData;

    type ClientFieldSelectionLinkedFieldAssociatedData = ValidatedLinkedFieldAssociatedData;

    type VariableDefinitionInnerType = SelectableServerFieldId;

    type Entrypoint = Vec<ClientFieldId>;
}

/// A schema whose references have all been resolved.
pub type ValidatedSchema = Schema<ValidatedSchemaState>;

/// A server field of a validated schema.
pub type ValidatedSchemaServerField = SchemaServerField<
    GraphQLTypeAnnotation<SelectableServerFieldId>,
    SelectableServerFieldId,
>;

/// A selection before validation.
pub type UnvalidatedSelection = Selection<(), ()>;

/// A reference that could not be resolved, or an item that is not what it
/// has to be.
#[derive(Debug, PartialEq, Eq)]
pub enum ValidateSchemaError {
    /// The type of a server field is not defined.
    FieldTypenameDoesNotExist {
        parent_type_name: IsographObjectTypeName,
        field_name: SelectableFieldName,
        field_type: UnvalidatedTypeName,
    },
    /// The type of an argument of a server field is not defined.
    FieldArgumentTypeDoesNotExist {
        parent_type_name: IsographObjectTypeName,
        field_name: SelectableFieldName,
        argument_name: VariableName,
        argument_type: UnvalidatedTypeName,
    },
    /// The type of a variable of a client field is not defined.
    VariableDefinitionInnerTypeDoesNotExist {
        client_field_name: SelectableFieldName,
        variable_name: VariableName,
        variable_type: UnvalidatedTypeName,
    },
    /// A client field selects a field that its parent does not have.
    ClientFieldSelectionFieldDoesNotExist {
        client_field_name: SelectableFieldName,
        field_parent_type_name: IsographObjectTypeName,
        field_name: SelectableFieldName,
    },
    /// A client field makes selections on a field whose type is no object.
    ClientFieldSelectionFieldIsNotLinked {
        client_field_name: SelectableFieldName,
        field_parent_type_name: IsographObjectTypeName,
        field_name: SelectableFieldName,
    },
    /// The id field of a type is not of the type `ID`.
    IdFieldMustBeIdType { parent_type: IsographObjectTypeName, field_name: SelectableFieldName },
    /// An entrypoint names a type that is not defined as an object.
    EntrypointTypeDoesNotExist { object_type_name: IsographObjectTypeName },
    /// An entrypoint names a field that is no client field of its type.
    EntrypointFieldDoesNotExist {
        object_type_name: IsographObjectTypeName,
        field_name: SelectableFieldName,
    },
    /// The compiler found itself in a state it should have ruled out.
    Internal(InternalConsistencyError),
}

impl ValidateSchemaError {
    /// Whether the error tells of a defect in the compiler rather than of a
    /// mistake in the schema or in a literal.
    pub open spec fn spec_is_internal_fault(&self) -> bool {
        *self is Internal
    }

    /// Whether the error tells of a defect in the compiler rather than of a
    /// mistake in the schema or in a literal.
    #[verifier::when_used_as_spec(spec_is_internal_fault)]
    pub fn is_internal_fault(&self) -> (internal: bool)
        ensures
            internal == self.spec_is_internal_fault(),
    {
        match self {
            ValidateSchemaError::Internal(_) => true,
            _ => false,
        }
    }

    /// The text of `message`.
    pub open spec fn message_text(self) -> Seq<char> {
        match self {
            ValidateSchemaError::FieldTypenameDoesNotExist {
                parent_type_name,
                field_name,
                field_type,
            } => {
                "The field `"@ + parent_type_name@ + "."@ + field_name@ + "` has inner type `"@
                    + field_type@ + "`, which does not exist."@
            },
            ValidateSchemaError::FieldArgumentTypeDoesNotExist {
                parent_type_name,
                field_name,
                argument_name,
                argument_type,
            } => {
                "The argument `"@ + argument_name@ + "` on field `"@ + parent_type_name@ + "."@
                    + field_name@ + "` has inner type `"@ + argument_type@
                    + "`, which does not exist."@
            },
            ValidateSchemaError::VariableDefinitionInnerTypeDoesNotExist {
                client_field_name,
                variable_name,
                variable_type,
            } => {
                "The variable `"@ + variable_name@ + "` of the client field `"@
                    + client_field_name@ + "` has inner type `"@ + variable_type@
                    + "`, which does not exist."@
            },
            ValidateSchemaError::ClientFieldSelectionFieldDoesNotExist {
                client_field_name,
                field_parent_type_name,
                field_name,
            } => {
                "In the client field `"@ + client_field_name@ + "`, the field `"@
                    + field_parent_type_name@ + "."@ + field_name@
                    + "` is selected, but that field does not exist on `"@
                    + field_parent_type_name@ + "`"@
            },
            ValidateSchemaError::ClientFieldSelectionFieldIsNotLinked {
                client_field_name,
                field_parent_type_name,
                field_name,
            } => {
                "In the client field `"@ + client_field_name@ + "`, the field `"@
                    + field_parent_type_name@ + "."@ + field_name@
                    + "` is selected as a linked field, but its type is not an object"@
            },
            ValidateSchemaError::IdFieldMustBeIdType { parent_type, field_name } => {
                "The "@ + field_name@ + " field on \""@ + parent_type@
                    + "\" must have type \"ID\".\nThis error can be suppressed using the \"on_invalid_id_type\" config parameter."@
            },
            ValidateSchemaError::EntrypointTypeDoesNotExist { object_type_name } => {
                "The entrypoint names the type `"@ + object_type_name@
                    + "`, which is not defined as an object"@
            },
            ValidateSchemaError::EntrypointFieldDoesNotExist { object_type_name, field_name } => {
                "The entrypoint names the field `"@ + object_type_name@ + "."@ + field_name@
                    + "`, which is not a client field"@
            },
            ValidateSchemaError::Internal(fault) => fault.message_text(),
        }
    }

    /// Describes the error for a reader.
    pub fn message(&self) -> (text: String)
        ensures
            text@ == self.message_text(),
    {
        match self {
            ValidateSchemaError::FieldTypenameDoesNotExist {
                parent_type_name,
                field_name,
                field_type,
            } => {
                let mut text = String::from_str("The field `");
                text.append(parent_type_name.as_str());
                text.append(".");
                text.append(field_name.as_str());
                text.append("` has inner type `");
                text.append(field_type.as_str());
                text.append("`, which does not exist.");
                text
            },
            ValidateSchemaError::FieldArgumentTypeDoesNotExist {
                parent_type_name,
                field_name,
                argument_name,
                argument_type,
            } => {
                let mut text = String::from_str("The argument `");
                text.append(argument_name.as_str());
                text.append("` on field `");
                text.append(parent_type_name.as_str());
                text.append(".");
                text.append(field_name.as_str());
                text.append("` has inner type `");
                text.append(argument_type.as_str());
                text.append("`, which does not exist.");
                text
            },
            ValidateSchemaError::VariableDefinitionInnerTypeDoesNotExist {
                client_field_name,
                variable_name,
                variable_type,
            } => {
                let mut text = String::from_str("The variable `");
                text.append(variable_name.as_str());
                text.append("` of the client field `");
                text.append(client_field_name.as_str());
                text.append("` has inner type `");
                text.append(variable_type.as_str());
                text.append("`, which does not exist.");
                text
            },
            ValidateSchemaError::ClientFieldSelectionFieldDoesNotExist {
                client_field_name,
                field_parent_type_name,
                field_name,
            } => {
                let mut text = String::from_str("In the client field `");
                text.append(client_field_name.as_str());
                text.append("`, the field `");
                text.append(field_parent_type_name.as_str());
                text.append(".");
                text.append(field_name.as_str());
                text.append("` is selected, but that field does not exist on `");
                text.append(field_parent_type_name.as_str());
                text.append("`");
                text
            },
            ValidateSchemaError::ClientFieldSelectionFieldIsNotLinked {
                client_field_name,
                field_parent_type_name,
                field_name,
            } => {
                let mut text = String::from_str("In the client field `");
                text.append(client_field_name.as_str());
                text.append("`, the field `");
                text.append(field_parent_type_name.as_str());
                text.append(".");
                text.append(field_name.as_str());
                text.append("` is selected as a linked field, but its type is not an object");
                text
            },
            ValidateSchemaError::IdFieldMustBeIdType { parent_type, field_name } => {
                let mut text = String::from_str("The ");
                text.append(field_name.as_str());
                text.append(" field on \"");
                text.append(parent_type.as_str());
                text.append(
                    "\" must have type \"ID\".\nThis error can be suppressed using the \"on_invalid_id_type\" config parameter.",
                );
                text
            },
            ValidateSchemaError::EntrypointTypeDoesNotExist { object_type_name } => {
                let mut text = String::from_str("The entrypoint names the type `");
                text.append(object_type_name.as_str());
                text.append("`, which is not defined as an object");
                text
            },
            ValidateSchemaError::EntrypointFieldDoesNotExist { object_type_name, field_name } => {
                let mut text = String::from_str("The entrypoint names the field `");
                text.append(object_type_name.as_str());
                text.append(".");
                text.append(field_name.as_str());
                text.append("`, which is not a client field");
                text
            },
            ValidateSchemaError::Internal(fault) => fault.message(),
        }
    }
}

/// The id of the type that a type annotation names, with the wrappers of
/// the annotation around it, if the name is defined.
pub open spec fn resolved_type_annotation(
    defined_types: Map<Seq<char>, SelectableServerFieldId>,
    annotation: GraphQLTypeAnnotation<UnvalidatedTypeName>,
) -> Option<GraphQLTypeAnnotation<SelectableServerFieldId>> {
    if defined_types.contains_key(annotation.spec_inner()@) {
        Some(annotation.with_inner(defined_types[annotation.spec_inner()@]))
    } else {
        None
    }
}

/// Resolves the name in a type annotation to the id of the type that is
/// defined under it, and keeps every wrapper and span of the annotation. A
/// name that is not defined is handed back as the error.
pub fn resolve_type_annotation(
    server_field_data: &ServerFieldData,
    annotation: GraphQLTypeAnnotation<UnvalidatedTypeName>,
) -> (result: Result<GraphQLTypeAnnotation<SelectableServerFieldId>, UnvalidatedTypeName>)
    ensures
        match result {
            Ok(resolved) => resolved_type_annotation(
                server_field_data.defined_types@,
                annotation,
            ) == Some(resolved),
            Err(name) => {
                &&& resolved_type_annotation(server_field_data.defined_types@, annotation) is None
                &&& name == annotation.spec_inner()
            },
        },
{
    match server_field_data.lookup_type_by_name(annotation.inner().as_str()) {
        Some(type_id) => Ok(annotation.replace_inner(type_id)),
        None => Err(annotation.inner().clone()),
    }
}

/// The items of a list in the opposite order.
fn reversed<T>(items: Vec<T>) -> (turned: Vec<T>)
    ensures
        turned@.len() == items@.len(),
        forall|i: int|
            0 <= i < items@.len() ==> #[trigger] turned@[i] == items@[items@.len() - 1 - i],
{
    let ghost given = items@;
    let mut items = items;
    let mut turned: Vec<T> = Vec::new();
    while items.len() > 0
        invariant
            turned@.len() + items@.len() == given.len(),
            forall|i: int| 0 <= i < items@.len() ==> #[trigger] items@[i] == given[i],
            forall|i: int|
                0 <= i < turned@.len() ==> #[trigger] turned@[i] == given[given.len() - 1 - i],
        decreases items@.len(),
    {
        let item = items.pop().unwrap();
        turned.push(item);
    }
    turned
}

/// Whether the schema's types and server fields can be resolved against:
/// every object that the parts name is stored, and every server field that an
/// object has is stored.
pub open spec fn is_resolvable_against(
    server_fields: Seq<UnvalidatedSchemaServerField>,
    server_field_data: ServerFieldData,
) -> bool {
    &&& server_field_data.is_valid()
    &&& forall|object_id: ServerObjectId, name: Seq<char>|
        server_field_data.has_object(object_id) && #[trigger] server_field_data.spec_object(
            object_id,
        ).encountered_fields@.contains_key(name) ==> match server_field_data.spec_object(
            object_id,
        ).encountered_fields@[name] {
            FieldDefinitionLocation::Server(server_field_id) => server_field_id.0
                < server_fields.len(),
            FieldDefinitionLocation::Client(_) => true,
        }
}

/// The object on which the selections of a linked field are made: the type
/// of the server field that `name` leads to on the object `parent`, if that
/// type is an object.
pub open spec fn linked_field_target(
    server_fields: Seq<UnvalidatedSchemaServerField>,
    server_field_data: ServerFieldData,
    parent: ServerObjectId,
    name: Seq<char>,
) -> Option<ServerObjectId> {
    let fields = server_field_data.spec_object(parent).encountered_fields@;
    if !fields.contains_key(name) {
        None
    } else {
        match fields[name] {
            FieldDefinitionLocation::Client(_) => None,
            FieldDefinitionLocation::Server(server_field_id) => {
                let field = server_fields[server_field_id.0 as int];
                let field_type = field.associated_data.spec_inner()@;
                if server_field_data.defined_types@.contains_key(field_type) {
                    match server_field_data.defined_types@[field_type] {
                        SelectableServerFieldId::Object(object_id) => Some(object_id),
                        SelectableServerFieldId::Scalar(_) => None,
                    }
                } else {
                    None
                }
            },
        }
    }
}

/// The error that a client field selects a field that its parent lacks.
pub open spec fn field_does_not_exist(
    server_field_data: ServerFieldData,
    client_field_name: SelectableFieldName,
    parent: ServerObjectId,
    name: WithLocation<SelectableFieldName>,
) -> WithLocation<ValidateSchemaError> {
    WithLocation {
        location: name.location,
        item: ValidateSchemaError::ClientFieldSelectionFieldDoesNotExist {
            client_field_name,
            field_parent_type_name: server_field_data.spec_object(parent).name,
            field_name: name.item,
        },
    }
}

/// The error that a client field makes selections on a field whose type is
/// no object.
pub open spec fn field_is_not_linked(
    server_field_data: ServerFieldData,
    client_field_name: SelectableFieldName,
    parent: ServerObjectId,
    name: WithLocation<SelectableFieldName>,
) -> WithLocation<ValidateSchemaError> {
    WithLocation {
        location: name.location,
        item: ValidateSchemaError::ClientFieldSelectionFieldIsNotLinked {
            client_field_name,
            field_parent_type_name: server_field_data.spec_object(parent).name,
            field_name: name.item,
        },
    }
}

/// The errors of one selection made on the object `parent`, in the order of
/// the text: a scalar selection fails if the parent has no field of its name;
/// a linked selection fails if the parent has no field of its name or the
/// field's type is no object, and else with the errors of its selections.
pub open spec fn selection_failures(
    server_fields: Seq<UnvalidatedSchemaServerField>,
    server_field_data: ServerFieldData,
    client_field_name: SelectableFieldName,
    parent: ServerObjectId,
    selection: UnvalidatedSelection,
) -> Seq<WithLocation<ValidateSchemaError>>
    decreases selection, 0nat,
{
    let fields = server_field_data.spec_object(parent).encountered_fields@;
    match selection {
        Selection::ServerField(ServerFieldSelection::ScalarField(scalar)) => {
            if fields.contains_key(scalar.name.item@) {
                Seq::empty()
            } else {
                seq![
                    field_does_not_exist(
                        server_field_data,
                        client_field_name,
                        parent,
                        scalar.name,
                    ),
                ]
            }
        },
        Selection::ServerField(ServerFieldSelection::LinkedField(linked)) => {
            if !fields.contains_key(linked.name.item@) {
                seq![
                    field_does_not_exist(
                        server_field_data,
                        client_field_name,
                        parent,
                        linked.name,
                    ),
                ]
            } else {
                match linked_field_target(
                    server_fields,
                    server_field_data,
                    parent,
                    linked.name.item@,
                ) {
                    None => seq![
                        field_is_not_linked(
                            server_field_data,
                            client_field_name,
                            parent,
                            linked.name,
                        ),
                    ],
                    Some(target) => selection_set_failures(
                        server_fields,
                        server_field_data,
                        client_field_name,
                        target,
                        linked.selection_set@,
                        linked.selection_set@.len(),
                    ),
                }
            }
        },
    }
}

/// The errors of the first `count` selections of a selection set made on the
/// object `parent`, in their order.
pub open spec fn selection_set_failures(
    server_fields: Seq<UnvalidatedSchemaServerField>,
    server_field_data: ServerFieldData,
    client_field_name: SelectableFieldName,
    parent: ServerObjectId,
    selection_set: Seq<WithSpan<UnvalidatedSelection>>,
    count: nat,
) -> Seq<WithLocation<ValidateSchemaError>>
    decreases selection_set, count,
{
    if count == 0 || count > selection_set.len() {
        Seq::empty()
    } else {
        selection_set_failures(
            server_fields,
            server_field_data,
            client_field_name,
            parent,
            selection_set,
            (count - 1) as nat,
        ) + selection_failures(
            server_fields,
            server_field_data,
            client_field_name,
            parent,
            selection_set[count - 1].item,
        )
    }
}

/// Whether `resolved` is `selection` with its references resolved on the
/// object `parent`: the same selection, where a scalar field holds the
/// location that its name leads to, and a linked field holds the object that
/// its field leads to and has its own selections resolved on that object.
pub open spec fn is_resolved_selection(
    server_fields: Seq<UnvalidatedSchemaServerField>,
    server_field_data: ServerFieldData,
    parent: ServerObjectId,
    selection: UnvalidatedSelection,
    resolved: ValidatedSelection,
) -> bool
    decreases selection,
{
    let fields = server_field_data.spec_object(parent).encountered_fields@;
    match (selection, resolved) {
        (
            Selection::ServerField(ServerFieldSelection::ScalarField(scalar)),
            Selection::ServerField(ServerFieldSelection::ScalarField(resolved_scalar)),
        ) => {
            &&& resolved_scalar.name == scalar.name
            &&& resolved_scalar.reader_alias == scalar.reader_alias
            &&& resolved_scalar.unwraps == scalar.unwraps
            &&& resolved_scalar.arguments == scalar.arguments
            &&& resolved_scalar.directives == scalar.directives
            &&& fields.contains_key(scalar.name.item@)
            &&& resolved_scalar.associated_data.location == fields[scalar.name.item@]
            &&& resolved_scalar.associated_data.selection_variant
                == ValidatedIsographSelectionVariant::Regular
        },
        (
            Selection::ServerField(ServerFieldSelection::LinkedField(linked)),
            Selection::ServerField(ServerFieldSelection::LinkedField(resolved_linked)),
        ) => {
            &&& resolved_linked.name == linked.name
            &&& resolved_linked.reader_alias == linked.reader_alias
            &&& resolved_linked.unwraps == linked.unwraps
            &&& resolved_linked.arguments == linked.arguments
            &&& resolved_linked.directives == linked.directives
            &&& linked_field_target(server_fields, server_field_data, parent, linked.name.item@)
                == Some(resolved_linked.associated_data.parent_object_id)
            &&& resolved_linked.selection_set@.len() == linked.selection_set@.len()
            &&& forall|i: int|
                0 <= i < linked.selection_set@.len() ==> {
                    &&& (#[trigger] resolved_linked.selection_set@[i]).span
                        == linked.selection_set@[i].span
                    &&& is_resolved_selection(
                        server_fields,
                        server_field_data,
                        resolved_linked.associated_data.parent_object_id,
                        linked.selection_set@[i].item,
                        resolved_linked.selection_set@[i].item,
                    )
                }
        },
        _ => false,
    }
}

/// Whether `resolved` is the selection set `selection_set` with its
/// references resolved on the object `parent`, selection by selection.
pub open spec fn is_resolved_selection_set(
    server_fields: Seq<UnvalidatedSchemaServerField>,
    server_field_data: ServerFieldData,
    parent: ServerObjectId,
    selection_set: Seq<WithSpan<UnvalidatedSelection>>,
    resolved: Seq<WithSpan<ValidatedSelection>>,
) -> bool {
    &&& resolved.len() == selection_set.len()
    &&& forall|i: int|
        0 <= i < selection_set.len() ==> {
            &&& (#[trigger] resolved[i]).span == selection_set[i].span
            &&& is_resolved_selection(
                server_fields,
                server_field_data,
                parent,
                selection_set[i].item,
                resolved[i].item,
            )
        }
}

/// Resolves the references of one selection made on the object `parent`.
/// The errors of the selection are added to `errors`; the resolved selection
/// is returned if there are none.
pub fn validate_selection(
    server_fields: &Vec<UnvalidatedSchemaServerField>,
    server_field_data: &ServerFieldData,
    client_field_name: &SelectableFieldName,
    parent: ServerObjectId,
    selection: UnvalidatedSelection,
    errors: &mut Vec<WithLocation<ValidateSchemaError>>,
) -> (resolved: Option<ValidatedSelection>)
    requires
        is_resolvable_against(server_fields@, *server_field_data),
        server_field_data.has_object(parent),
    ensures
        final(errors)@ == old(errors)@ + selection_failures(
            server_fields@,
            *server_field_data,
            *client_field_name,
            parent,
            selection,
        ),
        resolved is Some <==> selection_failures(
            server_fields@,
            *server_field_data,
            *client_field_name,
            parent,
            selection,
        ).len() == 0,
        resolved matches Some(resolved_selection) ==> is_resolved_selection(
            server_fields@,
            *server_field_data,
            parent,
            selection,
            resolved_selection,
        ),
    decreases selection, 0nat,
{
    match selection {
        Selection::ServerField(ServerFieldSelection::ScalarField(scalar)) => {
            match server_field_data.lookup_field_by_name(parent, scalar.name.item.as_str()) {
                Some(location) => {
                    Some(
                        Selection::ServerField(
                            ServerFieldSelection::ScalarField(
                                ScalarFieldSelection {
                                    name: scalar.name,
                                    reader_alias: scalar.reader_alias,
                                    associated_data: ValidatedScalarFieldAssociatedData {
                                        location,
                                        selection_variant: ValidatedIsographSelectionVariant::Regular,
                                    },
                                    unwraps: scalar.unwraps,
                                    arguments: scalar.arguments,
                                    directives: scalar.directives,
                                },
                            ),
                        ),
                    )
                },
                None => {
                    let error = WithLocation::new(
                        ValidateSchemaError::ClientFieldSelectionFieldDoesNotExist {
                            client_field_name: client_field_name.clone(),
                            field_parent_type_name: server_field_data.object(parent).name.clone(),
                            field_name: scalar.name.item,
                        },
                        scalar.name.location,
                    );
                    errors.push(error);
                    None
                },
            }
        },
        Selection::ServerField(ServerFieldSelection::LinkedField(linked)) => {
            match server_field_data.lookup_field_by_name(parent, linked.name.item.as_str()) {
                None => {
                    let error = WithLocation::new(
                        ValidateSchemaError::ClientFieldSelectionFieldDoesNotExist {
                            client_field_name: client_field_name.clone(),
                            field_parent_type_name: server_field_data.object(parent).name.clone(),
                            field_name: linked.name.item,
                        },
                        linked.name.location,
                    );
                    errors.push(error);
                    None
                },
                Some(location) => {
                    let target = match location {
                        FieldDefinitionLocation::Client(_) => None,
                        FieldDefinitionLocation::Server(server_field_id) => {
                            let field = &server_fields[server_field_id.as_usize()];
                            let field_type = field.associated_data.inner();
                            match server_field_data.lookup_type_by_name(field_type.as_str()) {
                                Some(SelectableServerFieldId::Object(object_id)) => Some(object_id),
                                _ => None,
                            }
                        },
                    };
                    match target {
                        None => {
                            let error = WithLocation::new(
                                ValidateSchemaError::ClientFieldSelectionFieldIsNotLinked {
                                    client_field_name: client_field_name.clone(),
                                    field_parent_type_name: server_field_data.object(
                                        parent,
                                    ).name.clone(),
                                    field_name: linked.name.item,
                                },
                                linked.name.location,
                            );
                            errors.push(error);
                            None
                        },
                        Some(target) => {
                            match validate_selection_set(
                                server_fields,
                                server_field_data,
                                client_field_name,
                                target,
                                linked.selection_set,
                                errors,
                            ) {
                                Some(selection_set) => Some(
                                    Selection::ServerField(
                                        ServerFieldSelection::LinkedField(
                                            LinkedFieldSelection {
                                                name: linked.name,
                                                reader_alias: linked.reader_alias,
                                                associated_data: ValidatedLinkedFieldAssociatedData {
                                                    parent_object_id: target,
                                                },
                                                selection_set,
                                                unwraps: linked.unwraps,
                                                arguments: linked.arguments,
                                                directives: linked.directives,
                                            },
                                        ),
                                    ),
                                ),
                                None => None,
                            }
                        },
                    }
                },
            }
        },
    }
}

/// Resolves the references of a selection set made on the object `parent`.
/// The errors of all its selections are added to `errors`, in the order of
/// the selections; the resolved selection set is returned if there are none.
pub fn validate_selection_set(
    server_fields: &Vec<UnvalidatedSchemaServerField>,
    server_field_data: &ServerFieldData,
    client_field_name: &SelectableFieldName,
    parent: ServerObjectId,
    selection_set: Vec<WithSpan<UnvalidatedSelection>>,
    errors: &mut Vec<WithLocation<ValidateSchemaError>>,
) -> (resolved: Option<Vec<WithSpan<ValidatedSelection>>>)
    requires
        is_resolvable_against(server_fields@, *server_field_data),
        server_field_data.has_object(parent),
    ensures
        final(errors)@ == old(errors)@ + selection_set_failures(
            server_fields@,
            *server_field_data,
            *client_field_name,
            parent,
            selection_set@,
            selection_set@.len(),
        ),
        resolved is Some <==> selection_set_failures(
            server_fields@,
            *server_field_data,
            *client_field_name,
            parent,
            selection_set@,
            selection_set@.len(),
        ).len() == 0,
        resolved matches Some(resolved_set) ==> is_resolved_selection_set(
            server_fields@,
            *server_field_data,
            parent,
            selection_set@,
            resolved_set@,
        ),
    decreases selection_set@, selection_set@.len(),
{
    let ghost given = selection_set@;
    let ghost start = errors@;
    let mut rest = reversed(selection_set);
    let mut resolved: Vec<WithSpan<ValidatedSelection>> = Vec::new();
    let mut all_resolved = true;
    while rest.len() > 0
        invariant
            given == selection_set@,
            start == old(errors)@,
            is_resolvable_against(server_fields@, *server_field_data),
            server_field_data.has_object(parent),
            rest@.len() <= given.len(),
            forall|i: int|
                0 <= i < rest@.len() ==> #[trigger] rest@[i] == given[given.len() - 1 - i],
            errors@ == start + selection_set_failures(
                server_fields@,
                *server_field_data,
                *client_field_name,
                parent,
                given,
                (given.len() - rest@.len()) as nat,
            ),
            all_resolved <==> selection_set_failures(
                server_fields@,
                *server_field_data,
                *client_field_name,
                parent,
                given,
                (given.len() - rest@.len()) as nat,
            ).len() == 0,
            all_resolved ==> resolved@.len() == given.len() - rest@.len(),
            all_resolved ==> forall|i: int|
                0 <= i < resolved@.len() ==> {
                    &&& (#[trigger] resolved@[i]).span == given[i].span
                    &&& is_resolved_selection(
                        server_fields@,
                        *server_field_data,
                        parent,
                        given[i].item,
                        resolved@[i].item,
                    )
                },
        decreases rest@.len(),
    {
        let with_span = rest.pop().unwrap();
        let validated = validate_selection(
            server_fields,
            server_field_data,
            client_field_name,
            parent,
            with_span.item,
            errors,
        );
        match validated {
            Some(resolved_selection) => {
                if all_resolved {
                    resolved.push(WithSpan::new(resolved_selection, with_span.span));
                }
            },
            None => {
                all_resolved = false;
            },
        }
    }
    if all_resolved {
        Some(resolved)
    } else {
        None
    }
}

/// Whether `resolved` is the definition `definition` with the name of its
/// type resolved.
pub open spec fn is_resolved_variable_definition(
    server_field_data: ServerFieldData,
    definition: VariableDefinition<UnvalidatedTypeName>,
    resolved: VariableDefinition<SelectableServerFieldId>,
) -> bool {
    &&& resolved.name == definition.name
    &&& resolved_type_annotation(server_field_data.defined_types@, definition.type_) == Some(
        resolved.type_,
    )
}

/// The error that the type of an argument of a server field is not defined.
pub open spec fn argument_type_does_not_exist(
    server_field_data: ServerFieldData,
    field: UnvalidatedSchemaServerField,
    argument: WithLocation<VariableDefinition<UnvalidatedTypeName>>,
) -> WithLocation<ValidateSchemaError> {
    WithLocation {
        location: argument.location,
        item: ValidateSchemaError::FieldArgumentTypeDoesNotExist {
            parent_type_name: server_field_data.spec_object(field.parent_type_id).name,
            field_name: field.name.item,
            argument_name: argument.item.name.item,
            argument_type: argument.item.type_.spec_inner(),
        },
    }
}

/// The errors of the first `count` arguments of a server field, in their
/// order: one for each argument whose type is not defined.
pub open spec fn argument_failures(
    server_field_data: ServerFieldData,
    field: UnvalidatedSchemaServerField,
    count: nat,
) -> Seq<WithLocation<ValidateSchemaError>>
    decreases count,
{
    if count == 0 || count > field.arguments@.len() {
        Seq::empty()
    } else {
        let argument = field.arguments@[count - 1];
        argument_failures(server_field_data, field, (count - 1) as nat)
            + if resolved_type_annotation(
            server_field_data.defined_types@,
            argument.item.type_,
        ) is Some {
            Seq::empty()
        } else {
            seq![argument_type_does_not_exist(server_field_data, field, argument)]
        }
    }
}

/// The error that the type of a server field is not defined.
pub open spec fn field_type_does_not_exist(
    server_field_data: ServerFieldData,
    field: UnvalidatedSchemaServerField,
) -> WithLocation<ValidateSchemaError> {
    WithLocation {
        location: field.name.location,
        item: ValidateSchemaError::FieldTypenameDoesNotExist {
            parent_type_name: server_field_data.spec_object(field.parent_type_id).name,
            field_name: field.name.item,
            field_type: field.associated_data.spec_inner(),
        },
    }
}

/// The errors of a server field: that its type is not defined, then the
/// errors of its arguments.
pub open spec fn server_field_failures(
    server_field_data: ServerFieldData,
    field: UnvalidatedSchemaServerField,
) -> Seq<WithLocation<ValidateSchemaError>> {
    (if resolved_type_annotation(server_field_data.defined_types@, field.associated_data)
        is Some {
        Seq::empty()
    } else {
        seq![field_type_does_not_exist(server_field_data, field)]
    }) + argument_failures(server_field_data, field, field.arguments@.len())
}

/// Whether `resolved` is the server field `field` with the names of its type
/// and of the types of its arguments resolved, and nothing else changed.
pub open spec fn is_resolved_server_field(
    server_field_data: ServerFieldData,
    field: UnvalidatedSchemaServerField,
    resolved: ValidatedSchemaServerField,
) -> bool {
    &&& resolved.description == field.description
    &&& resolved.name == field.name
    &&& resolved.id == field.id
    &&& resolved.parent_type_id == field.parent_type_id
    &&& resolved.is_discriminator == field.is_discriminator
    &&& resolved.variant == field.variant
    &&& resolved_type_annotation(server_field_data.defined_types@, field.associated_data) == Some(
        resolved.associated_data,
    )
    &&& resolved.arguments@.len() == field.arguments@.len()
    &&& forall|i: int|
        0 <= i < field.arguments@.len() ==> {
            &&& (#[trigger] resolved.arguments@[i]).location == field.arguments@[i].location
            &&& is_resolved_variable_definition(
                server_field_data,
                field.arguments@[i].item,
                resolved.arguments@[i].item,
            )
        }
}

/// Resolves the type of a server field and the types of its arguments. The
/// errors of the field are added to `errors`; the resolved field is returned
/// if there are none.
pub fn validate_server_field(
    server_field_data: &ServerFieldData,
    field: UnvalidatedSchemaServerField,
    errors: &mut Vec<WithLocation<ValidateSchemaError>>,
) -> (resolved: Option<ValidatedSchemaServerField>)
    requires
        server_field_data.has_object(field.parent_type_id),
    ensures
        final(errors)@ == old(errors)@ + server_field_failures(*server_field_data, field),
        resolved is Some <==> server_field_failures(*server_field_data, field).len() == 0,
        resolved matches Some(resolved_field) ==> is_resolved_server_field(
            *server_field_data,
            field,
            resolved_field,
        ),
{
    let ghost start = errors@;
    let SchemaServerField {
        description,
        name,
        id,
        associated_data,
        parent_type_id,
        arguments,
        is_discriminator,
        variant,
    } = field;
    let resolved_type = match resolve_type_annotation(server_field_data, associated_data) {
        Ok(resolved_type) => Some(resolved_type),
        Err(field_type) => {
            errors.push(
                WithLocation::new(
                    ValidateSchemaError::FieldTypenameDoesNotExist {
                        parent_type_name: server_field_data.object(parent_type_id).name.clone(),
                        field_name: name.item.clone(),
                        field_type,
                    },
                    name.location.clone(),
                ),
            );
            None
        },
    };
    let ghost of_type = if resolved_type is Some {
        Seq::<WithLocation<ValidateSchemaError>>::empty()
    } else {
        seq![field_type_does_not_exist(*server_field_data, field)]
    };
    let ghost given = arguments@;
    let mut rest = reversed(arguments);
    let mut resolved_arguments: Vec<WithLocation<VariableDefinition<SelectableServerFieldId>>> =
        Vec::new();
    let mut all_resolved = true;
    while rest.len() > 0
        invariant
            given == field.arguments@,
            server_field_data.has_object(field.parent_type_id),
            parent_type_id == field.parent_type_id,
            name == field.name,
            rest@.len() <= given.len(),
            forall|i: int|
                0 <= i < rest@.len() ==> #[trigger] rest@[i] == given[given.len() - 1 - i],
            errors@ == start + (of_type + argument_failures(
                *server_field_data,
                field,
                (given.len() - rest@.len()) as nat,
            )),
            all_resolved <==> argument_failures(
                *server_field_data,
                field,
                (given.len() - rest@.len()) as nat,
            ).len() == 0,
            all_resolved ==> resolved_arguments@.len() == given.len() - rest@.len(),
            all_resolved ==> forall|i: int|
                0 <= i < resolved_arguments@.len() ==> {
                    &&& (#[trigger] resolved_arguments@[i]).location == given[i].location
                    &&& is_resolved_variable_definition(
                        *server_field_data,
                        given[i].item,
                        resolved_arguments@[i].item,
                    )
                },
        decreases rest@.len(),
    {
        let argument = rest.pop().unwrap();
        let WithLocation { location, item } = argument;
        let VariableDefinition { name: argument_name, type_ } = item;
        match resolve_type_annotation(server_field_data, type_) {
            Ok(resolved_type) => {
                if all_resolved {
                    resolved_arguments.push(
                        WithLocation::new(
                            VariableDefinition { name: argument_name, type_: resolved_type },
                            location,
                        ),
                    );
                }
            },
            Err(argument_type) => {
                errors.push(
                    WithLocation::new(
                        ValidateSchemaError::FieldArgumentTypeDoesNotExist {
                            parent_type_name: server_field_data.object(parent_type_id).name.clone(),
                            field_name: name.item.clone(),
                            argument_name: argument_name.item,
                            argument_type,
                        },
                        location,
                    ),
                );
                all_resolved = false;
            },
        }
    }
    match resolved_type {
        Some(associated_data) => {
            if all_resolved {
                Some(
                    SchemaServerField {
                        description,
                        name,
                        id,
                        associated_data,
                        parent_type_id,
                        arguments: resolved_arguments,
                        is_discriminator,
                        variant,
                    },
                )
            } else {
                None
            }
        },
        None => None,
    }
}

/// A client field before validation.
pub type UnvalidatedClientField = ClientField<(), (), UnvalidatedTypeName>;

/// A client field of a validated schema.
pub type ValidatedClientField = ClientField<
    ValidatedScalarFieldAssociatedData,
    ValidatedLinkedFieldAssociatedData,
    SelectableServerFieldId,
>;

/// The error that the type of a variable of a client field is not defined.
pub open spec fn variable_type_does_not_exist(
    field: UnvalidatedClientField,
    definition: WithSpan<VariableDefinition<UnvalidatedTypeName>>,
) -> WithLocation<ValidateSchemaError> {
    WithLocation {
        location: definition.item.name.location,
        item: ValidateSchemaError::VariableDefinitionInnerTypeDoesNotExist {
            client_field_name: field.name,
            variable_name: definition.item.name.item,
            variable_type: definition.item.type_.spec_inner(),
        },
    }
}

/// The errors of the first `count` variable definitions of a client field,
/// in their order: one for each variable whose type is not defined.
pub open spec fn variable_definition_failures(
    server_field_data: ServerFieldData,
    field: UnvalidatedClientField,
    count: nat,
) -> Seq<WithLocation<ValidateSchemaError>>
    decreases count,
{
    if count == 0 || count > field.variable_definitions@.len() {
        Seq::empty()
    } else {
        let definition = field.variable_definitions@[count - 1];
        variable_definition_failures(server_field_data, field, (count - 1) as nat)
            + if resolved_type_annotation(
            server_field_data.defined_types@,
            definition.item.type_,
        ) is Some {
            Seq::empty()
        } else {
            seq![variable_type_does_not_exist(field, definition)]
        }
    }
}

/// The errors of the reader selection set of a client field.
pub open spec fn reader_failures(
    server_fields: Seq<UnvalidatedSchemaServerField>,
    server_field_data: ServerFieldData,
    field: UnvalidatedClientField,
) -> Seq<WithLocation<ValidateSchemaError>> {
    match field.reader_selection_set {
        Some(selection_set) => selection_set_failures(
            server_fields,
            server_field_data,
            field.name,
            field.parent_object_id,
            selection_set@,
            selection_set@.len(),
        ),
        None => Seq::empty(),
    }
}

/// The errors of the selection set with which a client field is fetched
/// anew.
pub open spec fn refetch_failures(
    server_fields: Seq<UnvalidatedSchemaServerField>,
    server_field_data: ServerFieldData,
    field: UnvalidatedClientField,
) -> Seq<WithLocation<ValidateSchemaError>> {
    match field.refetch_strategy {
        Some(RefetchStrategy::UseRefetchField(strategy)) => selection_set_failures(
            server_fields,
            server_field_data,
            field.name,
            field.parent_object_id,
            strategy.refetch_selection_set@,
            strategy.refetch_selection_set@.len(),
        ),
        None => Seq::empty(),
    }
}

/// The errors of a client field: those of its reader selection set, of its
/// refetch strategy and of its variable definitions, in this order.
pub open spec fn client_field_failures(
    server_fields: Seq<UnvalidatedSchemaServerField>,
    server_field_data: ServerFieldData,
    field: UnvalidatedClientField,
) -> Seq<WithLocation<ValidateSchemaError>> {
    reader_failures(server_fields, server_field_data, field) + refetch_failures(
        server_fields,
        server_field_data,
        field,
    ) + variable_definition_failures(
        server_field_data,
        field,
        field.variable_definitions@.len(),
    )
}

/// Whether `resolved` is the client field `field` with its selections
/// resolved on its parent and the types of its variables resolved, and
/// nothing else changed.
pub open spec fn is_resolved_client_field(
    server_fields: Seq<UnvalidatedSchemaServerField>,
    server_field_data: ServerFieldData,
    field: UnvalidatedClientField,
    resolved: ValidatedClientField,
) -> bool {
    &&& resolved.description == field.description
    &&& resolved.name == field.name
    &&& resolved.id == field.id
    &&& resolved.unwraps == field.unwraps
    &&& resolved.variant == field.variant
    &&& resolved.type_and_field == field.type_and_field
    &&& resolved.parent_object_id == field.parent_object_id
    &&& match (field.reader_selection_set, resolved.reader_selection_set) {
        (Some(selection_set), Some(resolved_set)) => is_resolved_selection_set(
            server_fields,
            server_field_data,
            field.parent_object_id,
            selection_set@,
            resolved_set@,
        ),
        (None, None) => true,
        _ => false,
    }
    &&& match (field.refetch_strategy, resolved.refetch_strategy) {
        (
            Some(RefetchStrategy::UseRefetchField(strategy)),
            Some(RefetchStrategy::UseRefetchField(resolved_strategy)),
        ) => {
            &&& resolved_strategy.root_fetchable_type == strategy.root_fetchable_type
            &&& is_resolved_selection_set(
                server_fields,
                server_field_data,
                field.parent_object_id,
                strategy.refetch_selection_set@,
                resolved_strategy.refetch_selection_set@,
            )
        },
        (None, None) => true,
        _ => false,
    }
    &&& resolved.variable_definitions@.len() == field.variable_definitions@.len()
    &&& forall|i: int|
        0 <= i < field.variable_definitions@.len() ==> {
            &&& (#[trigger] resolved.variable_definitions@[i]).span
                == field.variable_definitions@[i].span
            &&& is_resolved_variable_definition(
                server_field_data,
                field.variable_definitions@[i].item,
                resolved.variable_definitions@[i].item,
            )
        }
}

/// Resolves the selections of a client field on its parent, and the types of
/// its variables. The errors of the field are added to `errors`; the
/// resolved field is returned if there are none.
pub fn validate_client_field(
    server_fields: &Vec<UnvalidatedSchemaServerField>,
    server_field_data: &ServerFieldData,
    field: UnvalidatedClientField,
    errors: &mut Vec<WithLocation<ValidateSchemaError>>,
) -> (resolved: Option<ValidatedClientField>)
    requires
        is_resolvable_against(server_fields@, *server_field_data),
        server_field_data.has_object(field.parent_object_id),
    ensures
        final(errors)@ == old(errors)@ + client_field_failures(
            server_fields@,
            *server_field_data,
            field,
        ),
        resolved is Some <==> client_field_failures(server_fields@, *server_field_data, field).len()
            == 0,
        resolved matches Some(resolved_field) ==> is_resolved_client_field(
            server_fields@,
            *server_field_data,
            field,
            resolved_field,
        ),
{
    let ghost start = errors@;
    let ghost of_reader = reader_failures(server_fields@, *server_field_data, field);
    let ghost of_refetch = refetch_failures(server_fields@, *server_field_data, field);
    let ClientField {
        description,
        name,
        id,
        reader_selection_set,
        refetch_strategy,
        unwraps,
        variant,
        variable_definitions,
        type_and_field,
        parent_object_id,
    } = field;
    let mut all_resolved = true;
    let resolved_reader = match reader_selection_set {
        Some(selection_set) => {
            let resolved_set = validate_selection_set(
                server_fields,
                server_field_data,
                &name,
                parent_object_id,
                selection_set,
                errors,
            );
            if resolved_set.is_none() {
                all_resolved = false;
            }
            resolved_set
        },
        None => {
            None
        },
    };
    let resolved_refetch = match refetch_strategy {
        Some(RefetchStrategy::UseRefetchField(strategy)) => {
            let UseRefetchFieldRefetchStrategy { root_fetchable_type, refetch_selection_set } =
                strategy;
            match validate_selection_set(
                server_fields,
                server_field_data,
                &name,
                parent_object_id,
                refetch_selection_set,
                errors,
            ) {
                Some(resolved_set) => Some(
                    RefetchStrategy::UseRefetchField(
                        UseRefetchFieldRefetchStrategy {
                            root_fetchable_type,
                            refetch_selection_set: resolved_set,
                        },
                    ),
                ),
                None => {
                    all_resolved = false;
                    None
                },
            }
        },
        None => {
            None
        },
    };
    let ghost given = variable_definitions@;
    let mut rest = reversed(variable_definitions);
    let mut resolved_definitions: Vec<WithSpan<VariableDefinition<SelectableServerFieldId>>> =
        Vec::new();
    let mut definitions_resolved = true;
    while rest.len() > 0
        invariant
            given == field.variable_definitions@,
            name == field.name,
            rest@.len() <= given.len(),
            forall|i: int|
                0 <= i < rest@.len() ==> #[trigger] rest@[i] == given[given.len() - 1 - i],
            errors@ == start + of_reader + of_refetch + variable_definition_failures(
                *server_field_data,
                field,
                (given.len() - rest@.len()) as nat,
            ),
            definitions_resolved <==> variable_definition_failures(
                *server_field_data,
                field,
                (given.len() - rest@.len()) as nat,
            ).len() == 0,
            definitions_resolved ==> resolved_definitions@.len() == given.len() - rest@.len(),
            definitions_resolved ==> forall|i: int|
                0 <= i < resolved_definitions@.len() ==> {
                    &&& (#[trigger] resolved_definitions@[i]).span == given[i].span
                    &&& is_resolved_variable_definition(
                        *server_field_data,
                        given[i].item,
                        resolved_definitions@[i].item,
                    )
                },
        decreases rest@.len(),
    {
        let definition = rest.pop().unwrap();
        let WithSpan { item, span } = definition;
        let VariableDefinition { name: variable_name, type_ } = item;
        match resolve_type_annotation(server_field_data, type_) {
            Ok(resolved_type) => {
                if definitions_resolved {
                    resolved_definitions.push(
                        WithSpan::new(
                            VariableDefinition { name: variable_name, type_: resolved_type },
                            span,
                        ),
                    );
                }
            },
            Err(variable_type) => {
                errors.push(
                    WithLocation::new(
                        ValidateSchemaError::VariableDefinitionInnerTypeDoesNotExist {
                            client_field_name: name.clone(),
                            variable_name: variable_name.item,
                            variable_type,
                        },
                        variable_name.location,
                    ),
                );
                definitions_resolved = false;
            },
        }
    }
    if all_resolved && definitions_resolved {
        Some(
            ClientField {
                description,
                name,
                id,
                reader_selection_set: resolved_reader,
                refetch_strategy: resolved_refetch,
                unwraps,
                variant,
                variable_definitions: resolved_definitions,
                type_and_field,
                parent_object_id,
            },
        )
    } else {
        None
    }
}

/// Whether a server field has the shape of an id field: a bare named type,
/// without wrappers, and no arguments.
pub open spec fn has_shape_of_id_field(field: UnvalidatedSchemaServerField) -> bool {
    field.associated_data is Named && field.arguments@.len() == 0
}

/// The internal fault that the id field of an object has not the shape of
/// one.
pub open spec fn invalid_id_field(field: UnvalidatedSchemaServerField) -> WithLocation<
    ValidateSchemaError,
> {
    WithLocation {
        location: field.name.location,
        item: ValidateSchemaError::Internal(
            InternalConsistencyError::ExpectedIdFieldToBeValid { field_name: field.name.item },
        ),
    }
}

/// The finding that the id field of an object is not of the type `ID`.
pub open spec fn id_field_must_be_id_type(
    object: SchemaObject,
    field: UnvalidatedSchemaServerField,
) -> WithLocation<ValidateSchemaError> {
    WithLocation {
        location: field.name.location,
        item: ValidateSchemaError::IdFieldMustBeIdType {
            parent_type: object.name,
            field_name: field.name.item,
        },
    }
}

/// What is found of the id field of an object at the level `level`, as
/// errors if `as_errors` and as warnings if not. An id field that has not
/// the shape of one is always an error. An id field of another type than
/// `ID` is an error at the level `Error`, a warning at the level `Warn`, and
/// nothing at the level `Ignore`.
pub open spec fn id_field_findings(
    server_fields: Seq<UnvalidatedSchemaServerField>,
    object: SchemaObject,
    level: OptionalValidationLevel,
    as_errors: bool,
) -> Seq<WithLocation<ValidateSchemaError>> {
    match object.id_field {
        None => Seq::empty(),
        Some(id_field_id) => {
            let field = server_fields[id_field_id.0 as int];
            if !has_shape_of_id_field(field) {
                if as_errors {
                    seq![invalid_id_field(field)]
                } else {
                    Seq::empty()
                }
            } else if field.associated_data.spec_inner()@ != ID_GRAPHQL_TYPE@ && level == (
            if as_errors {
                OptionalValidationLevel::Error
            } else {
                OptionalValidationLevel::Warn
            }) {
                seq![id_field_must_be_id_type(object, field)]
            } else {
                Seq::empty()
            }
        },
    }
}

/// Checks the id field of an object, if it has one: its shape, and at the
/// level `on_invalid_id_type` its type. See `id_field_findings`.
pub fn validate_id_field(
    server_fields: &Vec<UnvalidatedSchemaServerField>,
    object: &SchemaObject,
    on_invalid_id_type: OptionalValidationLevel,
    errors: &mut Vec<WithLocation<ValidateSchemaError>>,
    warnings: &mut Vec<WithLocation<ValidateSchemaError>>,
)
    requires
        object.id_field matches Some(id_field_id) ==> id_field_id.0 < server_fields@.len(),
    ensures
        final(errors)@ == old(errors)@ + id_field_findings(
            server_fields@,
            *object,
            on_invalid_id_type,
            true,
        ),
        final(warnings)@ == old(warnings)@ + id_field_findings(
            server_fields@,
            *object,
            on_invalid_id_type,
            false,
        ),
{
    let id_field_id = match object.id_field {
        None => {
            return ;
        },
        Some(id_field_id) => id_field_id,
    };
    let field = &server_fields[id_field_id.as_usize()];
    let is_named = match &field.associated_data {
        GraphQLTypeAnnotation::Named(_) => true,
        _ => false,
    };
    if !(is_named && field.arguments.len() == 0) {
        let fault = WithLocation::new(
            ValidateSchemaError::Internal(
                InternalConsistencyError::ExpectedIdFieldToBeValid {
                    field_name: field.name.item.clone(),
                },
            ),
            field.name.location.clone(),
        );
        errors.push(fault);
        return ;
    }
    let id_type = String::from_str(ID_GRAPHQL_TYPE);
    if *field.associated_data.inner() != id_type {
        let finding = WithLocation::new(
            ValidateSchemaError::IdFieldMustBeIdType {
                parent_type: object.name.clone(),
                field_name: field.name.item.clone(),
            },
            field.name.location.clone(),
        );
        let ghost expected = finding;
        let make = move || -> (made: WithLocation<ValidateSchemaError>)
            ensures
                made == expected,
            { finding };
        match on_invalid_id_type.on_failure(make) {
            Ok(None) => {},
            Ok(Some(warning)) => {
                warnings.push(warning);
            },
            Err(error) => {
                errors.push(error);
            },
        }
    }
}

/// What is found of the id fields of the first `count` objects, in their
/// order. See `id_field_findings`.
pub open spec fn all_id_field_findings(
    server_fields: Seq<UnvalidatedSchemaServerField>,
    objects: Seq<SchemaObject>,
    level: OptionalValidationLevel,
    as_errors: bool,
    count: nat,
) -> Seq<WithLocation<ValidateSchemaError>>
    decreases count,
{
    if count == 0 || count > objects.len() {
        Seq::empty()
    } else {
        all_id_field_findings(server_fields, objects, level, as_errors, (count - 1) as nat)
            + id_field_findings(server_fields, objects[count - 1], level, as_errors)
    }
}

/// Whether the id field of every object that has one is a stored server
/// field.
pub open spec fn id_fields_are_stored(
    server_fields: Seq<UnvalidatedSchemaServerField>,
    objects: Seq<SchemaObject>,
) -> bool {
    forall|i: int|
        0 <= i < objects.len() ==> match (#[trigger] objects[i]).id_field {
            Some(id_field_id) => id_field_id.0 < server_fields.len(),
            None => true,
        }
}

/// Checks the id field of every object. See `all_id_field_findings`.
pub fn validate_id_fields(
    server_fields: &Vec<UnvalidatedSchemaServerField>,
    server_field_data: &ServerFieldData,
    on_invalid_id_type: OptionalValidationLevel,
    errors: &mut Vec<WithLocation<ValidateSchemaError>>,
    warnings: &mut Vec<WithLocation<ValidateSchemaError>>,
)
    requires
        id_fields_are_stored(server_fields@, server_field_data.server_objects@),
    ensures
        final(errors)@ == old(errors)@ + all_id_field_findings(
            server_fields@,
            server_field_data.server_objects@,
            on_invalid_id_type,
            true,
            server_field_data.server_objects@.len(),
        ),
        final(warnings)@ == old(warnings)@ + all_id_field_findings(
            server_fields@,
            server_field_data.server_objects@,
            on_invalid_id_type,
            false,
            server_field_data.server_objects@.len(),
        ),
{
    let ghost objects = server_field_data.server_objects@;
    let mut index: usize = 0;
    while index < server_field_data.server_objects.len()
        invariant
            objects == server_field_data.server_objects@,
            index <= objects.len(),
            id_fields_are_stored(server_fields@, objects),
            errors@ == old(errors)@ + all_id_field_findings(
                server_fields@,
                objects,
                on_invalid_id_type,
                true,
                index as nat,
            ),
            warnings@ == old(warnings)@ + all_id_field_findings(
                server_fields@,
                objects,
                on_invalid_id_type,
                false,
                index as nat,
            ),
        decreases objects.len() - index,
    {
        let object = &server_field_data.server_objects[index];
        validate_id_field(server_fields, object, on_invalid_id_type, errors, warnings);
        index += 1;
    }
}

/// An entrypoint before validation: the text that declares it, and the
/// names of the type and of the client field that it starts at.
pub type UnvalidatedEntrypoint = (TextSource, WithSpan<ObjectTypeAndFieldName>);

/// The place of an entrypoint in its text.
pub open spec fn entrypoint_location(entrypoint: UnvalidatedEntrypoint) -> Location {
    Location::Embedded(EmbeddedLocation { text_source: entrypoint.0, span: entrypoint.1.span })
}

/// The object that an entrypoint names, if its type is defined as an object.
pub open spec fn entrypoint_object(
    server_field_data: ServerFieldData,
    entrypoint: UnvalidatedEntrypoint,
) -> Option<ServerObjectId> {
    let types = server_field_data.defined_types@;
    let name = entrypoint.1.item.object_type_name@;
    if types.contains_key(name) {
        match types[name] {
            SelectableServerFieldId::Object(object_id) => Some(object_id),
            SelectableServerFieldId::Scalar(_) => None,
        }
    } else {
        None
    }
}

/// The client field that an entrypoint names, if its type is defined as an
/// object and the field is a client field of that object.
pub open spec fn resolved_entrypoint(
    server_field_data: ServerFieldData,
    entrypoint: UnvalidatedEntrypoint,
) -> Option<ClientFieldId> {
    match entrypoint_object(server_field_data, entrypoint) {
        None => None,
        Some(object_id) => {
            let fields = server_field_data.spec_object(object_id).encountered_fields@;
            let name = entrypoint.1.item.field_name@;
            if fields.contains_key(name) {
                match fields[name] {
                    FieldDefinitionLocation::Client(client_field_id) => Some(client_field_id),
                    FieldDefinitionLocation::Server(_) => None,
                }
            } else {
                None
            }
        },
    }
}

/// The error of an entrypoint, if it has one: that its type is not defined
/// as an object, or that its field is no client field of that type.
pub open spec fn entrypoint_failures(
    server_field_data: ServerFieldData,
    entrypoint: UnvalidatedEntrypoint,
) -> Seq<WithLocation<ValidateSchemaError>> {
    if entrypoint_object(server_field_data, entrypoint) is None {
        seq![
            WithLocation {
                location: entrypoint_location(entrypoint),
                item: ValidateSchemaError::EntrypointTypeDoesNotExist {
                    object_type_name: entrypoint.1.item.object_type_name,
                },
            },
        ]
    } else if resolved_entrypoint(server_field_data, entrypoint) is None {
        seq![
            WithLocation {
                location: entrypoint_location(entrypoint),
                item: ValidateSchemaError::EntrypointFieldDoesNotExist {
                    object_type_name: entrypoint.1.item.object_type_name,
                    field_name: entrypoint.1.item.field_name,
                },
            },
        ]
    } else {
        Seq::empty()
    }
}

/// Resolves an entrypoint to the client field that it names. The error of
/// the entrypoint is added to `errors`; the client field's id is returned if
/// there is none.
pub fn validate_entrypoint(
    server_field_data: &ServerFieldData,
    entrypoint: UnvalidatedEntrypoint,
    errors: &mut Vec<WithLocation<ValidateSchemaError>>,
) -> (resolved: Option<ClientFieldId>)
    requires
        server_field_data.is_valid(),
    ensures
        final(errors)@ == old(errors)@ + entrypoint_failures(*server_field_data, entrypoint),
        resolved == if entrypoint_failures(*server_field_data, entrypoint).len() == 0 {
            resolved_entrypoint(*server_field_data, entrypoint)
        } else {
            None
        },
        resolved is Some <==> entrypoint_failures(*server_field_data, entrypoint).len() == 0,
{
    let (text_source, names) = entrypoint;
    let WithSpan { item, span } = names;
    let ObjectTypeAndFieldName { object_type_name, field_name } = item;
    let object_id = match server_field_data.lookup_type_by_name(object_type_name.as_str()) {
        Some(SelectableServerFieldId::Object(object_id)) => object_id,
        _ => {
            let error = WithLocation::new(
                ValidateSchemaError::EntrypointTypeDoesNotExist { object_type_name },
                Location::new(text_source, span),
            );
            errors.push(error);
            return None;
        },
    };
    match server_field_data.lookup_field_by_name(object_id, field_name.as_str()) {
        Some(FieldDefinitionLocation::Client(client_field_id)) => {
            Some(client_field_id)
        },
        _ => {
            let error = WithLocation::new(
                ValidateSchemaError::EntrypointFieldDoesNotExist { object_type_name, field_name },
                Location::new(text_source, span),
            );
            errors.push(error);
            None
        },
    }
}

/// The errors of the first `count` server fields, in their order.
pub open spec fn all_server_field_failures(
    server_field_data: ServerFieldData,
    server_fields: Seq<UnvalidatedSchemaServerField>,
    count: nat,
) -> Seq<WithLocation<ValidateSchemaError>>
    decreases count,
{
    if count == 0 || count > server_fields.len() {
        Seq::empty()
    } else {
        all_server_field_failures(server_field_data, server_fields, (count - 1) as nat)
            + server_field_failures(server_field_data, server_fields[count - 1])
    }
}

/// Resolves the types of all server fields. The errors of all fields are
/// added to `errors`, in the order of the fields; the resolved fields are
/// returned if there are none.
pub fn validate_server_fields(
    server_field_data: &ServerFieldData,
    server_fields: Vec<UnvalidatedSchemaServerField>,
    errors: &mut Vec<WithLocation<ValidateSchemaError>>,
) -> (resolved: Option<Vec<ValidatedSchemaServerField>>)
    requires
        forall|i: int|
            0 <= i < server_fields@.len() ==> server_field_data.has_object(
                (#[trigger] server_fields@[i]).parent_type_id,
            ),
    ensures
        final(errors)@ == old(errors)@ + all_server_field_failures(
            *server_field_data,
            server_fields@,
            server_fields@.len(),
        ),
        resolved is Some <==> all_server_field_failures(
            *server_field_data,
            server_fields@,
            server_fields@.len(),
        ).len() == 0,
        resolved matches Some(resolved_fields) ==> {
            &&& resolved_fields@.len() == server_fields@.len()
            &&& forall|i: int|
                0 <= i < server_fields@.len() ==> is_resolved_server_field(
                    *server_field_data,
                    server_fields@[i],
                    #[trigger] resolved_fields@[i],
                )
        },
{
    let ghost given = server_fields@;
    let ghost start = errors@;
    let mut rest = reversed(server_fields);
    let mut resolved: Vec<ValidatedSchemaServerField> = Vec::new();
    let mut all_resolved = true;
    while rest.len() > 0
        invariant
            given == server_fields@,
            start == old(errors)@,
            forall|i: int|
                0 <= i < given.len() ==> server_field_data.has_object(
                    (#[trigger] given[i]).parent_type_id,
                ),
            rest@.len() <= given.len(),
            forall|i: int|
                0 <= i < rest@.len() ==> #[trigger] rest@[i] == given[given.len() - 1 - i],
            errors@ == start + all_server_field_failures(
                *server_field_data,
                given,
                (given.len() - rest@.len()) as nat,
            ),
            all_resolved <==> all_server_field_failures(
                *server_field_data,
                given,
                (given.len() - rest@.len()) as nat,
            ).len() == 0,
            all_resolved ==> resolved@.len() == given.len() - rest@.len(),
            all_resolved ==> forall|i: int|
                0 <= i < resolved@.len() ==> is_resolved_server_field(
                    *server_field_data,
                    given[i],
                    #[trigger] resolved@[i],
                ),
        decreases rest@.len(),
    {
        let field = rest.pop().unwrap();
        match validate_server_field(server_field_data, field, errors) {
            Some(resolved_field) => {
                if all_resolved {
                    resolved.push(resolved_field);
                }
            },
            None => {
                all_resolved = false;
            },
        }
    }
    if all_resolved {
        Some(resolved)
    } else {
        None
    }
}

/// The errors of the first `count` client fields, in their order.
pub open spec fn all_client_field_failures(
    server_fields: Seq<UnvalidatedSchemaServerField>,
    server_field_data: ServerFieldData,
    client_fields: Seq<UnvalidatedClientField>,
    count: nat,
) -> Seq<WithLocation<ValidateSchemaError>>
    decreases count,
{
    if count == 0 || count > client_fields.len() {
        Seq::empty()
    } else {
        all_client_field_failures(
            server_fields,
            server_field_data,
            client_fields,
            (count - 1) as nat,
        ) + client_field_failures(server_fields, server_field_data, client_fields[count - 1])
    }
}

/// Resolves the references of all client fields. The errors of all fields
/// are added to `errors`, in the order of the fields; the resolved fields
/// are returned if there are none.
pub fn validate_client_fields(
    server_fields: &Vec<UnvalidatedSchemaServerField>,
    server_field_data: &ServerFieldData,
    client_fields: Vec<UnvalidatedClientField>,
    errors: &mut Vec<WithLocation<ValidateSchemaError>>,
) -> (resolved: Option<Vec<ValidatedClientField>>)
    requires
        is_resolvable_against(server_fields@, *server_field_data),
        forall|i: int|
            0 <= i < client_fields@.len() ==> server_field_data.has_object(
                (#[trigger] client_fields@[i]).parent_object_id,
            ),
    ensures
        final(errors)@ == old(errors)@ + all_client_field_failures(
            server_fields@,
            *server_field_data,
            client_fields@,
            client_fields@.len(),
        ),
        resolved is Some <==> all_client_field_failures(
            server_fields@,
            *server_field_data,
            client_fields@,
            client_fields@.len(),
        ).len() == 0,
        resolved matches Some(resolved_fields) ==> {
            &&& resolved_fields@.len() == client_fields@.len()
            &&& forall|i: int|
                0 <= i < client_fields@.len() ==> is_resolved_client_field(
                    server_fields@,
                    *server_field_data,
                    client_fields@[i],
                    #[trigger] resolved_fields@[i],
                )
        },
{
    let ghost given = client_fields@;
    let ghost start = errors@;
    let mut rest = reversed(client_fields);
    let mut resolved: Vec<ValidatedClientField> = Vec::new();
    let mut all_resolved = true;
    while rest.len() > 0
        invariant
            given == client_fields@,
            start == old(errors)@,
            is_resolvable_against(server_fields@, *server_field_data),
            forall|i: int|
                0 <= i < given.len() ==> server_field_data.has_object(
                    (#[trigger] given[i]).parent_object_id,
                ),
            rest@.len() <= given.len(),
            forall|i: int|
                0 <= i < rest@.len() ==> #[trigger] rest@[i] == given[given.len() - 1 - i],
            errors@ == start + all_client_field_failures(
                server_fields@,
                *server_field_data,
                given,
                (given.len() - rest@.len()) as nat,
            ),
            all_resolved <==> all_client_field_failures(
                server_fields@,
                *server_field_data,
                given,
                (given.len() - rest@.len()) as nat,
            ).len() == 0,
            all_resolved ==> resolved@.len() == given.len() - rest@.len(),
            all_resolved ==> forall|i: int|
                0 <= i < resolved@.len() ==> is_resolved_client_field(
                    server_fields@,
                    *server_field_data,
                    given[i],
                    #[trigger] resolved@[i],
                ),
        decreases rest@.len(),
    {
        let field = rest.pop().unwrap();
        match validate_client_field(server_fields, server_field_data, field, errors) {
            Some(resolved_field) => {
                if all_resolved {
                    resolved.push(resolved_field);
                }
            },
            None => {
                all_resolved = false;
            },
        }
    }
    if all_resolved {
        Some(resolved)
    } else {
        None
    }
}

/// The errors of the first `count` entrypoints, in their order.
pub open spec fn all_entrypoint_failures(
    server_field_data: ServerFieldData,
    entrypoints: Seq<UnvalidatedEntrypoint>,
    count: nat,
) -> Seq<WithLocation<ValidateSchemaError>>
    decreases count,
{
    if count == 0 || count > entrypoints.len() {
        Seq::empty()
    } else {
        all_entrypoint_failures(server_field_data, entrypoints, (count - 1) as nat)
            + entrypoint_failures(server_field_data, entrypoints[count - 1])
    }
}

/// Resolves all entrypoints. The errors of all entrypoints are added to
/// `errors`, in their order; the client fields that the entrypoints name are
/// returned if there are none.
pub fn validate_entrypoints(
    server_field_data: &ServerFieldData,
    entrypoints: Vec<UnvalidatedEntrypoint>,
    errors: &mut Vec<WithLocation<ValidateSchemaError>>,
) -> (resolved: Option<Vec<ClientFieldId>>)
    requires
        server_field_data.is_valid(),
    ensures
        final(errors)@ == old(errors)@ + all_entrypoint_failures(
            *server_field_data,
            entrypoints@,
            entrypoints@.len(),
        ),
        resolved is Some <==> all_entrypoint_failures(
            *server_field_data,
            entrypoints@,
            entrypoints@.len(),
        ).len() == 0,
        resolved matches Some(resolved_entrypoints) ==> {
            &&& resolved_entrypoints@.len() == entrypoints@.len()
            &&& forall|i: int|
                0 <= i < entrypoints@.len() ==> resolved_entrypoint(
                    *server_field_data,
                    entrypoints@[i],
                ) == Some(#[trigger] resolved_entrypoints@[i])
        },
{
    let ghost given = entrypoints@;
    let ghost start = errors@;
    let mut rest = reversed(entrypoints);
    let mut resolved: Vec<ClientFieldId> = Vec::new();
    let mut all_resolved = true;
    while rest.len() > 0
        invariant
            given == entrypoints@,
            start == old(errors)@,
            server_field_data.is_valid(),
            rest@.len() <= given.len(),
            forall|i: int|
                0 <= i < rest@.len() ==> #[trigger] rest@[i] == given[given.len() - 1 - i],
            errors@ == start + all_entrypoint_failures(
                *server_field_data,
                given,
                (given.len() - rest@.len()) as nat,
            ),
            all_resolved <==> all_entrypoint_failures(
                *server_field_data,
                given,
                (given.len() - rest@.len()) as nat,
            ).len() == 0,
            all_resolved ==> resolved@.len() == given.len() - rest@.len(),
            all_resolved ==> forall|i: int|
                0 <= i < resolved@.len() ==> resolved_entrypoint(*server_field_data, given[i])
                    == Some(#[trigger] resolved@[i]),
        decreases rest@.len(),
    {
        let entrypoint = rest.pop().unwrap();
        match validate_entrypoint(server_field_data, entrypoint, errors) {
            Some(client_field_id) => {
                if all_resolved {
                    resolved.push(client_field_id);
                }
            },
            None => {
                all_resolved = false;
            },
        }
    }
    if all_resolved {
        Some(resolved)
    } else {
        None
    }
}

/// The errors of a schema at the level `level` for id fields of another
/// type than `ID`: the errors of its server fields, then what is found of the
/// id fields of its objects, then the errors of its client fields, then
/// those of its entrypoints. Every failure is in the list; none hides
/// another.
pub open spec fn schema_failures(
    schema: UnvalidatedSchema,
    level: OptionalValidationLevel,
) -> Seq<WithLocation<ValidateSchemaError>> {
    all_server_field_failures(
        schema.server_field_data,
        schema.server_fields@,
        schema.server_fields@.len(),
    ) + (all_id_field_findings(
        schema.server_fields@,
        schema.server_field_data.server_objects@,
        level,
        true,
        schema.server_field_data.server_objects@.len(),
    ) + all_client_field_failures(
        schema.server_fields@,
        schema.server_field_data,
        schema.client_fields@,
        schema.client_fields@.len(),
    ) + all_entrypoint_failures(
        schema.server_field_data,
        schema.entrypoints@,
        schema.entrypoints@.len(),
    ))
}

/// The warnings of a schema at the level `level`: one for each id field of
/// another type than `ID`, if the level is `Warn`.
pub open spec fn schema_warnings(
    schema: UnvalidatedSchema,
    level: OptionalValidationLevel,
) -> Seq<WithLocation<ValidateSchemaError>> {
    all_id_field_findings(
        schema.server_fields@,
        schema.server_field_data.server_objects@,
        level,
        false,
        schema.server_field_data.server_objects@.len(),
    )
}

/// Whether `validated` is `schema` with every reference resolved: the same
/// types, and the same fields and entrypoints in the same places, where each
/// name of a type or of a field has become the id that the name leads to.
pub open spec fn is_resolved_schema(schema: UnvalidatedSchema, validated: ValidatedSchema) -> bool {
    &&& validated.server_field_data == schema.server_field_data
    &&& validated.id_type_id == schema.id_type_id
    &&& validated.string_type_id == schema.string_type_id
    &&& validated.float_type_id == schema.float_type_id
    &&& validated.boolean_type_id == schema.boolean_type_id
    &&& validated.int_type_id == schema.int_type_id
    &&& validated.fetchable_types == schema.fetchable_types
    &&& validated.server_fields@.len() == schema.server_fields@.len()
    &&& forall|i: int|
        0 <= i < schema.server_fields@.len() ==> is_resolved_server_field(
            schema.server_field_data,
            schema.server_fields@[i],
            #[trigger] validated.server_fields@[i],
        )
    &&& validated.client_fields@.len() == schema.client_fields@.len()
    &&& forall|i: int|
        0 <= i < schema.client_fields@.len() ==> is_resolved_client_field(
            schema.server_fields@,
            schema.server_field_data,
            schema.client_fields@[i],
            #[trigger] validated.client_fields@[i],
        )
    &&& validated.entrypoints@.len() == schema.entrypoints@.len()
    &&& forall|i: int|
        0 <= i < schema.entrypoints@.len() ==> resolved_entrypoint(
            schema.server_field_data,
            schema.entrypoints@[i],
        ) == Some(#[trigger] validated.entrypoints@[i])
}

impl Schema<ValidatedSchemaState> {
    /// Takes a schema from its draft state to its validated state: resolves
    /// every name of a type and every name of a field to the id that it
    /// leads to. If anything fails, all failures of the schema are returned,
    /// and no schema. Else the validated schema is returned, with the
    /// warnings that the level `on_invalid_id_type` asks for.
    pub fn validate_and_construct(
        unvalidated_schema: UnvalidatedSchema,
        on_invalid_id_type: OptionalValidationLevel,
    ) -> (result: Result<
        (ValidatedSchema, Vec<WithLocation<ValidateSchemaError>>),
        Vec<WithLocation<ValidateSchemaError>>,
    >)
        requires
            unvalidated_schema.is_valid(),
        ensures
            match result {
                Ok((validated, warnings)) => {
                    &&& schema_failures(unvalidated_schema, on_invalid_id_type).len() == 0
                    &&& is_resolved_schema(unvalidated_schema, validated)
                    &&& warnings@ == schema_warnings(unvalidated_schema, on_invalid_id_type)
                    &&& validated.is_valid()
                },
                Err(errors) => {
                    &&& errors@ == schema_failures(unvalidated_schema, on_invalid_id_type)
                    &&& errors@.len() > 0
                },
            },
    {
        let Schema {
            server_fields,
            client_fields,
            entrypoints,
            server_field_data,
            id_type_id,
            string_type_id,
            float_type_id,
            boolean_type_id,
            int_type_id,
            fetchable_types,
        } = unvalidated_schema;
        let mut later: Vec<WithLocation<ValidateSchemaError>> = Vec::new();
        let mut warnings: Vec<WithLocation<ValidateSchemaError>> = Vec::new();
        validate_id_fields(
            &server_fields,
            &server_field_data,
            on_invalid_id_type,
            &mut later,
            &mut warnings,
        );
        let resolved_client_fields = validate_client_fields(
            &server_fields,
            &server_field_data,
            client_fields,
            &mut later,
        );
        let resolved_entrypoints = validate_entrypoints(
            &server_field_data,
            entrypoints,
            &mut later,
        );
        let mut errors: Vec<WithLocation<ValidateSchemaError>> = Vec::new();
        let resolved_server_fields = validate_server_fields(
            &server_field_data,
            server_fields,
            &mut errors,
        );
        errors.append(&mut later);
        if errors.len() > 0 {
            return Err(errors);
        }
        // No error was found, so every part was resolved.
        let server_fields = match resolved_server_fields {
            Some(server_fields) => server_fields,
            None => unreached(),
        };
        let client_fields = match resolved_client_fields {
            Some(client_fields) => client_fields,
            None => unreached(),
        };
        let entrypoints = match resolved_entrypoints {
            Some(entrypoints) => entrypoints,
            None => unreached(),
        };
        let validated = Schema {
            server_fields,
            client_fields,
            entrypoints,
            server_field_data,
            id_type_id,
            string_type_id,
            float_type_id,
            boolean_type_id,
            int_type_id,
            fetchable_types,
        };
        proof {
            assert forall|i: int| 0 <= i < validated.server_fields@.len() implies {
                &&& (#[trigger] validated.server_fields@[i]).id.0 == i
                &&& validated.server_field_data.has_object(
                    validated.server_fields@[i].parent_type_id,
                )
            } by {}
            assert forall|i: int| 0 <= i < validated.client_fields@.len() implies {
                &&& (#[trigger] validated.client_fields@[i]).id.0 == i
                &&& validated.server_field_data.has_object(
                    validated.client_fields@[i].parent_object_id,
                )
            } by {}
            assert forall|i: int|
                0 <= i < validated.server_field_data.server_objects@.len() implies match (
            #[trigger] validated.server_field_data.server_objects@[i]).id_field {
                Some(id_field_id) => validated.has_server_field(ServerFieldId(id_field_id.0)),
                None => true,
            } by {}
        }
        Ok((validated, warnings))
    }
}

} // verus!
