//! The in-memory schema: arenas of server objects, scalars, server fields and
//! client fields, which refer to one another by identifier.
//!
//! A schema is append-only. An identifier is the index at which its item was
//! stored, so no item is ever removed or put elsewhere.

use crate::ids::{
    ClientFieldId, SelectableServerFieldId, ServerFieldId, ServerObjectId, ServerScalarId,
    ServerStrongIdFieldId,
};
use crate::names::{
    ArtifactFileType, DescriptionValue, GraphQLScalarTypeName, IsographObjectTypeName,
    JavascriptName, SelectableFieldName, UnvalidatedTypeName,
};
use crate::process_type_definition_error::{
    InternalConsistencyError, ProcessTypeDefinitionError, ProcessTypeDefinitionResult,
    TypeDefinitionKind,
};
use crate::refetch_strategy::RefetchStrategy;
use crate::selection::{Selection, Unwrap, VariableDefinition};
use crate::source_location::{Location, WithLocation, WithSpan};
use crate::type_annotation::{GraphQLNamedTypeAnnotation, GraphQLTypeAnnotation};
use crate::validate_schema::ValidatedSelection;
use crate::values::{GraphQLConstantValue, GraphQLDirective};
use vstd::hash_map::StringHashMap;
use vstd::pervasive::unreached;
use vstd::prelude::*;
use vstd::std_specs::convert::TryFromSpecImpl;
use vstd::string::StringExecFns;

verus! {

/// The name of the type that an id field has to have.
pub const ID_GRAPHQL_TYPE: &'static str = "ID";

/// The types over which a schema and its fields are generic. A schema goes
/// from parsed to validated, and at each stage it holds other data in the
/// same places.
pub trait SchemaValidationState {
    /// What the type annotation of a server field holds: a type's name before
    /// validation, its id after.
    type FieldTypeAssociatedData;

    /// What a selection of a scalar field holds in a client field's selection
    /// set: nothing before validation, the field's location after.
    type ClientFieldSelectionScalarFieldAssociatedData;

    /// What a selection of a linked field holds in a client field's selection
    /// set: nothing before validation, the object it leads to after.
    type ClientFieldSelectionLinkedFieldAssociatedData;

    /// What the type annotation of a variable definition holds.
    type VariableDefinitionInnerType;

    /// What the schema stores of its entrypoints.
    type Entrypoint;
}

/// The name of the operation that a fetchable type is the root of.
#[derive(Debug, Clone)]
pub struct RootOperationName(pub String);

/// Distinguishes between fields that the server defines and fields that are
/// defined locally. Locally defined fields are not only those that a user
/// wrote in a literal: generated fields are local too.
#[derive(Debug, Clone, Copy, PartialEq, Eq)]
pub enum FieldDefinitionLocation<TServer, TClient> {
    Server(TServer),
    Client(TClient),
}

impl<TServer, TClient> FieldDefinitionLocation<TServer, TClient> {
    /// The server field, if the location is one.
    pub fn as_server_field(&self) -> (server_field: Option<&TServer>)
        ensures
            server_field == match *self {
                FieldDefinitionLocation::Server(field) => Some(&field),
                FieldDefinitionLocation::Client(_) => None,
            },
    {
        match self {
            FieldDefinitionLocation::Server(server_field) => Some(server_field),
            FieldDefinitionLocation::Client(_) => None,
        }
    }

    /// The client field, if the location is one.
    pub fn as_client_field(&self) -> (client_field: Option<&TClient>)
        ensures
            client_field == match *self {
                FieldDefinitionLocation::Server(_) => None,
                FieldDefinitionLocation::Client(field) => Some(&field),
            },
    {
        match self {
            FieldDefinitionLocation::Server(_) => None,
            FieldDefinitionLocation::Client(client_field) => Some(client_field),
        }
    }
}

/// An object type in the schema.
pub struct SchemaObject {
    pub description: Option<DescriptionValue>,
    pub name: IsographObjectTypeName,
    pub id: ServerObjectId,
    pub directives: Vec<GraphQLDirective<GraphQLConstantValue>>,
    /// The field by which an item of this type is identified, if it has one.
    pub id_field: Option<ServerStrongIdFieldId>,
    /// The fields of the object by name. A name occurs at most once.
    pub encountered_fields: StringHashMap<FieldDefinitionLocation<ServerFieldId, ClientFieldId>>,
    /// The name under which items of this type occur at run time. Interfaces
    /// and unions have none.
    pub concrete_type: Option<IsographObjectTypeName>,
}

/// A scalar type in the schema.
#[derive(Debug)]
pub struct SchemaScalar {
    pub description: Option<WithSpan<DescriptionValue>>,
    pub name: WithLocation<GraphQLScalarTypeName>,
    pub id: ServerScalarId,
    pub javascript_name: JavascriptName,
}

/// A type that an interface or a union can be narrowed to.
#[derive(Debug)]
pub struct ValidRefinement {
    pub target: ServerObjectId,
}

/// What a synthesized pointer from a supertype to a subtype carries: the
/// concrete type to narrow to, and what to select to tell whether an item is
/// of that type.
#[derive(Debug)]
pub struct SchemaServerFieldInlineFragmentVariant {
    pub server_field_id: ServerFieldId,
    pub concrete_type: IsographObjectTypeName,
    pub condition_selection_set: Vec<WithSpan<ValidatedSelection>>,
}

/// Whether a server field was declared in the schema or synthesized to narrow
/// a supertype to one of its subtypes.
#[derive(Debug)]
pub enum SchemaServerFieldVariant {
    LinkedField,
    InlineFragment(SchemaServerFieldInlineFragmentVariant),
}

/// A field that the server defines.
#[derive(Debug)]
pub struct SchemaServerField<TData, TClientFieldVariableDefinitionAssociatedData> {
    pub description: Option<DescriptionValue>,
    /// The name of the field and the place where it was defined: the schema's
    /// text, or nowhere for a generated field.
    pub name: WithLocation<SelectableFieldName>,
    pub id: ServerFieldId,
    pub associated_data: TData,
    pub parent_type_id: ServerObjectId,
    pub arguments: Vec<
        WithLocation<VariableDefinition<TClientFieldVariableDefinitionAssociatedData>>,
    >,
    pub is_discriminator: bool,
    pub variant: SchemaServerFieldVariant,
}

/// A server field that identifies the items of its parent type.
#[derive(Debug)]
pub struct SchemaIdField<TData> {
    pub description: Option<DescriptionValue>,
    pub name: WithLocation<SelectableFieldName>,
    pub id: ServerStrongIdFieldId,
    pub associated_data: TData,
    pub parent_type_id: ServerObjectId,
}

/// The name of an object type and of one of its fields. Together they name a
/// client field.
#[derive(Debug, PartialEq, Eq, Hash, Ord, PartialOrd)]
pub struct ObjectTypeAndFieldName {
    pub object_type_name: IsographObjectTypeName,
    pub field_name: SelectableFieldName,
}

/// How a client field came to be.
#[derive(Clone, Copy, Debug, PartialEq, Eq, Structural)]
pub enum ClientFieldVariant {
    /// Written by a user, to be rendered.
    Component,
    /// Written by a user, to be read at once.
    Eager,
    /// Generated, to fetch its parent anew.
    RefetchField,
    /// Generated, to run a mutation.
    MutationField,
}

/// A field that is defined locally and reads from its parent object.
#[derive(Debug)]
pub struct ClientField<
    TClientFieldSelectionScalarFieldAssociatedData,
    TClientFieldSelectionLinkedFieldAssociatedData,
    TClientFieldVariableDefinitionAssociatedData,
> {
    pub description: Option<DescriptionValue>,
    pub name: SelectableFieldName,
    pub id: ClientFieldId,
    /// What the field reads when it is read. A field has this or a refetch
    /// strategy, or both.
    pub reader_selection_set: Option<
        Vec<
            WithSpan<
                Selection<
                    TClientFieldSelectionScalarFieldAssociatedData,
                    TClientFieldSelectionLinkedFieldAssociatedData,
                >,
            >,
        >,
    >,
    /// How the field's parent is fetched anew; `None` when it cannot be.
    pub refetch_strategy: Option<
        RefetchStrategy<
            TClientFieldSelectionScalarFieldAssociatedData,
            TClientFieldSelectionLinkedFieldAssociatedData,
        >,
    >,
    pub unwraps: Vec<WithSpan<Unwrap>>,
    pub variant: ClientFieldVariant,
    pub variable_definitions: Vec<
        WithSpan<VariableDefinition<TClientFieldVariableDefinitionAssociatedData>>,
    >,
    pub type_and_field: ObjectTypeAndFieldName,
    pub parent_object_id: ServerObjectId,
}

/// The server's types: objects and scalars, and their ids by name.
pub struct ServerFieldData {
    pub server_objects: Vec<SchemaObject>,
    pub server_scalars: Vec<SchemaScalar>,
    pub defined_types: StringHashMap<SelectableServerFieldId>,
}

/// A server type: an object or a scalar.
#[derive(Clone, Copy)]
pub enum SchemaType<'a> {
    Object(&'a SchemaObject),
    Scalar(&'a SchemaScalar),
}

/// A type that a field can have as its output.
#[derive(Clone, Copy)]
pub enum SchemaOutputType<'a> {
    Object(&'a SchemaObject),
    Scalar(&'a SchemaScalar),
}

/// A type that an argument can have.
#[derive(Clone, Copy, Debug)]
pub enum SchemaInputType<'a> {
    Scalar(&'a SchemaScalar),
}

/// The in-memory representation of a schema. The state with which it is
/// instantiated tells how far along in validation the schema is.
pub struct Schema<TSchemaValidationState: SchemaValidationState> {
    pub server_fields: Vec<
        SchemaServerField<
            GraphQLTypeAnnotation<TSchemaValidationState::FieldTypeAssociatedData>,
            TSchemaValidationState::VariableDefinitionInnerType,
        >,
    >,
    pub client_fields: Vec<
        ClientField<
            TSchemaValidationState::ClientFieldSelectionScalarFieldAssociatedData,
            TSchemaValidationState::ClientFieldSelectionLinkedFieldAssociatedData,
            TSchemaValidationState::VariableDefinitionInnerType,
        >,
    >,
    pub entrypoints: TSchemaValidationState::Entrypoint,
    pub server_field_data: ServerFieldData,
    pub id_type_id: ServerScalarId,
    pub string_type_id: ServerScalarId,
    pub float_type_id: ServerScalarId,
    pub boolean_type_id: ServerScalarId,
    pub int_type_id: ServerScalarId,
    /// The types at which an operation can start, each with the name of its
    /// operation.
    pub fetchable_types: Vec<(ServerObjectId, RootOperationName)>,
}

impl SchemaObject {
    /// Whether the two objects were declared alike: they agree on everything
    /// but their fields.
    pub open spec fn same_declaration(&self, other: &SchemaObject) -> bool {
        &&& self.description == other.description
        &&& self.name == other.name
        &&& self.id == other.id
        &&& self.directives == other.directives
        &&& self.concrete_type == other.concrete_type
    }

    /// Whether `self` is a later state of `earlier`: declared alike, with the
    /// same id field once it has one, and with every field that `earlier` has.
    pub open spec fn grows_from(&self, earlier: &SchemaObject) -> bool {
        &&& self.same_declaration(earlier)
        &&& earlier.id_field is Some ==> self.id_field == earlier.id_field
        &&& earlier.encountered_fields@.submap_of(self.encountered_fields@)
    }

    /// Where the field of that name is defined, if the object has one.
    pub fn lookup_field(&self, name: &str) -> (location: Option<
        FieldDefinitionLocation<ServerFieldId, ClientFieldId>,
    >)
        ensures
            location == if self.encountered_fields@.contains_key(name@) {
                Some(self.encountered_fields@[name@])
            } else {
                None
            },
    {
        match self.encountered_fields.get(name) {
            Some(location) => Some(*location),
            None => None,
        }
    }

    /// Gives the object a field, unless it has one of that name. Tells
    /// whether the field was added; an object that has the name is left as it
    /// is.
    pub fn insert_field(
        &mut self,
        name: SelectableFieldName,
        location: FieldDefinitionLocation<ServerFieldId, ClientFieldId>,
    ) -> (inserted: bool)
        ensures
            inserted == !old(self).encountered_fields@.contains_key(name@),
            inserted ==> final(self).encountered_fields@ == old(self).encountered_fields@.insert(
                name@,
                location,
            ),
            !inserted ==> *final(self) == *old(self),
            final(self).same_declaration(old(self)),
            final(self).id_field == old(self).id_field,
    {
        if self.encountered_fields.contains_key(name.as_str()) {
            false
        } else {
            self.encountered_fields.insert(name, location);
            true
        }
    }
}

impl ServerFieldData {
    /// No types at all.
    pub fn new() -> (data: ServerFieldData)
        ensures
            data.server_objects@.len() == 0,
            data.server_scalars@.len() == 0,
            data.defined_types@ == Map::<Seq<char>, SelectableServerFieldId>::empty(),
    {
        ServerFieldData {
            server_objects: Vec::new(),
            server_scalars: Vec::new(),
            defined_types: StringHashMap::new(),
        }
    }

    /// Whether the id is that of a stored object.
    pub open spec fn has_object(&self, object_id: ServerObjectId) -> bool {
        object_id.0 < self.server_objects@.len()
    }

    /// Whether the id is that of a stored scalar.
    pub open spec fn has_scalar(&self, scalar_id: ServerScalarId) -> bool {
        scalar_id.0 < self.server_scalars@.len()
    }

    /// Whether the id is that of a stored type.
    pub open spec fn has_type(&self, type_id: SelectableServerFieldId) -> bool {
        match type_id {
            SelectableServerFieldId::Object(object_id) => self.has_object(object_id),
            SelectableServerFieldId::Scalar(scalar_id) => self.has_scalar(scalar_id),
        }
    }

    /// The stored object with that id.
    pub open spec fn spec_object(&self, object_id: ServerObjectId) -> SchemaObject {
        self.server_objects@[object_id.0 as int]
    }

    /// Whether every type is stored at its id, and every defined name leads
    /// to a stored type.
    pub open spec fn is_valid(&self) -> bool {
        &&& forall|i: int|
            0 <= i < self.server_objects@.len() ==> (#[trigger] self.server_objects@[i]).id.0 == i
        &&& forall|i: int|
            0 <= i < self.server_scalars@.len() ==> (#[trigger] self.server_scalars@[i]).id.0 == i
        &&& forall|name: Seq<char>| #[trigger]
            self.defined_types@.contains_key(name) ==> self.has_type(self.defined_types@[name])
    }

    /// Whether `self` is a later state of `earlier`: every type of `earlier`
    /// is stored at its id, scalars as they were and objects grown, and every
    /// name defined in `earlier` leads where it led.
    pub open spec fn extends(&self, earlier: &ServerFieldData) -> bool {
        &&& earlier.server_objects@.len() <= self.server_objects@.len()
        &&& forall|i: int|
            0 <= i < earlier.server_objects@.len() ==> (
            #[trigger] self.server_objects@[i]).grows_from(&earlier.server_objects@[i])
        &&& earlier.server_scalars@.len() <= self.server_scalars@.len()
        &&& forall|i: int|
            0 <= i < earlier.server_scalars@.len() ==> #[trigger] self.server_scalars@[i]
                == earlier.server_scalars@[i]
        &&& earlier.defined_types@.submap_of(self.defined_types@)
    }

    /// Get a reference to a given scalar type by its id.
    pub fn scalar(&self, scalar_id: ServerScalarId) -> (scalar: &SchemaScalar)
        requires
            self.has_scalar(scalar_id),
        ensures
            *scalar == self.server_scalars@[scalar_id.0 as int],
    {
        &self.server_scalars[scalar_id.as_usize()]
    }

    /// Get a reference to a given type, an object or a scalar, by its id.
    pub fn lookup_unvalidated_type(&self, type_id: SelectableServerFieldId) -> (found: SchemaType)
        requires
            self.has_type(type_id),
        ensures
            found == match type_id {
                SelectableServerFieldId::Object(id) => SchemaType::Object(
                    &self.server_objects@[id.0 as int],
                ),
                SelectableServerFieldId::Scalar(id) => SchemaType::Scalar(
                    &self.server_scalars@[id.0 as int],
                ),
            },
    {
        match type_id {
            SelectableServerFieldId::Object(id) => SchemaType::Object(
                &self.server_objects[id.as_usize()],
            ),
            SelectableServerFieldId::Scalar(id) => SchemaType::Scalar(
                &self.server_scalars[id.as_usize()],
            ),
        }
    }

    /// Get a reference to a given object type by its id.
    pub fn object(&self, object_id: ServerObjectId) -> (object: &SchemaObject)
        requires
            self.has_object(object_id),
        ensures
            *object == self.spec_object(object_id),
    {
        &self.server_objects[object_id.as_usize()]
    }

    /// Get a mutable reference to a given object type by its id. What the
    /// caller leaves in it takes the object's place; nothing else changes.
    pub fn object_mut(&mut self, object_id: ServerObjectId) -> (object: &mut SchemaObject)
        requires
            old(self).has_object(object_id),
        ensures
            *object == old(self).spec_object(object_id),
            final(self).server_objects@ == old(self).server_objects@.update(
                object_id.0 as int,
                *final(object),
            ),
            final(self).server_scalars == old(self).server_scalars,
            final(self).defined_types == old(self).defined_types,
    {
        &mut self.server_objects[object_id.as_usize()]
    }

    /// The id of the type that was defined under that name, if any.
    pub fn lookup_type_by_name(&self, name: &str) -> (type_id: Option<SelectableServerFieldId>)
        ensures
            type_id == if self.defined_types@.contains_key(name@) {
                Some(self.defined_types@[name@])
            } else {
                None
            },
    {
        match self.defined_types.get(name) {
            Some(type_id) => Some(*type_id),
            None => None,
        }
    }

    /// Where the field of that name is defined on the object, if it has one.
    pub fn lookup_field_by_name(&self, object_id: ServerObjectId, name: &str) -> (location:
        Option<FieldDefinitionLocation<ServerFieldId, ClientFieldId>>)
        requires
            self.has_object(object_id),
        ensures
            location == if self.spec_object(object_id).encountered_fields@.contains_key(name@) {
                Some(self.spec_object(object_id).encountered_fields@[name@])
            } else {
                None
            },
    {
        self.object(object_id).lookup_field(name)
    }

    /// Stores a new object without fields under the next id, and defines its
    /// name. Where a type of that name is defined already, nothing is stored
    /// and the error names the type.
    pub fn allocate_object(
        &mut self,
        description: Option<DescriptionValue>,
        name: WithLocation<IsographObjectTypeName>,
        directives: Vec<GraphQLDirective<GraphQLConstantValue>>,
        concrete_type: Option<IsographObjectTypeName>,
    ) -> (result: ProcessTypeDefinitionResult<ServerObjectId>)
        ensures
            match result {
                Ok(id) => {
                    &&& !old(self).defined_types@.contains_key(name.item@)
                    &&& id.0 == old(self).server_objects@.len()
                    &&& final(self).server_objects@.len() == old(self).server_objects@.len() + 1
                    &&& final(self).server_objects@.take(id.0 as int) == old(self).server_objects@
                    &&& final(self).spec_object(id).description == description
                    &&& final(self).spec_object(id).name == name.item
                    &&& final(self).spec_object(id).id == id
                    &&& final(self).spec_object(id).directives == directives
                    &&& final(self).spec_object(id).id_field is None
                    &&& final(self).spec_object(id).concrete_type == concrete_type
                    &&& final(self).spec_object(id).encountered_fields@ == Map::<
                        Seq<char>,
                        FieldDefinitionLocation<ServerFieldId, ClientFieldId>,
                    >::empty()
                    &&& final(self).defined_types@ == old(self).defined_types@.insert(
                        name.item@,
                        SelectableServerFieldId::Object(id),
                    )
                    &&& final(self).server_scalars == old(self).server_scalars
                },
                Err(error) => {
                    &&& old(self).defined_types@.contains_key(name.item@)
                    &&& *final(self) == *old(self)
                    &&& error.location == name.location
                    &&& error.item == ProcessTypeDefinitionError::DuplicateTypeDefinition {
                        type_definition_type: TypeDefinitionKind::Object,
                        defined_name: name.item,
                    }
                },
            },
            final(self).extends(old(self)),
            old(self).is_valid() ==> final(self).is_valid(),
    {
        if self.defined_types.contains_key(name.item.as_str()) {
            return Err(
                WithLocation::new(
                    ProcessTypeDefinitionError::DuplicateTypeDefinition {
                        type_definition_type: TypeDefinitionKind::Object,
                        defined_name: name.item,
                    },
                    name.location,
                ),
            );
        }
        let id = ServerObjectId(self.server_objects.len());
        self.defined_types.insert(name.item.clone(), SelectableServerFieldId::Object(id));
        self.server_objects.push(
            SchemaObject {
                description,
                name: name.item,
                id,
                directives,
                id_field: None,
                encountered_fields: StringHashMap::new(),
                concrete_type,
            },
        );
        Ok(id)
    }

    /// Stores a new scalar under the next id, and defines its name. Where a
    /// type of that name is defined already, nothing is stored and the error
    /// names the type.
    pub fn allocate_scalar(
        &mut self,
        description: Option<WithSpan<DescriptionValue>>,
        name: WithLocation<GraphQLScalarTypeName>,
        javascript_name: JavascriptName,
    ) -> (result: ProcessTypeDefinitionResult<ServerScalarId>)
        ensures
            match result {
                Ok(id) => {
                    &&& !old(self).defined_types@.contains_key(name.item@)
                    &&& id.0 == old(self).server_scalars@.len()
                    &&& final(self).server_scalars@ == old(self).server_scalars@.push(
                        SchemaScalar { description, name, id, javascript_name },
                    )
                    &&& final(self).defined_types@ == old(self).defined_types@.insert(
                        name.item@,
                        SelectableServerFieldId::Scalar(id),
                    )
                    &&& final(self).server_objects == old(self).server_objects
                },
                Err(error) => {
                    &&& old(self).defined_types@.contains_key(name.item@)
                    &&& *final(self) == *old(self)
                    &&& error.location == name.location
                    &&& error.item == ProcessTypeDefinitionError::DuplicateTypeDefinition {
                        type_definition_type: TypeDefinitionKind::Scalar,
                        defined_name: name.item,
                    }
                },
            },
            final(self).extends(old(self)),
            old(self).is_valid() ==> final(self).is_valid(),
    {
        if self.defined_types.contains_key(name.item.as_str()) {
            return Err(
                WithLocation::new(
                    ProcessTypeDefinitionError::DuplicateTypeDefinition {
                        type_definition_type: TypeDefinitionKind::Scalar,
                        defined_name: name.item,
                    },
                    name.location,
                ),
            );
        }
        let id = ServerScalarId(self.server_scalars.len());
        self.defined_types.insert(name.item.clone(), SelectableServerFieldId::Scalar(id));
        self.server_scalars.push(SchemaScalar { description, name, id, javascript_name });
        Ok(id)
    }
}

impl<TSchemaValidationState: SchemaValidationState> Schema<TSchemaValidationState> {
    /// Whether the id is that of a stored server field.
    pub open spec fn has_server_field(&self, server_field_id: ServerFieldId) -> bool {
        server_field_id.0 < self.server_fields@.len()
    }

    /// Whether the id is that of a stored client field.
    pub open spec fn has_client_field(&self, client_field_id: ClientFieldId) -> bool {
        client_field_id.0 < self.client_fields@.len()
    }

    /// Whether the location is that of a stored field.
    pub open spec fn has_location(
        &self,
        location: FieldDefinitionLocation<ServerFieldId, ClientFieldId>,
    ) -> bool {
        match location {
            FieldDefinitionLocation::Server(server_field_id) => self.has_server_field(
                server_field_id,
            ),
            FieldDefinitionLocation::Client(client_field_id) => self.has_client_field(
                client_field_id,
            ),
        }
    }

    /// The fields of the stored object with that id, by name.
    pub open spec fn fields_of(&self, object_id: ServerObjectId) -> Map<
        Seq<char>,
        FieldDefinitionLocation<ServerFieldId, ClientFieldId>,
    > {
        self.server_field_data.spec_object(object_id).encountered_fields@
    }

    /// Whether the graph is consistent: every item is stored at its id, and
    /// every id that an item holds is that of a stored item.
    pub open spec fn is_valid(&self) -> bool {
        &&& self.server_field_data.is_valid()
        &&& forall|i: int|
            0 <= i < self.server_fields@.len() ==> {
                &&& (#[trigger] self.server_fields@[i]).id.0 == i
                &&& self.server_field_data.has_object(self.server_fields@[i].parent_type_id)
            }
        &&& forall|i: int|
            0 <= i < self.client_fields@.len() ==> {
                &&& (#[trigger] self.client_fields@[i]).id.0 == i
                &&& self.server_field_data.has_object(self.client_fields@[i].parent_object_id)
            }
        &&& {
            let objects = self.server_field_data.server_objects@;
            forall|i: int, name: Seq<char>|
                0 <= i < objects.len() && #[trigger] objects[i].encountered_fields@.contains_key(
                    name,
                ) ==> self.has_location(objects[i].encountered_fields@[name])
        }
        &&& forall|i: int|
            0 <= i < self.server_field_data.server_objects@.len() ==> match (
            #[trigger] self.server_field_data.server_objects@[i]).id_field {
                Some(id_field_id) => self.has_server_field(ServerFieldId(id_field_id.0)),
                None => true,
            }
        &&& self.server_field_data.has_scalar(self.id_type_id)
        &&& self.server_field_data.has_scalar(self.string_type_id)
        &&& self.server_field_data.has_scalar(self.float_type_id)
        &&& self.server_field_data.has_scalar(self.boolean_type_id)
        &&& self.server_field_data.has_scalar(self.int_type_id)
        &&& forall|i: int|
            0 <= i < self.fetchable_types@.len() ==> self.server_field_data.has_object(
                (#[trigger] self.fetchable_types@[i]).0,
            )
        &&& self.names_each_fetchable_type_once()
    }

    /// Whether the fetchable types are a mapping: no object occurs twice
    /// among them.
    pub open spec fn names_each_fetchable_type_once(&self) -> bool {
        forall|i: int, j: int|
            0 <= i < j < self.fetchable_types@.len() ==> (#[trigger] self.fetchable_types@[i]).0
                != (#[trigger] self.fetchable_types@[j]).0
    }

    /// Whether the object is among the fetchable types.
    pub open spec fn is_fetchable(&self, object_id: ServerObjectId) -> bool {
        exists|i: int|
            0 <= i < self.fetchable_types@.len() && (#[trigger] self.fetchable_types@[i]).0
                == object_id
    }

    /// Whether `self` is a later state of `earlier`: every item of `earlier`
    /// is stored at its id. Fields and scalars are as they were; an object is
    /// declared as it was and has every field it had.
    pub open spec fn extends(&self, earlier: &Self) -> bool {
        &&& self.server_field_data.extends(&earlier.server_field_data)
        &&& earlier.server_fields@.len() <= self.server_fields@.len()
        &&& forall|i: int|
            0 <= i < earlier.server_fields@.len() ==> #[trigger] self.server_fields@[i]
                == earlier.server_fields@[i]
        &&& earlier.client_fields@.len() <= self.client_fields@.len()
        &&& forall|i: int|
            0 <= i < earlier.client_fields@.len() ==> #[trigger] self.client_fields@[i]
                == earlier.client_fields@[i]
    }

    /// Whether the two schemas hold the same objects, but for the object
    /// with the given id.
    pub open spec fn same_objects_but(&self, other: &Self, object_id: ServerObjectId) -> bool {
        &&& self.server_field_data.server_objects@.len()
            == other.server_field_data.server_objects@.len()
        &&& forall|i: int|
            0 <= i < other.server_field_data.server_objects@.len() && i != object_id.0
                ==> #[trigger] self.server_field_data.server_objects@[i]
                == other.server_field_data.server_objects@[i]
    }

    /// Whether the two schemas differ at most in their server fields and in
    /// the fields of their objects.
    pub open spec fn same_outside_fields(&self, other: &Self) -> bool {
        &&& self.client_fields == other.client_fields
        &&& self.entrypoints == other.entrypoints
        &&& self.server_field_data.server_scalars == other.server_field_data.server_scalars
        &&& self.server_field_data.defined_types == other.server_field_data.defined_types
        &&& self.id_type_id == other.id_type_id
        &&& self.string_type_id == other.string_type_id
        &&& self.float_type_id == other.float_type_id
        &&& self.boolean_type_id == other.boolean_type_id
        &&& self.int_type_id == other.int_type_id
        &&& self.fetchable_types == other.fetchable_types
    }

    /// Get a reference to a given server field by its id.
    pub fn server_field(&self, server_field_id: ServerFieldId) -> (server_field: &SchemaServerField<
        GraphQLTypeAnnotation<TSchemaValidationState::FieldTypeAssociatedData>,
        TSchemaValidationState::VariableDefinitionInnerType,
    >)
        requires
            self.has_server_field(server_field_id),
        ensures
            *server_field == self.server_fields@[server_field_id.0 as int],
    {
        &self.server_fields[server_field_id.as_usize()]
    }

    /// Get a reference to a given client field by its id.
    pub fn client_field(&self, client_field_id: ClientFieldId) -> (client_field: &ClientField<
        TSchemaValidationState::ClientFieldSelectionScalarFieldAssociatedData,
        TSchemaValidationState::ClientFieldSelectionLinkedFieldAssociatedData,
        TSchemaValidationState::VariableDefinitionInnerType,
    >)
        requires
            self.has_client_field(client_field_id),
        ensures
            *client_field == self.client_fields@[client_field_id.0 as int],
    {
        &self.client_fields[client_field_id.as_usize()]
    }

    /// The id that the next server field will be stored under.
    pub fn next_server_field_id(&self) -> (id: ServerFieldId)
        ensures
            id.0 == self.server_fields@.len(),
    {
        ServerFieldId(self.server_fields.len())
    }

    /// Stores a server field under the next id and returns that id. The id
    /// that `field` came with is not kept. The field is not yet a field of
    /// any object by name.
    pub fn allocate_server_field(
        &mut self,
        field: SchemaServerField<
            GraphQLTypeAnnotation<TSchemaValidationState::FieldTypeAssociatedData>,
            TSchemaValidationState::VariableDefinitionInnerType,
        >,
    ) -> (id: ServerFieldId)
        ensures
            id.0 == old(self).server_fields@.len(),
            final(self).server_fields@ == old(self).server_fields@.push(
                SchemaServerField { id, ..field },
            ),
            final(self).server_field_data == old(self).server_field_data,
            final(self).same_outside_fields(old(self)),
            final(self).extends(old(self)),
            old(self).is_valid() && old(self).server_field_data.has_object(field.parent_type_id)
                ==> final(self).is_valid(),
    {
        let id = ServerFieldId(self.server_fields.len());
        let mut field = field;
        field.id = id;
        self.server_fields.push(field);
        id
    }

    /// Stores a client field under the next id and returns that id. The id
    /// that `field` came with is not kept. A field that has neither a reader
    /// selection set nor a refetch strategy is not stored.
    pub fn allocate_client_field(
        &mut self,
        field: ClientField<
            TSchemaValidationState::ClientFieldSelectionScalarFieldAssociatedData,
            TSchemaValidationState::ClientFieldSelectionLinkedFieldAssociatedData,
            TSchemaValidationState::VariableDefinitionInnerType,
        >,
    ) -> (result: Result<ClientFieldId, InternalConsistencyError>)
        ensures
            match result {
                Ok(id) => {
                    &&& field.reader_selection_set is Some || field.refetch_strategy is Some
                    &&& id.0 == old(self).client_fields@.len()
                    &&& final(self).client_fields@ == old(self).client_fields@.push(
                        ClientField { id, ..field },
                    )
                    &&& final(self).server_fields == old(self).server_fields
                    &&& final(self).server_field_data == old(self).server_field_data
                    &&& final(self).entrypoints == old(self).entrypoints
                    &&& final(self).fetchable_types == old(self).fetchable_types
                },
                Err(fault) => {
                    &&& field.reader_selection_set is None
                    &&& field.refetch_strategy is None
                    &&& *final(self) == *old(self)
                    &&& fault == InternalConsistencyError::ExpectedSelectionSetOrRefetchStrategy {
                        field_name: field.name,
                    }
                },
            },
            final(self).extends(old(self)),
            old(self).is_valid() && old(self).server_field_data.has_object(field.parent_object_id)
                ==> final(self).is_valid(),
    {
        if field.reader_selection_set.is_none() && field.refetch_strategy.is_none() {
            return Err(
                InternalConsistencyError::ExpectedSelectionSetOrRefetchStrategy {
                    field_name: field.name,
                },
            );
        }
        let id = ClientFieldId(self.client_fields.len());
        let mut field = field;
        field.id = id;
        self.client_fields.push(field);
        Ok(id)
    }

    /// Makes a stored field a field of the object under the given name. An
    /// object that has a field of that name is left as it is, and the error
    /// names the field and the object.
    pub fn insert_encountered_field(
        &mut self,
        object_id: ServerObjectId,
        name: WithLocation<SelectableFieldName>,
        location: FieldDefinitionLocation<ServerFieldId, ClientFieldId>,
    ) -> (result: ProcessTypeDefinitionResult<()>)
        requires
            old(self).server_field_data.has_object(object_id),
        ensures
            match result {
                Ok(_) => {
                    &&& !old(self).fields_of(object_id).contains_key(name.item@)
                    &&& final(self).fields_of(object_id) == old(self).fields_of(object_id).insert(
                        name.item@,
                        location,
                    )
                    &&& final(self).same_objects_but(old(self), object_id)
                    &&& final(self).server_field_data.spec_object(object_id).same_declaration(
                        &old(self).server_field_data.spec_object(object_id),
                    )
                    &&& final(self).server_field_data.spec_object(object_id).id_field
                        == old(self).server_field_data.spec_object(object_id).id_field
                    &&& final(self).server_fields == old(self).server_fields
                    &&& final(self).same_outside_fields(old(self))
                },
                Err(error) => {
                    &&& old(self).fields_of(object_id).contains_key(name.item@)
                    &&& *final(self) == *old(self)
                    &&& error.location == name.location
                    &&& error.item == ProcessTypeDefinitionError::FieldExistsOnType {
                        field_name: name.item,
                        parent_type: old(self).server_field_data.spec_object(object_id).name,
                    }
                },
            },
            final(self).extends(old(self)),
            old(self).is_valid() && old(self).has_location(location) ==> final(self).is_valid(),
    {
        if self.server_field_data.object(object_id).encountered_fields.contains_key(
            name.item.as_str(),
        ) {
            let parent_type = self.server_field_data.object(object_id).name.clone();
            return Err(
                WithLocation::new(
                    ProcessTypeDefinitionError::FieldExistsOnType {
                        field_name: name.item,
                        parent_type,
                    },
                    name.location,
                ),
            );
        }
        let object = self.server_field_data.object_mut(object_id);
        let inserted = object.insert_field(name.item, location);
        Ok(())
    }

    /// Makes a stored server field the id field of the object, as part of the
    /// object's registration: an object is stored before its fields are, so
    /// its id field is set once the field is stored. An object that has an id
    /// field keeps it, and the error names the object.
    pub fn set_id_field(
        &mut self,
        object_id: ServerObjectId,
        id_field_id: ServerStrongIdFieldId,
        location: Location,
    ) -> (result: ProcessTypeDefinitionResult<()>)
        requires
            old(self).server_field_data.has_object(object_id),
        ensures
            match result {
                Ok(_) => {
                    &&& old(self).server_field_data.spec_object(object_id).id_field is None
                    &&& final(self).server_field_data.spec_object(object_id).id_field == Some(
                        id_field_id,
                    )
                    &&& final(self).fields_of(object_id) == old(self).fields_of(object_id)
                    &&& final(self).same_objects_but(old(self), object_id)
                    &&& final(self).server_field_data.spec_object(object_id).same_declaration(
                        &old(self).server_field_data.spec_object(object_id),
                    )
                    &&& final(self).server_fields == old(self).server_fields
                    &&& final(self).same_outside_fields(old(self))
                },
                Err(error) => {
                    &&& old(self).server_field_data.spec_object(object_id).id_field is Some
                    &&& *final(self) == *old(self)
                    &&& error.location == location
                    &&& error.item == ProcessTypeDefinitionError::IdFieldAlreadyDefined {
                        parent_type: old(self).server_field_data.spec_object(object_id).name,
                    }
                },
            },
            final(self).extends(old(self)),
            old(self).is_valid() && old(self).has_server_field(ServerFieldId(id_field_id.0))
                ==> final(self).is_valid(),
    {
        if self.server_field_data.object(object_id).id_field.is_some() {
            let parent_type = self.server_field_data.object(object_id).name.clone();
            return Err(
                WithLocation::new(
                    ProcessTypeDefinitionError::IdFieldAlreadyDefined { parent_type },
                    location,
                ),
            );
        }
        let object = self.server_field_data.object_mut(object_id);
        object.id_field = Some(id_field_id);
        Ok(())
    }
}

/// A schema in a later state holds every item of an earlier state at the id
/// it had: through any number of allocations, an id keeps leading to the item
/// it was returned for.
pub proof fn lemma_extends_is_transitive<TSchemaValidationState: SchemaValidationState>(
    first: Schema<TSchemaValidationState>,
    second: Schema<TSchemaValidationState>,
    third: Schema<TSchemaValidationState>,
)
    requires
        second.extends(&first),
        third.extends(&second),
    ensures
        third.extends(&first),
{
    assert forall|i: int| 0 <= i < first.server_field_data.server_objects@.len() implies (
    #[trigger] third.server_field_data.server_objects@[i]).grows_from(
        &first.server_field_data.server_objects@[i],
    ) by {
        let a = first.server_field_data.server_objects@[i];
        let b = second.server_field_data.server_objects@[i];
        let c = third.server_field_data.server_objects@[i];
        assert forall|name: Seq<char>| #[trigger]
            a.encountered_fields@.dom().contains(name) implies c.encountered_fields@.dom().contains(
            name,
        ) && a.encountered_fields@[name] == c.encountered_fields@[name] by {
            assert(b.encountered_fields@.dom().contains(name));
        }
    }
    assert forall|name: Seq<char>| #[trigger]
        first.server_field_data.defined_types@.dom().contains(
            name,
        ) implies third.server_field_data.defined_types@.dom().contains(name)
        && first.server_field_data.defined_types@[name]
        == third.server_field_data.defined_types@[name] by {
        assert(second.server_field_data.defined_types@.dom().contains(name));
    }
}

/// Identifiers stay valid. Take the states that a schema goes through, each a
/// later state of the one before. Then every state is a later state of every
/// state before it: a field, a scalar or a client field that an id led to is
/// found unchanged under that id, and an object is found declared as it was,
/// with every field it had.
pub proof fn lemma_append_only_stability<TSchemaValidationState: SchemaValidationState>(
    states: Seq<Schema<TSchemaValidationState>>,
    earlier: int,
    later: int,
)
    requires
        forall|k: int| 0 <= k < states.len() - 1 ==> (#[trigger] states[k + 1]).extends(&states[k]),
        0 <= earlier <= later < states.len(),
    ensures
        states[later].extends(&states[earlier]),
    decreases later - earlier,
{
    if earlier < later {
        lemma_append_only_stability(states, earlier, later - 1);
        assert(states[later - 1 + 1].extends(&states[later - 1]));
        lemma_extends_is_transitive(states[earlier], states[later - 1], states[later]);
    }
}

impl<TSchemaValidationState: SchemaValidationState> Schema<TSchemaValidationState> {
    /// Makes the object the root of the operation of the given name. An
    /// object that is fetchable already gets the new name in its place, and
    /// the name it had is returned; else the object is added after the others.
    pub fn insert_fetchable_type(
        &mut self,
        object_id: ServerObjectId,
        root_operation_name: RootOperationName,
    ) -> (replaced: Option<RootOperationName>)
        ensures
            match replaced {
                Some(previous) => exists|i: int|
                    {
                        &&& 0 <= i < old(self).fetchable_types@.len()
                        &&& #[trigger] old(self).fetchable_types@[i] == (object_id, previous)
                        &&& forall|j: int|
                            0 <= j < i ==> (#[trigger] old(self).fetchable_types@[j]).0
                                != object_id
                        &&& final(self).fetchable_types@ == old(self).fetchable_types@.update(
                            i,
                            (object_id, root_operation_name),
                        )
                    },
                None => {
                    &&& !old(self).is_fetchable(object_id)
                    &&& final(self).fetchable_types@ == old(self).fetchable_types@.push(
                        (object_id, root_operation_name),
                    )
                },
            },
            final(self).server_fields == old(self).server_fields,
            final(self).client_fields == old(self).client_fields,
            final(self).entrypoints == old(self).entrypoints,
            final(self).server_field_data == old(self).server_field_data,
            final(self).id_type_id == old(self).id_type_id,
            final(self).string_type_id == old(self).string_type_id,
            final(self).float_type_id == old(self).float_type_id,
            final(self).boolean_type_id == old(self).boolean_type_id,
            final(self).int_type_id == old(self).int_type_id,
            final(self).extends(old(self)),
            old(self).is_valid() && old(self).server_field_data.has_object(object_id)
                ==> final(self).is_valid(),
    {
        let mut index: usize = 0;
        while index < self.fetchable_types.len()
            invariant
                *self == *old(self),
                index <= self.fetchable_types@.len(),
                forall|j: int|
                    0 <= j < index ==> (#[trigger] self.fetchable_types@[j]).0 != object_id,
            decreases self.fetchable_types@.len() - index,
        {
            if self.fetchable_types[index].0 == object_id {
                let previous = RootOperationName(self.fetchable_types[index].1.0.clone());
                self.fetchable_types.set(index, (object_id, root_operation_name));
                assert(old(self).fetchable_types@[index as int] == (object_id, previous));
                return Some(previous);
            }
            index += 1;
        }
        self.fetchable_types.push((object_id, root_operation_name));
        None
    }

    /// Whether the fetchable type at `index` is the root of the operation
    /// named `query`.
    pub open spec fn is_query_root(&self, index: int) -> bool {
        &&& 0 <= index < self.fetchable_types@.len()
        &&& self.fetchable_types@[index].1.0@ == "query"@
    }

    /// The id of the type at which queries start: the first fetchable type
    /// whose operation is named `query`. In a valid schema an object occurs
    /// once among the fetchable types, so the index is that of one object.
    pub fn query_id(&self) -> (id: ServerObjectId)
        requires
            exists|index: int| self.is_query_root(index),
        ensures
            exists|index: int|
                {
                    &&& #[trigger] self.is_query_root(index)
                    &&& id == self.fetchable_types@[index].0
                    &&& forall|before: int| 0 <= before < index ==> !self.is_query_root(before)
                },
    {
        let query = String::from_str("query");
        let mut index: usize = 0;
        while index < self.fetchable_types.len()
            invariant
                index <= self.fetchable_types@.len(),
                query@ == "query"@,
                forall|before: int| 0 <= before < index ==> !self.is_query_root(before),
            decreases self.fetchable_types@.len() - index,
        {
            if self.fetchable_types[index].1.0 == query {
                assert(self.is_query_root(index as int));
                return self.fetchable_types[index].0;
            }
            index += 1;
        }
        // Some fetchable type is the root of `query`, so the loop has found it.
        unreached()
    }

    /// The id field with that id, made from the server field that it is. The
    /// server field must have a bare named type, without wrappers, and no
    /// arguments; a field of any other shape is an internal fault.
    pub fn id_field(&self, id_field_id: ServerStrongIdFieldId) -> (result: Result<
        SchemaIdField<GraphQLNamedTypeAnnotation<TSchemaValidationState::FieldTypeAssociatedData>>,
        InternalConsistencyError,
    >) where TSchemaValidationState::FieldTypeAssociatedData: Clone
        requires
            self.has_server_field(ServerFieldId(id_field_id.0)),
        ensures
            match result {
                Ok(id_field) => {
                    let field = self.server_fields@[id_field_id.0 as int];
                    &&& field.associated_data matches GraphQLTypeAnnotation::Named(named)
                    &&& field.arguments@.len() == 0
                    &&& id_field.description == field.description
                    &&& id_field.name == field.name
                    &&& id_field.id == id_field_id
                    &&& id_field.parent_type_id == field.parent_type_id
                    &&& id_field.associated_data.0.span == named.0.span
                    &&& cloned(named.0.item, id_field.associated_data.0.item)
                },
                Err(fault) => {
                    let field = self.server_fields@[id_field_id.0 as int];
                    &&& !(field.associated_data is Named && field.arguments@.len() == 0)
                    &&& fault == InternalConsistencyError::ExpectedIdFieldToBeValid {
                        field_name: field.name.item,
                    }
                },
            },
    {
        let field = self.server_field(id_field_id.as_server_field_id());
        match &field.associated_data {
            GraphQLTypeAnnotation::Named(named) => {
                if field.arguments.len() == 0 {
                    let description = match &field.description {
                        Some(description) => Some(description.clone()),
                        None => None,
                    };
                    return Ok(
                        SchemaIdField {
                            description,
                            name: field.name.clone(),
                            id: id_field_id,
                            associated_data: GraphQLNamedTypeAnnotation(named.0.clone()),
                            parent_type_id: field.parent_type_id,
                        },
                    );
                }
            },
            _ => {},
        }
        Err(
            InternalConsistencyError::ExpectedIdFieldToBeValid {
                field_name: field.name.item.clone(),
            },
        )
    }
}

impl<'a> SchemaType<'a> {
    /// The name of the type.
    pub fn name(&self) -> (name: UnvalidatedTypeName)
        ensures
            name == match *self {
                SchemaType::Object(object) => object.name,
                SchemaType::Scalar(scalar) => scalar.name.item,
            },
    {
        match self {
            SchemaType::Object(object) => object.name.clone(),
            SchemaType::Scalar(scalar) => scalar.name.item.clone(),
        }
    }
}

impl<'a> SchemaInputType<'a> {
    /// The name of the type.
    pub fn name(&self) -> (name: UnvalidatedTypeName)
        ensures
            name == match *self {
                SchemaInputType::Scalar(scalar) => scalar.name.item,
            },
    {
        match self {
            SchemaInputType::Scalar(scalar) => scalar.name.item.clone(),
        }
    }
}

impl<TData, TClientFieldVariableDefinitionAssociatedData> SchemaServerField<
    TData,
    TClientFieldVariableDefinitionAssociatedData,
> {
    /// The field with what `convert` makes of its data in place of the data.
    /// Where `convert` fails, its error is the result.
    pub fn and_then<TData2, E>(
        self,
        convert: impl FnOnce(&TData) -> Result<TData2, E>,
    ) -> (result: Result<
        SchemaServerField<TData2, TClientFieldVariableDefinitionAssociatedData>,
        E,
    >)
        requires
            convert.requires((&self.associated_data,)),
        ensures
            match result {
                Ok(field) => {
                    &&& convert.ensures(
                        (&self.associated_data,),
                        Ok::<TData2, E>(field.associated_data),
                    )
                    &&& field.description == self.description
                    &&& field.name == self.name
                    &&& field.id == self.id
                    &&& field.parent_type_id == self.parent_type_id
                    &&& field.arguments == self.arguments
                    &&& field.is_discriminator == self.is_discriminator
                    &&& field.variant == self.variant
                },
                Err(error) => convert.ensures((&self.associated_data,), Err::<TData2, E>(error)),
            },
    {
        match convert(&self.associated_data) {
            Ok(associated_data) => Ok(
                SchemaServerField {
                    description: self.description,
                    name: self.name,
                    id: self.id,
                    associated_data,
                    parent_type_id: self.parent_type_id,
                    arguments: self.arguments,
                    is_discriminator: self.is_discriminator,
                    variant: self.variant,
                },
            ),
            Err(error) => Err(error),
        }
    }

    /// The field without its data, and the data.
    pub fn split(self) -> (parts: (
        SchemaServerField<(), TClientFieldVariableDefinitionAssociatedData>,
        TData,
    ))
        ensures
            parts.1 == self.associated_data,
            parts.0.description == self.description,
            parts.0.name == self.name,
            parts.0.id == self.id,
            parts.0.parent_type_id == self.parent_type_id,
            parts.0.arguments == self.arguments,
            parts.0.is_discriminator == self.is_discriminator,
            parts.0.variant == self.variant,
    {
        let Self {
            description,
            name,
            id,
            associated_data,
            parent_type_id,
            arguments,
            is_discriminator,
            variant,
        } = self;
        (
            SchemaServerField {
                description,
                name,
                id,
                associated_data: (),
                parent_type_id,
                arguments,
                is_discriminator,
                variant,
            },
            associated_data,
        )
    }
}

impl<TData, TClientFieldVariableDefinitionAssociatedData> TryFrom<
    SchemaServerField<TData, TClientFieldVariableDefinitionAssociatedData>,
> for SchemaIdField<TData> {
    type Error = ();

    /// A server field is valid as an id field if it has no arguments.
    fn try_from(
        value: SchemaServerField<TData, TClientFieldVariableDefinitionAssociatedData>,
    ) -> (result: Result<Self, ()>) {
        if value.arguments.len() == 0 {
            Ok(
                SchemaIdField {
                    description: value.description,
                    name: value.name,
                    id: ServerStrongIdFieldId(value.id.0),
                    associated_data: value.associated_data,
                    parent_type_id: value.parent_type_id,
                },
            )
        } else {
            Err(())
        }
    }
}

impl<TData, TClientFieldVariableDefinitionAssociatedData> TryFromSpecImpl<
    SchemaServerField<TData, TClientFieldVariableDefinitionAssociatedData>,
> for SchemaIdField<TData> {
    open spec fn obeys_try_from_spec() -> bool {
        true
    }

    open spec fn try_from_spec(
        value: SchemaServerField<TData, TClientFieldVariableDefinitionAssociatedData>,
    ) -> Result<Self, ()> {
        if value.arguments@.len() == 0 {
            Ok(
                SchemaIdField {
                    description: value.description,
                    name: value.name,
                    id: ServerStrongIdFieldId(value.id.0),
                    associated_data: value.associated_data,
                    parent_type_id: value.parent_type_id,
                },
            )
        } else {
            Err(())
        }
    }
}

impl ObjectTypeAndFieldName {
    /// The two names with two underscores between them.
    pub fn underscore_separated(&self) -> (text: String)
        ensures
            text@ == self.object_type_name@ + "__"@ + self.field_name@,
    {
        let mut text = self.object_type_name.clone();
        text.append("__");
        text.append(self.field_name.as_str());
        text
    }

    /// The path from the directory of a field of the type
    /// `current_file_type_name` to the artifact file of this field: up to the
    /// type's directory when the type is the same, and else up once more and
    /// down into this field's type.
    pub fn relative_path(
        &self,
        current_file_type_name: &IsographObjectTypeName,
        file_type: &ArtifactFileType,
    ) -> (path: String)
        ensures
            path@ == if self.object_type_name@ != current_file_type_name@ {
                "../../"@ + self.object_type_name@ + "/"@ + self.field_name@ + "/"@ + file_type@
            } else {
                "../"@ + self.field_name@ + "/"@ + file_type@
            },
    {
        if self.object_type_name != *current_file_type_name {
            let mut path = String::from_str("../../");
            path.append(self.object_type_name.as_str());
            path.append("/");
            path.append(self.field_name.as_str());
            path.append("/");
            path.append(file_type.as_str());
            path
        } else {
            let mut path = String::from_str("../");
            path.append(self.field_name.as_str());
            path.append("/");
            path.append(file_type.as_str());
            path
        }
    }
}

impl<
    TClientFieldSelectionScalarFieldAssociatedData,
    TClientFieldSelectionLinkedFieldAssociatedData,
    TClientFieldVariableDefinitionAssociatedData,
> ClientField<
    TClientFieldSelectionScalarFieldAssociatedData,
    TClientFieldSelectionLinkedFieldAssociatedData,
    TClientFieldVariableDefinitionAssociatedData,
> {
    /// Whether the field has a reader selection set or a refetch strategy.
    pub open spec fn is_well_formed(&self) -> bool {
        self.reader_selection_set is Some || self.refetch_strategy is Some
    }

    /// What the field selects for the query of its parent: its reader
    /// selection set if it has one, and else the selection set of its refetch
    /// strategy. A field that has neither is an internal fault.
    pub fn selection_set_for_parent_query(&self) -> (result: Result<
        &Vec<
            WithSpan<
                Selection<
                    TClientFieldSelectionScalarFieldAssociatedData,
                    TClientFieldSelectionLinkedFieldAssociatedData,
                >,
            >,
        >,
        InternalConsistencyError,
    >)
        ensures
            match result {
                Ok(selection_set) => {
                    &&& self.is_well_formed()
                    &&& *selection_set == match self.reader_selection_set {
                        Some(reader_selection_set) => reader_selection_set,
                        None => self.refetch_strategy->0.spec_refetch_selection_set(),
                    }
                },
                Err(fault) => {
                    &&& !self.is_well_formed()
                    &&& fault == InternalConsistencyError::ExpectedSelectionSetOrRefetchStrategy {
                        field_name: self.name,
                    }
                },
            },
    {
        if let Some(s) = self.reader_selection_set.as_ref() {
            Ok(s)
        } else {
            match self.refetch_strategy.as_ref() {
                Some(strategy) => Ok(strategy.refetch_selection_set()),
                None => Err(
                    InternalConsistencyError::ExpectedSelectionSetOrRefetchStrategy {
                        field_name: self.name.clone(),
                    },
                ),
            }
        }
    }
}

} // verus!
