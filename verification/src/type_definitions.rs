//! Type definitions as the schema's text states them, and the one shape to
//! which the definitions of objects, interfaces and input objects are
//! brought before they are registered.

use crate::names::{
    DescriptionValue, GraphQLInputObjectTypeName, GraphQLInterfaceTypeName, InputTypeName,
    InputValueName, IsographObjectTypeName, SelectableFieldName, UnvalidatedTypeName,
};
use crate::source_location::{WithLocation, WithSpan};
use crate::type_annotation::GraphQLTypeAnnotation;
use crate::values::{GraphQLConstantValue, GraphQLDirective};
use vstd::prelude::*;
use vstd::std_specs::convert::FromSpecImpl;

verus! {

/// The definition of an argument of a field, or of a field of an input
/// object.
#[derive(Debug, PartialEq, Eq, Hash, PartialOrd, Ord)]
pub struct GraphQLInputValueDefinition {
    pub description: Option<WithSpan<DescriptionValue>>,
    pub name: WithLocation<InputValueName>,
    pub type_: GraphQLTypeAnnotation<InputTypeName>,
    pub default_value: Option<WithLocation<GraphQLConstantValue>>,
    pub directives: Vec<GraphQLDirective<GraphQLConstantValue>>,
}

/// The definition of a field of an object or of an interface.
#[derive(Debug, PartialEq, Eq, Hash, PartialOrd, Ord)]
pub struct GraphQLFieldDefinition {
    pub description: Option<WithSpan<DescriptionValue>>,
    pub name: WithLocation<SelectableFieldName>,
    pub type_: GraphQLTypeAnnotation<UnvalidatedTypeName>,
    pub arguments: Vec<WithLocation<GraphQLInputValueDefinition>>,
    pub directives: Vec<GraphQLDirective<GraphQLConstantValue>>,
}

/// The definition of an object type.
#[derive(Debug, PartialEq, Eq, Hash, PartialOrd, Ord)]
pub struct GraphQLObjectTypeDefinition {
    pub description: Option<WithSpan<DescriptionValue>>,
    pub name: WithLocation<IsographObjectTypeName>,
    pub interfaces: Vec<WithLocation<GraphQLInterfaceTypeName>>,
    pub directives: Vec<GraphQLDirective<GraphQLConstantValue>>,
    pub fields: Vec<WithLocation<GraphQLFieldDefinition>>,
}

/// The definition of an interface.
#[derive(Debug, PartialEq, Eq, Hash, PartialOrd, Ord)]
pub struct GraphQLInterfaceTypeDefinition {
    pub description: Option<WithSpan<DescriptionValue>>,
    pub name: WithLocation<GraphQLInterfaceTypeName>,
    pub interfaces: Vec<WithLocation<GraphQLInterfaceTypeName>>,
    pub directives: Vec<GraphQLDirective<GraphQLConstantValue>>,
    pub fields: Vec<WithLocation<GraphQLFieldDefinition>>,
}

/// The definition of an input object.
#[derive(Debug, PartialEq, Eq, Hash, PartialOrd, Ord)]
pub struct GraphQLInputObjectTypeDefinition {
    pub description: Option<WithSpan<DescriptionValue>>,
    pub name: WithLocation<GraphQLInputObjectTypeName>,
    pub directives: Vec<GraphQLDirective<GraphQLConstantValue>>,
    pub fields: Vec<WithLocation<GraphQLInputValueDefinition>>,
}

/// The definition of anything that is registered as an object: an object
/// type, an interface or an input object.
#[derive(Debug, PartialEq, Eq, Hash, PartialOrd, Ord)]
pub struct IsographObjectTypeDefinition {
    pub description: Option<WithSpan<DescriptionValue>>,
    pub name: WithLocation<IsographObjectTypeName>,
    pub interfaces: Vec<WithLocation<GraphQLInterfaceTypeName>>,
    /// Directives that the compiler knows nothing about.
    pub directives: Vec<GraphQLDirective<GraphQLConstantValue>>,
    pub fields: Vec<WithLocation<GraphQLFieldDefinition>>,
}

/// Whether `field` is the input value `value` seen as a field: it has the
/// value's description, name, type and directives, and no arguments. The
/// default value is not kept.
pub open spec fn is_field_of_input_value(
    field: GraphQLFieldDefinition,
    value: GraphQLInputValueDefinition,
) -> bool {
    &&& field.description == value.description
    &&& field.name == value.name
    &&& field.type_ == value.type_
    &&& field.arguments@.len() == 0
    &&& field.directives == value.directives
}

impl From<GraphQLInputValueDefinition> for GraphQLFieldDefinition {
    fn from(value: GraphQLInputValueDefinition) -> (field: Self)
        ensures
            is_field_of_input_value(field, value),
    {
        GraphQLFieldDefinition {
            description: value.description,
            name: value.name,
            type_: value.type_,
            arguments: Vec::new(),
            directives: value.directives,
        }
    }
}

impl FromSpecImpl<GraphQLInputValueDefinition> for GraphQLFieldDefinition {
    /// The conversion is stated by `is_field_of_input_value`.
    open spec fn obeys_from_spec() -> bool {
        false
    }

    open spec fn from_spec(value: GraphQLInputValueDefinition) -> Self {
        choose|field: GraphQLFieldDefinition| is_field_of_input_value(field, value)
    }
}

impl From<GraphQLObjectTypeDefinition> for IsographObjectTypeDefinition {
    fn from(object_type_definition: GraphQLObjectTypeDefinition) -> (definition: Self) {
        IsographObjectTypeDefinition {
            description: object_type_definition.description,
            name: object_type_definition.name,
            interfaces: object_type_definition.interfaces,
            directives: object_type_definition.directives,
            fields: object_type_definition.fields,
        }
    }
}

impl FromSpecImpl<GraphQLObjectTypeDefinition> for IsographObjectTypeDefinition {
    open spec fn obeys_from_spec() -> bool {
        true
    }

    open spec fn from_spec(object_type_definition: GraphQLObjectTypeDefinition) -> Self {
        IsographObjectTypeDefinition {
            description: object_type_definition.description,
            name: object_type_definition.name,
            interfaces: object_type_definition.interfaces,
            directives: object_type_definition.directives,
            fields: object_type_definition.fields,
        }
    }
}

impl From<GraphQLInterfaceTypeDefinition> for IsographObjectTypeDefinition {
    fn from(value: GraphQLInterfaceTypeDefinition) -> (definition: Self) {
        Self {
            description: value.description,
            name: value.name,
            interfaces: value.interfaces,
            directives: value.directives,
            fields: value.fields,
        }
    }
}

impl FromSpecImpl<GraphQLInterfaceTypeDefinition> for IsographObjectTypeDefinition {
    open spec fn obeys_from_spec() -> bool {
        true
    }

    open spec fn from_spec(value: GraphQLInterfaceTypeDefinition) -> Self {
        IsographObjectTypeDefinition {
            description: value.description,
            name: value.name,
            interfaces: value.interfaces,
            directives: value.directives,
            fields: value.fields,
        }
    }
}

/// Whether `definition` is the input object `value` seen as an object: it has
/// the input object's description, name and directives, implements no
/// interface, and has each of its input values as a field, in their order and
/// at their locations.
pub open spec fn is_object_of_input_object(
    definition: IsographObjectTypeDefinition,
    value: GraphQLInputObjectTypeDefinition,
) -> bool {
    &&& definition.description == value.description
    &&& definition.name == value.name
    &&& definition.interfaces@.len() == 0
    &&& definition.directives == value.directives
    &&& definition.fields@.len() == value.fields@.len()
    &&& forall|i: int|
        0 <= i < value.fields@.len() ==> {
            &&& (#[trigger] definition.fields@[i]).location == value.fields@[i].location
            &&& is_field_of_input_value(definition.fields@[i].item, value.fields@[i].item)
        }
}

impl From<GraphQLInputObjectTypeDefinition> for IsographObjectTypeDefinition {
    fn from(value: GraphQLInputObjectTypeDefinition) -> (definition: Self)
        ensures
            is_object_of_input_object(definition, value),
    {
        let ghost given = value.fields@;
        let mut input_values = value.fields;
        let mut reversed: Vec<WithLocation<GraphQLInputValueDefinition>> = Vec::new();
        while input_values.len() > 0
            invariant
                reversed@.len() + input_values@.len() == given.len(),
                forall|i: int|
                    0 <= i < input_values@.len() ==> #[trigger] input_values@[i] == given[i],
                forall|i: int|
                    0 <= i < reversed@.len() ==> #[trigger] reversed@[i] == given[given.len() - 1
                        - i],
            decreases input_values@.len(),
        {
            let with_location = input_values.pop().unwrap();
            reversed.push(with_location);
        }
        let mut fields: Vec<WithLocation<GraphQLFieldDefinition>> = Vec::new();
        while reversed.len() > 0
            invariant
                fields@.len() + reversed@.len() == given.len(),
                forall|i: int|
                    0 <= i < reversed@.len() ==> #[trigger] reversed@[i] == given[given.len() - 1
                        - i],
                forall|i: int|
                    0 <= i < fields@.len() ==> {
                        &&& (#[trigger] fields@[i]).location == given[i].location
                        &&& is_field_of_input_value(fields@[i].item, given[i].item)
                    },
            decreases reversed@.len(),
        {
            let with_location = reversed.pop().unwrap();
            fields.push(
                WithLocation::new(
                    GraphQLFieldDefinition::from(with_location.item),
                    with_location.location,
                ),
            );
        }
        Self {
            description: value.description,
            name: value.name,
            interfaces: Vec::new(),
            directives: value.directives,
            fields,
        }
    }
}

impl FromSpecImpl<GraphQLInputObjectTypeDefinition> for IsographObjectTypeDefinition {
    /// The conversion is stated by `is_object_of_input_object`.
    open spec fn obeys_from_spec() -> bool {
        false
    }

    open spec fn from_spec(value: GraphQLInputObjectTypeDefinition) -> Self {
        choose|definition: IsographObjectTypeDefinition|
            is_object_of_input_object(definition, value)
    }
}

} // verus!
