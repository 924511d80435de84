//! Selections: what a client field reads from its parent object. A selection
//! names a field; a linked field carries the selections made on its target.

use crate::names::{
    FieldArgumentName, LinkedFieldAlias, ScalarFieldAlias, SelectableFieldName, VariableName,
};
use crate::source_location::{WithLocation, WithSpan};
use crate::type_annotation::GraphQLTypeAnnotation;
use crate::values::{GraphQLDirective, NonConstantValue};
use vstd::prelude::*;

verus! {

/// A step applied to the value that a selection yields.
#[derive(Clone, Copy, Debug, PartialEq, Eq, Structural, Hash, PartialOrd, Ord)]
pub enum Unwrap {
    ActualUnwrap,
    SkippedUnwrap,
}

/// An argument given to a selected field.
#[derive(Debug, PartialEq, Eq, Hash, PartialOrd, Ord)]
pub struct SelectionFieldArgument {
    pub name: WithSpan<FieldArgumentName>,
    pub value: WithLocation<NonConstantValue>,
}

/// A directive written on a selection.
pub type IsographFieldDirective = GraphQLDirective<NonConstantValue>;

/// The definition of a variable or of a field's argument: a name and a type.
#[derive(Debug, PartialEq, Eq, Hash, PartialOrd, Ord)]
pub struct VariableDefinition<TValue> {
    pub name: WithLocation<VariableName>,
    pub type_: GraphQLTypeAnnotation<TValue>,
}

/// A selection of a field without selections of its own.
#[derive(Debug)]
pub struct ScalarFieldSelection<TScalarField> {
    pub name: WithLocation<SelectableFieldName>,
    pub reader_alias: Option<WithLocation<ScalarFieldAlias>>,
    pub associated_data: TScalarField,
    pub unwraps: Vec<WithSpan<Unwrap>>,
    pub arguments: Vec<WithLocation<SelectionFieldArgument>>,
    pub directives: Vec<WithSpan<IsographFieldDirective>>,
}

/// A selection of a field whose type is an object, with the selections made
/// on that object.
#[derive(Debug)]
pub struct LinkedFieldSelection<TScalarField, TLinkedField> {
    pub name: WithLocation<SelectableFieldName>,
    pub reader_alias: Option<WithLocation<LinkedFieldAlias>>,
    pub associated_data: TLinkedField,
    pub selection_set: Vec<WithSpan<Selection<TScalarField, TLinkedField>>>,
    pub unwraps: Vec<WithSpan<Unwrap>>,
    pub arguments: Vec<WithLocation<SelectionFieldArgument>>,
    pub directives: Vec<WithSpan<IsographFieldDirective>>,
}

/// A selection of a field that the server defines, or that resolves to a
/// client field.
#[derive(Debug)]
pub enum ServerFieldSelection<TScalarField, TLinkedField> {
    ScalarField(ScalarFieldSelection<TScalarField>),
    LinkedField(LinkedFieldSelection<TScalarField, TLinkedField>),
}

/// One entry of a selection set.
#[derive(Debug)]
pub enum Selection<TScalarField, TLinkedField> {
    ServerField(ServerFieldSelection<TScalarField, TLinkedField>),
}

impl<TScalarField, TLinkedField> Selection<TScalarField, TLinkedField> {
    /// The name of the selected field.
    pub open spec fn field_name(self) -> Seq<char> {
        match self {
            Selection::ServerField(ServerFieldSelection::ScalarField(scalar)) => scalar.name.item@,
            Selection::ServerField(ServerFieldSelection::LinkedField(linked)) => linked.name.item@,
        }
    }

    /// The name of the selected field.
    pub fn name(&self) -> (name: &SelectableFieldName)
        ensures
            name@ == self.field_name(),
    {
        match self {
            Selection::ServerField(ServerFieldSelection::ScalarField(scalar)) => &scalar.name.item,
            Selection::ServerField(ServerFieldSelection::LinkedField(linked)) => &linked.name.item,
        }
    }
}

} // verus!
