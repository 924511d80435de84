//! What can go wrong while a schema is built.

use crate::names::{IsographObjectTypeName, SelectableFieldName, UnvalidatedTypeName};
use crate::source_location::WithLocation;
use vstd::prelude::*;
use vstd::string::StringExecFns;

verus! {

/// A state that the compiler itself should have ruled out. Such a fault tells
/// of a defect in the compiler, not in the schema it was given.
#[derive(Debug, PartialEq, Eq)]
pub enum InternalConsistencyError {
    /// An object that can be refined to has no `__typename` field.
    ExpectedTypenameToExist { parent_type: IsographObjectTypeName },
    /// The `__typename` field of an object is a client field.
    ExpectedTypenameToBeServerField { parent_type: IsographObjectTypeName },
    /// The id field of an object has wrappers around its type, or arguments.
    ExpectedIdFieldToBeValid { field_name: SelectableFieldName },
    /// A client field has neither a reader selection set nor a refetch
    /// strategy.
    ExpectedSelectionSetOrRefetchStrategy { field_name: SelectableFieldName },
}

/// The kind of a type definition.
#[derive(Clone, Copy, Debug, PartialEq, Eq, Structural)]
pub enum TypeDefinitionKind {
    Object,
    Scalar,
}

/// An error in the schema that is being registered or refined.
#[derive(Debug, PartialEq, Eq)]
pub enum ProcessTypeDefinitionError {
    /// Two types were defined under one name.
    DuplicateTypeDefinition {
        type_definition_type: TypeDefinitionKind,
        defined_name: UnvalidatedTypeName,
    },
    /// A field was added to a type that has a field of that name.
    FieldExistsOnType { field_name: SelectableFieldName, parent_type: IsographObjectTypeName },
    /// An id field was set on a type that has one.
    IdFieldAlreadyDefined { parent_type: IsographObjectTypeName },
    /// The compiler found itself in a state it should have ruled out.
    Internal(InternalConsistencyError),
}

/// The result of a step of schema construction.
pub type ProcessTypeDefinitionResult<T> = Result<T, WithLocation<ProcessTypeDefinitionError>>;

impl InternalConsistencyError {
    /// The text of `message`.
    pub open spec fn message_text(self) -> Seq<char> {
        match self {
            InternalConsistencyError::ExpectedTypenameToExist { parent_type } => {
                "Expected __typename to exist on type "@ + parent_type@
                    + ". This is indicative of a bug in Isograph."@
            },
            InternalConsistencyError::ExpectedTypenameToBeServerField { parent_type } => {
                "Expected __typename to be a server field on type "@ + parent_type@
                    + ". This is indicative of a bug in Isograph."@
            },
            InternalConsistencyError::ExpectedIdFieldToBeValid { field_name } => {
                "Expected id field to be valid, but the field "@ + field_name@
                    + " is not. This is indicative of a bug in Isograph."@
            },
            InternalConsistencyError::ExpectedSelectionSetOrRefetchStrategy { field_name } => {
                "Expected client field "@ + field_name@
                    + " to have either a reader selection set or a refetch strategy. This is indicative of a bug in Isograph."@
            },
        }
    }

    /// Describes the fault for a reader.
    pub fn message(&self) -> (text: String)
        ensures
            text@ == self.message_text(),
    {
        match self {
            InternalConsistencyError::ExpectedTypenameToExist { parent_type } => {
                let mut text = String::from_str("Expected __typename to exist on type ");
                text.append(parent_type.as_str());
                text.append(". This is indicative of a bug in Isograph.");
                text
            },
            InternalConsistencyError::ExpectedTypenameToBeServerField { parent_type } => {
                let mut text = String::from_str(
                    "Expected __typename to be a server field on type ",
                );
                text.append(parent_type.as_str());
                text.append(". This is indicative of a bug in Isograph.");
                text
            },
            InternalConsistencyError::ExpectedIdFieldToBeValid { field_name } => {
                let mut text = String::from_str("Expected id field to be valid, but the field ");
                text.append(field_name.as_str());
                text.append(" is not. This is indicative of a bug in Isograph.");
                text
            },
            InternalConsistencyError::ExpectedSelectionSetOrRefetchStrategy { field_name } => {
                let mut text = String::from_str("Expected client field ");
                text.append(field_name.as_str());
                text.append(
                    " to have either a reader selection set or a refetch strategy. This is indicative of a bug in Isograph.",
                );
                text
            },
        }
    }
}

impl TypeDefinitionKind {
    /// The word for the kind in messages.
    pub open spec fn word(self) -> Seq<char> {
        match self {
            TypeDefinitionKind::Object => "object"@,
            TypeDefinitionKind::Scalar => "scalar"@,
        }
    }

    /// The word for the kind in messages.
    pub fn as_str(&self) -> (word: &'static str)
        ensures
            word@ == self.word(),
    {
        match self {
            TypeDefinitionKind::Object => "object",
            TypeDefinitionKind::Scalar => "scalar",
        }
    }
}

impl ProcessTypeDefinitionError {
    /// Whether the error tells of a defect in the compiler rather than of a
    /// mistake in the schema.
    pub open spec fn spec_is_internal_fault(&self) -> bool {
        *self is Internal
    }

    /// Whether the error tells of a defect in the compiler rather than of a
    /// mistake in the schema.
    #[verifier::when_used_as_spec(spec_is_internal_fault)]
    pub fn is_internal_fault(&self) -> (internal: bool)
        ensures
            internal == self.spec_is_internal_fault(),
    {
        match self {
            ProcessTypeDefinitionError::Internal(_) => true,
            _ => false,
        }
    }

    /// The text of `message`.
    pub open spec fn message_text(self) -> Seq<char> {
        match self {
            ProcessTypeDefinitionError::DuplicateTypeDefinition {
                type_definition_type,
                defined_name,
            } => {
                "Duplicate type definition ("@ + type_definition_type.word() + ") named \""@
                    + defined_name@ + "\""@
            },
            ProcessTypeDefinitionError::FieldExistsOnType { field_name, parent_type } => {
                "Failed to add field \""@ + field_name@ + "\" to type \""@ + parent_type@
                    + "\": a field with that name already exists"@
            },
            ProcessTypeDefinitionError::IdFieldAlreadyDefined { parent_type } => {
                "The type \""@ + parent_type@ + "\" already has an id field"@
            },
            ProcessTypeDefinitionError::Internal(fault) => fault.message_text(),
        }
    }

    /// Describes the error for a reader.
    pub fn message(&self) -> (text: String)
        ensures
            text@ == self.message_text(),
    {
        match self {
            ProcessTypeDefinitionError::DuplicateTypeDefinition {
                type_definition_type,
                defined_name,
            } => {
                let mut text = String::from_str("Duplicate type definition (");
                text.append(type_definition_type.as_str());
                text.append(") named \"");
                text.append(defined_name.as_str());
                text.append("\"");
                text
            },
            ProcessTypeDefinitionError::FieldExistsOnType { field_name, parent_type } => {
                let mut text = String::from_str("Failed to add field \"");
                text.append(field_name.as_str());
                text.append("\" to type \"");
                text.append(parent_type.as_str());
                text.append("\": a field with that name already exists");
                text
            },
            ProcessTypeDefinitionError::IdFieldAlreadyDefined { parent_type } => {
                let mut text = String::from_str("The type \"");
                text.append(parent_type.as_str());
                text.append("\" already has an id field");
                text
            },
            ProcessTypeDefinitionError::Internal(fault) => fault.message(),
        }
    }
}

} // verus!
