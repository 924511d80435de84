//! The kinds of names that occur in a schema. Every name is held as text;
//! contracts speak of a name through its view, a sequence of characters.

use vstd::prelude::*;

verus! {

/// The name of a field that can be selected on an object: a server field or a
/// client field.
pub type SelectableFieldName = String;

/// The name of an object type, an interface or a union.
pub type IsographObjectTypeName = String;

/// A type name as it was written, before it is known to exist.
pub type UnvalidatedTypeName = String;

/// The name of a scalar type.
pub type GraphQLScalarTypeName = String;

/// The name of an interface type.
pub type GraphQLInterfaceTypeName = String;

/// The name of an input object type.
pub type GraphQLInputObjectTypeName = String;

/// The name of a type that can be the type of an argument.
pub type InputTypeName = String;

/// The name of an argument of a field.
pub type FieldArgumentName = String;

/// The name of an argument or a variable definition.
pub type InputValueName = String;

/// The name of a variable.
pub type VariableName = String;

/// The name of a directive.
pub type DirectiveName = String;

/// The name of an argument of a directive.
pub type DirectiveArgumentName = String;

/// The name under which a client reads a selected scalar field.
pub type ScalarFieldAlias = String;

/// The name under which a client reads a selected linked field.
pub type LinkedFieldAlias = String;

/// The name by which generated code refers to a scalar's representation.
pub type JavascriptName = String;

/// The text of a description.
pub type DescriptionValue = String;

/// The name of the file that holds one kind of artifact.
pub type ArtifactFileType = String;

/// The path of a source file.
pub type SourceFileName = String;

} // verus!
