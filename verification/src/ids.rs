//! Identifiers into the arenas of a schema. An identifier is the index at
//! which its item was stored; items are never removed, so an identifier stays
//! valid for as long as the schema lives.

use vstd::prelude::*;

verus! {

/// Identifies a server object.
#[derive(Clone, Copy, Debug, PartialEq, Eq, Structural, Hash, PartialOrd, Ord)]
pub struct ServerObjectId(pub usize);

/// Identifies a server scalar.
#[derive(Clone, Copy, Debug, PartialEq, Eq, Structural, Hash, PartialOrd, Ord)]
pub struct ServerScalarId(pub usize);

/// Identifies a server field.
#[derive(Clone, Copy, Debug, PartialEq, Eq, Structural, Hash, PartialOrd, Ord)]
pub struct ServerFieldId(pub usize);

/// Identifies a client field.
#[derive(Clone, Copy, Debug, PartialEq, Eq, Structural, Hash, PartialOrd, Ord)]
pub struct ClientFieldId(pub usize);

/// Identifies a server field that is the id field of its parent object.
#[derive(Clone, Copy, Debug, PartialEq, Eq, Structural, Hash, PartialOrd, Ord)]
pub struct ServerStrongIdFieldId(pub usize);

/// Identifies a type that a server field can have: an object or a scalar.
#[derive(Clone, Copy, Debug, PartialEq, Eq, Structural, Hash, PartialOrd, Ord)]
pub enum SelectableServerFieldId {
    Object(ServerObjectId),
    Scalar(ServerScalarId),
}

impl ServerObjectId {
    /// The index of the object in its arena.
    pub fn as_usize(&self) -> (index: usize)
        ensures
            index == self.0,
    {
        self.0
    }
}

impl ServerScalarId {
    /// The index of the scalar in its arena.
    pub fn as_usize(&self) -> (index: usize)
        ensures
            index == self.0,
    {
        self.0
    }
}

impl ServerFieldId {
    /// The index of the field in its arena.
    pub fn as_usize(&self) -> (index: usize)
        ensures
            index == self.0,
    {
        self.0
    }
}

impl ClientFieldId {
    /// The index of the field in its arena.
    pub fn as_usize(&self) -> (index: usize)
        ensures
            index == self.0,
    {
        self.0
    }
}

impl ServerStrongIdFieldId {
    /// The index of the field in the arena of server fields.
    pub fn as_usize(&self) -> (index: usize)
        ensures
            index == self.0,
    {
        self.0
    }

    /// The same field, seen as an ordinary server field.
    pub fn as_server_field_id(&self) -> (id: ServerFieldId)
        ensures
            id == ServerFieldId(self.0),
    {
        ServerFieldId(self.0)
    }
}

impl SelectableServerFieldId {
    /// The object's id, if the type is an object.
    pub fn as_object_id(&self) -> (id: Option<ServerObjectId>)
        ensures
            id == match *self {
                SelectableServerFieldId::Object(object_id) => Some(object_id),
                SelectableServerFieldId::Scalar(_) => None,
            },
    {
        match self {
            SelectableServerFieldId::Object(object_id) => Some(*object_id),
            SelectableServerFieldId::Scalar(_) => None,
        }
    }

    /// The scalar's id, if the type is a scalar.
    pub fn as_scalar_id(&self) -> (id: Option<ServerScalarId>)
        ensures
            id == match *self {
                SelectableServerFieldId::Object(_) => None,
                SelectableServerFieldId::Scalar(scalar_id) => Some(scalar_id),
            },
    {
        match self {
            SelectableServerFieldId::Object(_) => None,
            SelectableServerFieldId::Scalar(scalar_id) => Some(*scalar_id),
        }
    }
}

} // verus!
