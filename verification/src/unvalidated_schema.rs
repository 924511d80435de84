//! The draft state of a schema, in which types and fields are referred to by
//! name.

use crate::ids::{SelectableServerFieldId, ServerScalarId};
use crate::isograph_schema::{
    ObjectTypeAndFieldName, Schema, SchemaValidationState, ServerFieldData,
};
use crate::names::UnvalidatedTypeName;
use crate::source_location::{Location, TextSource, WithLocation, WithSpan};
use vstd::pervasive::unreached;
use vstd::prelude::*;
use vstd::string::StringExecFns;

verus! {

/// The state of a schema as it was parsed.
#[derive(Debug)]
pub struct UnvalidatedSchemaState;

impl SchemaValidationState for UnvalidatedSchemaState {
    type FieldTypeAssociatedData = UnvalidatedTypeName;

    type ClientFieldSelectionScalarFieldAssociatedData = ();

    type ClientFieldSelectionLinkedFieldAssociatedData = ();

    type VariableDefinitionInnerType = UnvalidatedTypeName;

    type Entrypoint = Vec<(TextSource, WithSpan<ObjectTypeAndFieldName>)>;
}

/// A schema as it was parsed.
pub type UnvalidatedSchema = Schema<UnvalidatedSchemaState>;

/// The scalars that every schema has, by name.
pub open spec fn built_in_types() -> Map<Seq<char>, SelectableServerFieldId> {
    Map::<Seq<char>, SelectableServerFieldId>::empty().insert(
        "ID"@,
        SelectableServerFieldId::Scalar(ServerScalarId(0)),
    ).insert("String"@, SelectableServerFieldId::Scalar(ServerScalarId(1))).insert(
        "Float"@,
        SelectableServerFieldId::Scalar(ServerScalarId(2)),
    ).insert("Boolean"@, SelectableServerFieldId::Scalar(ServerScalarId(3))).insert(
        "Int"@,
        SelectableServerFieldId::Scalar(ServerScalarId(4)),
    )
}

/// Stores a scalar that every schema has. The name must be free.
fn add_built_in_scalar(
    data: &mut ServerFieldData,
    name: &'static str,
    javascript_name: &'static str,
) -> (id: ServerScalarId)
    requires
        !old(data).defined_types@.contains_key(name@),
        old(data).is_valid(),
    ensures
        id.0 == old(data).server_scalars@.len(),
        final(data).server_scalars@.len() == old(data).server_scalars@.len() + 1,
        final(data).server_scalars@[id.0 as int].name.item@ == name@,
        final(data).server_scalars@[id.0 as int].name.location == Location::Generated,
        final(data).server_scalars@[id.0 as int].javascript_name@ == javascript_name@,
        final(data).server_scalars@[id.0 as int].description is None,
        forall|i: int|
            0 <= i < old(data).server_scalars@.len() ==> #[trigger] final(data).server_scalars@[i]
                == old(data).server_scalars@[i],
        final(data).defined_types@ == old(data).defined_types@.insert(
            name@,
            SelectableServerFieldId::Scalar(id),
        ),
        final(data).server_objects == old(data).server_objects,
        final(data).is_valid(),
{
    let result = data.allocate_scalar(
        None,
        WithLocation::new(String::from_str(name), Location::generated()),
        String::from_str(javascript_name),
    );
    match result {
        Ok(id) => id,
        // The name is free, so the scalar was stored.
        Err(_) => unreached(),
    }
}

impl Schema<UnvalidatedSchemaState> {
    /// A schema that holds nothing but the scalars that every schema has:
    /// `ID`, `String`, `Float`, `Boolean` and `Int`, in this order.
    pub fn new() -> (schema: UnvalidatedSchema)
        ensures
            schema.is_valid(),
            schema.server_fields@.len() == 0,
            schema.client_fields@.len() == 0,
            schema.entrypoints@.len() == 0,
            schema.fetchable_types@.len() == 0,
            schema.server_field_data.server_objects@.len() == 0,
            schema.server_field_data.server_scalars@.len() == 5,
            schema.server_field_data.defined_types@ == built_in_types(),
            schema.id_type_id == ServerScalarId(0),
            schema.string_type_id == ServerScalarId(1),
            schema.float_type_id == ServerScalarId(2),
            schema.boolean_type_id == ServerScalarId(3),
            schema.int_type_id == ServerScalarId(4),
            schema.server_field_data.server_scalars@[0].name.item@ == "ID"@,
            schema.server_field_data.server_scalars@[1].name.item@ == "String"@,
            schema.server_field_data.server_scalars@[2].name.item@ == "Float"@,
            schema.server_field_data.server_scalars@[3].name.item@ == "Boolean"@,
            schema.server_field_data.server_scalars@[4].name.item@ == "Int"@,
            schema.server_field_data.server_scalars@[0].javascript_name@ == "string"@,
            schema.server_field_data.server_scalars@[1].javascript_name@ == "string"@,
            schema.server_field_data.server_scalars@[2].javascript_name@ == "number"@,
            schema.server_field_data.server_scalars@[3].javascript_name@ == "boolean"@,
            schema.server_field_data.server_scalars@[4].javascript_name@ == "number"@,
    {
        proof {
            reveal_strlit("ID");
            reveal_strlit("String");
            reveal_strlit("Float");
            reveal_strlit("Boolean");
            reveal_strlit("Int");
            assert("ID"@.len() == 2);
            assert("String"@.len() == 6);
            assert("Float"@.len() == 5);
            assert("Boolean"@.len() == 7);
        }
        let mut server_field_data = ServerFieldData::new();
        let id_type_id = add_built_in_scalar(&mut server_field_data, "ID", "string");
        let string_type_id = add_built_in_scalar(&mut server_field_data, "String", "string");
        let float_type_id = add_built_in_scalar(&mut server_field_data, "Float", "number");
        let boolean_type_id = add_built_in_scalar(&mut server_field_data, "Boolean", "boolean");
        let int_type_id = add_built_in_scalar(&mut server_field_data, "Int", "number");
        Schema {
            server_fields: Vec::new(),
            client_fields: Vec::new(),
            entrypoints: Vec::new(),
            server_field_data,
            id_type_id,
            string_type_id,
            float_type_id,
            boolean_type_id,
            int_type_id,
            fetchable_types: Vec::new(),
        }
    }
}

} // verus!
