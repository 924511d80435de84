//! Type refinement: for each subtype that a supertype can be narrowed to, a
//! pointer field is synthesized on the subtype and made a field of each of its
//! supertypes, under the name `as` followed by the subtype's name.

use crate::ids::{ClientFieldId, ServerFieldId, ServerObjectId, ServerStrongIdFieldId};
use crate::isograph_schema::{
    FieldDefinitionLocation, SchemaObject, SchemaServerField,
    SchemaServerFieldInlineFragmentVariant, SchemaServerFieldVariant,
};
use crate::names::UnvalidatedTypeName;
use crate::process_type_definition_error::{
    InternalConsistencyError, ProcessTypeDefinitionError, ProcessTypeDefinitionResult,
};
use crate::refinement_order::{
    holds_the_declared_pointers, is_free_of_conflicts, lemma_run_free_of_conflicts_succeeds,
    nothing_stands_in_the_way,
    lemma_successful_run_holds_the_declared_pointers,
};
use crate::selection::{ScalarFieldSelection, Selection, ServerFieldSelection};
use crate::source_location::{Location, Span, WithLocation, WithSpan};
use crate::type_annotation::{GraphQLNamedTypeAnnotation, GraphQLTypeAnnotation};
use crate::unvalidated_schema::{UnvalidatedSchema, UnvalidatedSchemaState};
use crate::isograph_schema::{lemma_extends_is_transitive, Schema};
use crate::validate_schema::{
    ValidatedIsographSelectionVariant, ValidatedScalarFieldAssociatedData, ValidatedSelection,
};
use vstd::prelude::*;
use vstd::string::StringExecFns;

verus! {

/// A server field of a schema before validation.
pub type UnvalidatedSchemaServerField = SchemaServerField<
    GraphQLTypeAnnotation<UnvalidatedTypeName>,
    UnvalidatedTypeName,
>;

/// The supertypes that one subtype was declared under.
#[derive(Debug, PartialEq, Eq)]
pub struct TypeRefinement {
    pub subtype_id: ServerObjectId,
    pub supertype_ids: Vec<ServerObjectId>,
}

impl Clone for TypeRefinement {
    fn clone(&self) -> (copy: Self)
        ensures
            copy.subtype_id == self.subtype_id,
            copy.supertype_ids@ == self.supertype_ids@,
    {
        TypeRefinement {
            subtype_id: self.subtype_id,
            supertype_ids: self.supertype_ids.clone(),
        }
    }
}

/// The relation between subtypes and their supertypes: for each subtype, the
/// interfaces that it implements and the unions that it is a member of. The
/// map names each subtype once, and under it each of its supertypes once.
#[derive(Debug, PartialEq, Eq)]
pub struct TypeRefinementMap {
    refinements: Vec<TypeRefinement>,
}

impl Clone for TypeRefinementMap {
    fn clone(&self) -> (copy: Self)
        ensures
            copy@.len() == self@.len(),
            forall|i: int|
                0 <= i < self@.len() ==> {
                    &&& (#[trigger] copy@[i]).subtype_id == self@[i].subtype_id
                    &&& copy@[i].supertype_ids@ == self@[i].supertype_ids@
                },
    {
        proof {
            use_type_invariant(self);
        }
        let refinements = self.refinements.clone();
        assert forall|i: int| 0 <= i < refinements@.len() implies {
            &&& (#[trigger] refinements@[i]).subtype_id == self.refinements@[i].subtype_id
            &&& refinements@[i].supertype_ids@ == self.refinements@[i].supertype_ids@
        } by {
            assert(cloned(self.refinements@[i], refinements@[i]));
        }
        TypeRefinementMap { refinements }
    }
}

impl View for TypeRefinementMap {
    type V = Seq<TypeRefinement>;

    /// The subtypes in the order in which they were first declared, each
    /// with its supertypes in the order in which they were declared.
    closed spec fn view(&self) -> Seq<TypeRefinement> {
        self.refinements@
    }
}

/// Whether the list names each subtype once, and under it each of its
/// supertypes once.
pub open spec fn names_each_pair_once(refinements: Seq<TypeRefinement>) -> bool {
    &&& forall|i: int, j: int|
        0 <= i < j < refinements.len() ==> (#[trigger] refinements[i]).subtype_id != (
        #[trigger] refinements[j]).subtype_id
    &&& forall|i: int|
        0 <= i < refinements.len() ==> (#[trigger] refinements[i]).supertype_ids@.no_duplicates()
}

/// The name of the pointer to a subtype: `as`, then the subtype's name.
pub open spec fn pointer_name(subtype_name: Seq<char>) -> Seq<char> {
    "as"@ + subtype_name
}

/// The description of the pointer to a subtype.
pub open spec fn pointer_description(subtype_name: Seq<char>) -> Seq<char> {
    "A client pointer for the "@ + subtype_name + " type."@
}

/// Whether the selection is the generated selection of the scalar server
/// field `field_id` under `name`, with no alias, argument, directive or
/// unwrap.
pub open spec fn is_generated_scalar_selection(
    selection: WithSpan<ValidatedSelection>,
    name: Seq<char>,
    field_id: ServerFieldId,
) -> bool {
    &&& selection.span == Span::spec_generated()
    &&& selection.item matches Selection::ServerField(ServerFieldSelection::ScalarField(scalar))
    &&& scalar.name.item@ == name
    &&& scalar.name.location == Location::Generated
    &&& scalar.reader_alias is None
    &&& scalar.associated_data.location == FieldDefinitionLocation::<
        ServerFieldId,
        ClientFieldId,
    >::Server(field_id)
    &&& scalar.associated_data.selection_variant == ValidatedIsographSelectionVariant::Regular
    &&& scalar.unwraps@.len() == 0
    &&& scalar.arguments@.len() == 0
    &&& scalar.directives@.len() == 0
}

/// Whether the selection set is the one by which an item is told to be of a
/// concrete type: the selection of `id`, then that of `__typename`.
pub open spec fn is_condition_selection_set(
    selection_set: Seq<WithSpan<ValidatedSelection>>,
    id_field: ServerStrongIdFieldId,
    typename_field: ServerFieldId,
) -> bool {
    &&& selection_set.len() == 2
    &&& is_generated_scalar_selection(selection_set[0], "id"@, ServerFieldId(id_field.0))
    &&& is_generated_scalar_selection(selection_set[1], "__typename"@, typename_field)
}

/// Whether an item can be narrowed to the object: it has an id field and a
/// concrete type.
pub open spec fn can_be_refined_to(subtype: SchemaObject) -> bool {
    subtype.id_field is Some && subtype.concrete_type is Some
}

/// Whether the object has a server field named `__typename`.
pub open spec fn has_typename_server_field(subtype: SchemaObject) -> bool {
    subtype.encountered_fields@.contains_key("__typename"@)
        && subtype.encountered_fields@["__typename"@] is Server
}

/// Whether `field` is the pointer to `subtype` that is stored under `id`: a
/// generated field on the subtype, named after it, whose type is the subtype
/// itself, and which narrows to the subtype's concrete type on the condition
/// of its id and its `__typename`.
pub open spec fn is_pointer_to(
    field: UnvalidatedSchemaServerField,
    id: ServerFieldId,
    subtype: SchemaObject,
) -> bool {
    &&& can_be_refined_to(subtype)
    &&& has_typename_server_field(subtype)
    &&& field.description matches Some(description)
    &&& description@ == pointer_description(subtype.name@)
    &&& field.name.item@ == pointer_name(subtype.name@)
    &&& field.name.location == Location::Generated
    &&& field.id == id
    &&& field.parent_type_id == subtype.id
    &&& field.arguments@.len() == 0
    &&& field.associated_data matches GraphQLTypeAnnotation::Named(named)
    &&& named.0.item@ == subtype.name@
    &&& named.0.span == Span::spec_generated()
    &&& !field.is_discriminator
    &&& field.variant matches SchemaServerFieldVariant::InlineFragment(variant)
    &&& variant.server_field_id == id
    &&& variant.concrete_type@ == subtype.concrete_type->0@
    &&& is_condition_selection_set(
        variant.condition_selection_set@,
        subtype.id_field->0,
        subtype.encountered_fields@["__typename"@]->Server_0,
    )
}

/// The generated selection of a scalar server field under a fixed name.
fn generated_scalar_selection(name: &'static str, field_id: ServerFieldId) -> (selection: WithSpan<
    ValidatedSelection,
>)
    ensures
        is_generated_scalar_selection(selection, name@, field_id),
{
    WithSpan::new(
        Selection::ServerField(
            ServerFieldSelection::ScalarField(
                ScalarFieldSelection {
                    arguments: Vec::new(),
                    associated_data: ValidatedScalarFieldAssociatedData {
                        location: FieldDefinitionLocation::Server(field_id),
                        selection_variant: ValidatedIsographSelectionVariant::Regular,
                    },
                    directives: Vec::new(),
                    name: WithLocation::new(String::from_str(name), Location::generated()),
                    reader_alias: None,
                    unwraps: Vec::new(),
                },
            ),
        ),
        Span::generated(),
    )
}

/// What `synthesize_pointer_field` returns for a subtype and the id that the
/// pointer is to be stored under.
pub open spec fn synthesized_for(
    subtype: SchemaObject,
    id: ServerFieldId,
    result: ProcessTypeDefinitionResult<Option<UnvalidatedSchemaServerField>>,
) -> bool {
    if !can_be_refined_to(subtype) {
        result == Ok::<
            Option<UnvalidatedSchemaServerField>,
            WithLocation<ProcessTypeDefinitionError>,
        >(None)
    } else if !subtype.encountered_fields@.contains_key("__typename"@) {
        &&& result matches Err(error)
        &&& error.location == Location::Generated
        &&& error.item == ProcessTypeDefinitionError::Internal(
            InternalConsistencyError::ExpectedTypenameToExist { parent_type: subtype.name },
        )
    } else if !has_typename_server_field(subtype) {
        &&& result matches Err(error)
        &&& error.location == Location::Generated
        &&& error.item == ProcessTypeDefinitionError::Internal(
            InternalConsistencyError::ExpectedTypenameToBeServerField { parent_type: subtype.name },
        )
    } else {
        &&& result matches Ok(Some(field))
        &&& is_pointer_to(field, id, subtype)
    }
}

/// Makes the pointer field for a subtype, to be stored under `id`. A subtype
/// without an id field or without a concrete type gets none. A subtype that
/// can be refined to, but has no server field `__typename`, is an internal
/// fault.
pub fn synthesize_pointer_field(subtype: &SchemaObject, id: ServerFieldId) -> (result:
    ProcessTypeDefinitionResult<Option<UnvalidatedSchemaServerField>>)
    ensures
        synthesized_for(*subtype, id, result),
{
    let id_field = match subtype.id_field {
        Some(id_field) => id_field,
        None => {
            return Ok(None);
        },
    };
    let concrete_type = match &subtype.concrete_type {
        Some(concrete_type) => concrete_type.clone(),
        None => {
            return Ok(None);
        },
    };
    let typename_field = match subtype.encountered_fields.get("__typename") {
        None => {
            return Err(
                WithLocation::new(
                    ProcessTypeDefinitionError::Internal(
                        InternalConsistencyError::ExpectedTypenameToExist {
                            parent_type: subtype.name.clone(),
                        },
                    ),
                    Location::generated(),
                ),
            );
        },
        Some(location) => match location {
            FieldDefinitionLocation::Server(server_field_id) => *server_field_id,
            FieldDefinitionLocation::Client(_) => {
                return Err(
                    WithLocation::new(
                        ProcessTypeDefinitionError::Internal(
                            InternalConsistencyError::ExpectedTypenameToBeServerField {
                                parent_type: subtype.name.clone(),
                            },
                        ),
                        Location::generated(),
                    ),
                );
            },
        },
    };
    let mut field_name = String::from_str("as");
    field_name.append(subtype.name.as_str());
    let mut description = String::from_str("A client pointer for the ");
    description.append(subtype.name.as_str());
    description.append(" type.");
    let associated_data = GraphQLTypeAnnotation::Named(
        GraphQLNamedTypeAnnotation(WithSpan::new(subtype.name.clone(), Span::generated())),
    );
    let mut condition_selection_set = Vec::new();
    condition_selection_set.push(
        generated_scalar_selection("id", id_field.as_server_field_id()),
    );
    condition_selection_set.push(generated_scalar_selection("__typename", typename_field));
    Ok(
        Some(
            SchemaServerField {
                description: Some(description),
                id,
                name: WithLocation::new(field_name, Location::generated()),
                parent_type_id: subtype.id,
                arguments: Vec::new(),
                associated_data,
                is_discriminator: false,
                variant: SchemaServerFieldVariant::InlineFragment(
                    SchemaServerFieldInlineFragmentVariant {
                        server_field_id: id,
                        concrete_type,
                        condition_selection_set,
                    },
                ),
            },
        ),
    )
}

/// The error that tells of a subtype which can be refined to but has no
/// server field `__typename`.
pub open spec fn typename_fault(subtype: SchemaObject) -> WithLocation<ProcessTypeDefinitionError> {
    WithLocation {
        location: Location::Generated,
        item: if !subtype.encountered_fields@.contains_key("__typename"@) {
            ProcessTypeDefinitionError::Internal(
                InternalConsistencyError::ExpectedTypenameToExist { parent_type: subtype.name },
            )
        } else {
            ProcessTypeDefinitionError::Internal(
                InternalConsistencyError::ExpectedTypenameToBeServerField {
                    parent_type: subtype.name,
                },
            )
        },
    }
}

/// Whether `object_id` occurs among the first `bound` supertypes.
pub open spec fn occurs_before(
    supertype_ids: Seq<ServerObjectId>,
    bound: int,
    object_id: ServerObjectId,
) -> bool {
    exists|position: int| 0 <= position < bound && #[trigger] supertype_ids[position] == object_id
}

/// Whether the pointer cannot be added to the supertype at `position`: the
/// supertype had a field of that name, or it occurs earlier in the list and
/// so has received the pointer.
pub open spec fn conflicts_at(
    earlier: UnvalidatedSchema,
    name: Seq<char>,
    supertype_ids: Seq<ServerObjectId>,
    position: int,
) -> bool {
    ||| earlier.fields_of(supertype_ids[position]).contains_key(name)
    ||| occurs_before(supertype_ids, position, supertype_ids[position])
}

/// Whether `stop` is where the registration of a pointer ends: the first
/// position with a conflict, or the length of the list if there is none.
pub open spec fn stops_at(
    earlier: UnvalidatedSchema,
    name: Seq<char>,
    supertype_ids: Seq<ServerObjectId>,
    stop: int,
) -> bool {
    &&& 0 <= stop <= supertype_ids.len()
    &&& forall|position: int|
        0 <= position < stop ==> !#[trigger] conflicts_at(earlier, name, supertype_ids, position)
    &&& stop < supertype_ids.len() ==> conflicts_at(earlier, name, supertype_ids, stop)
}

/// Whether `later` is `earlier` with the pointer added to the first `stop`
/// supertypes: each of them has the field `name` at `id` besides the fields
/// it had, and no other object has changed.
pub open spec fn pointer_registered(
    earlier: UnvalidatedSchema,
    later: UnvalidatedSchema,
    name: Seq<char>,
    id: ServerFieldId,
    supertype_ids: Seq<ServerObjectId>,
    stop: int,
) -> bool {
    &&& later.server_field_data.server_objects@.len()
        == earlier.server_field_data.server_objects@.len()
    &&& forall|object_id: ServerObjectId|
        earlier.server_field_data.has_object(object_id) ==> {
            let before = earlier.server_field_data.spec_object(object_id);
            let after = #[trigger] later.server_field_data.spec_object(object_id);
            &&& after.same_declaration(&before)
            &&& after.id_field == before.id_field
            &&& after.encountered_fields@ == if occurs_before(supertype_ids, stop, object_id) {
                before.encountered_fields@.insert(
                    name,
                    FieldDefinitionLocation::<ServerFieldId, ClientFieldId>::Server(id),
                )
            } else {
                before.encountered_fields@
            }
        }
    &&& later.same_outside_fields(&earlier)
}

/// What refinement does for one subtype and the supertypes it was declared
/// under, from the schema `earlier` to the schema `later`.
///
/// A subtype that cannot be refined to changes nothing. One that can, but has
/// no server field `__typename`, is an internal fault and changes nothing.
/// Otherwise its pointer is stored as one new server field, and added to the
/// supertypes in their order up to the first conflict. A conflict leaves its
/// supertype as it is, keeps what was added before, and is the error.
pub open spec fn refines_subtype(
    earlier: UnvalidatedSchema,
    later: UnvalidatedSchema,
    subtype_id: ServerObjectId,
    supertype_ids: Seq<ServerObjectId>,
    result: ProcessTypeDefinitionResult<()>,
) -> bool {
    let subtype = earlier.server_field_data.spec_object(subtype_id);
    let name = pointer_name(subtype.name@);
    let id = ServerFieldId(earlier.server_fields.len());
    if !can_be_refined_to(subtype) {
        later == earlier && result is Ok
    } else if !has_typename_server_field(subtype) {
        later == earlier && result == Err::<(), WithLocation<ProcessTypeDefinitionError>>(
            typename_fault(subtype),
        )
    } else {
        &&& later.server_fields@.len() == earlier.server_fields@.len() + 1
        &&& forall|i: int|
            0 <= i < earlier.server_fields@.len() ==> #[trigger] later.server_fields@[i]
                == earlier.server_fields@[i]
        &&& is_pointer_to(later.server_fields@[id.0 as int], id, subtype)
        &&& exists|stop: int|
            {
                &&& #[trigger] stops_at(earlier, name, supertype_ids, stop)
                &&& pointer_registered(earlier, later, name, id, supertype_ids, stop)
                &&& if stop == supertype_ids.len() {
                    result is Ok
                } else {
                    &&& result matches Err(error)
                    &&& error.location == Location::Generated
                    &&& error.item matches ProcessTypeDefinitionError::FieldExistsOnType {
                        field_name,
                        parent_type,
                    }
                    &&& field_name@ == name
                    &&& parent_type@ == earlier.server_field_data.spec_object(
                        supertype_ids[stop],
                    ).name@
                }
            }
    }
}

/// What refinement does for a list of subtypes, each with its supertypes,
/// taken in order: each subtype is refined in the schema that the ones before
/// it left, and the first error ends the run.
pub open spec fn refines_all(
    earlier: UnvalidatedSchema,
    later: UnvalidatedSchema,
    refinements: Seq<TypeRefinement>,
    result: ProcessTypeDefinitionResult<()>,
) -> bool
    decreases refinements.len(),
{
    if refinements.len() == 0 {
        later == earlier && result is Ok
    } else {
        let last = refinements.last();
        ||| result is Err && refines_all(earlier, later, refinements.drop_last(), result)
        ||| exists|middle: UnvalidatedSchema|
            {
                &&& refines_all(
                    earlier,
                    middle,
                    refinements.drop_last(),
                    Ok::<(), WithLocation<ProcessTypeDefinitionError>>(()),
                )
                &&& #[trigger] refines_subtype(
                    middle,
                    later,
                    last.subtype_id,
                    last.supertype_ids@,
                    result,
                )
            }
    }
}

/// Whether every object that the refinement names is stored in the schema.
pub open spec fn refinement_is_known(
    schema: UnvalidatedSchema,
    subtype_id: ServerObjectId,
    supertype_ids: Seq<ServerObjectId>,
) -> bool {
    &&& schema.server_field_data.has_object(subtype_id)
    &&& forall|position: int|
        0 <= position < supertype_ids.len() ==> schema.server_field_data.has_object(
            #[trigger] supertype_ids[position],
        )
}

/// A run that an error has ended stays what it is when more refinements
/// follow: they are not looked at.
proof fn lemma_stopped_run_ignores_the_rest(
    earlier: UnvalidatedSchema,
    later: UnvalidatedSchema,
    refinements: Seq<TypeRefinement>,
    done: int,
    result: ProcessTypeDefinitionResult<()>,
)
    requires
        0 <= done <= refinements.len(),
        result is Err,
        refines_all(earlier, later, refinements.take(done), result),
    ensures
        refines_all(earlier, later, refinements, result),
    decreases refinements.len() - done,
{
    if done == refinements.len() {
        assert(refinements.take(done) == refinements);
    } else {
        assert(refinements.take(done + 1).drop_last() == refinements.take(done));
        lemma_stopped_run_ignores_the_rest(earlier, later, refinements, done + 1, result);
    }
}

/// Whether the entry holds `supertype_id` as a supertype of `subtype_id`.
pub open spec fn entry_relates(
    entry: TypeRefinement,
    subtype_id: ServerObjectId,
    supertype_id: ServerObjectId,
) -> bool {
    &&& entry.subtype_id == subtype_id
    &&& exists|position: int|
        0 <= position < entry.supertype_ids@.len() && entry.supertype_ids@[position]
            == supertype_id
}

/// Whether the list declares `subtype_id` under `supertype_id`.
pub open spec fn declares(
    refinements: Seq<TypeRefinement>,
    subtype_id: ServerObjectId,
    supertype_id: ServerObjectId,
) -> bool {
    exists|i: int|
        0 <= i < refinements.len() && entry_relates(
            #[trigger] refinements[i],
            subtype_id,
            supertype_id,
        )
}

/// Whether every object that the list names is stored in the schema.
pub open spec fn are_known(schema: UnvalidatedSchema, refinements: Seq<TypeRefinement>) -> bool {
    forall|i: int|
        0 <= i < refinements.len() ==> refinement_is_known(
            schema,
            (#[trigger] refinements[i]).subtype_id,
            refinements[i].supertype_ids@,
        )
}

/// Adds a pair to a list that names each pair once, unless the list holds
/// it.
fn insert_pair(
    refinements: &mut Vec<TypeRefinement>,
    subtype_id: ServerObjectId,
    supertype_id: ServerObjectId,
)
    ensures
        forall|subtype: ServerObjectId, supertype: ServerObjectId|
            declares(final(refinements)@, subtype, supertype) <==> declares(
                old(refinements)@,
                subtype,
                supertype,
            ) || (subtype == subtype_id && supertype == supertype_id),
        names_each_pair_once(old(refinements)@) ==> names_each_pair_once(final(refinements)@),
        forall|schema: UnvalidatedSchema|
            #![trigger are_known(schema, final(refinements)@)]
            are_known(schema, old(refinements)@) && schema.server_field_data.has_object(
                subtype_id,
            ) && schema.server_field_data.has_object(supertype_id) ==> are_known(
                schema,
                final(refinements)@,
            ),
{
    let ghost before = *refinements;
    let mut index: usize = 0;
    while index < refinements.len()
        invariant
            *refinements == before,
            before == *old(refinements),
            index <= refinements@.len(),
            forall|k: int|
                0 <= k < index ==> (#[trigger] refinements@[k]).subtype_id != subtype_id,
        decreases refinements@.len() - index,
    {
        if refinements[index].subtype_id == subtype_id {
            let mut position: usize = 0;
            while position < refinements[index].supertype_ids.len()
                invariant
                    *refinements == before,
                    before == *old(refinements),
                    index < refinements@.len(),
                    refinements@[index as int].subtype_id == subtype_id,
                    position <= refinements@[index as int].supertype_ids@.len(),
                    forall|k: int|
                        0 <= k < position ==> (
                        #[trigger] refinements@[index as int].supertype_ids@[k])
                            != supertype_id,
                decreases refinements@[index as int].supertype_ids@.len() - position,
            {
                if refinements[index].supertype_ids[position] == supertype_id {
                    return ;
                }
                position += 1;
            }
            let mut entry = TypeRefinement {
                subtype_id,
                supertype_ids: refinements[index].supertype_ids.clone(),
            };
            entry.supertype_ids.push(supertype_id);
            refinements.set(index, entry);
            proof {
                let grown = refinements@[index as int];
                let was = before@[index as int];
                assert(entry_relates(grown, subtype_id, supertype_id)) by {
                    assert(grown.supertype_ids@[was.supertype_ids@.len() as int]
                        == supertype_id);
                }
                assert forall|subtype: ServerObjectId, supertype: ServerObjectId|
                    declares(refinements@, subtype, supertype) <==> declares(
                        before@,
                        subtype,
                        supertype,
                    )
                        || (subtype == subtype_id && supertype == supertype_id) by {
                    if declares(before@, subtype, supertype) {
                        let i = choose|i: int|
                            0 <= i < before@.len() && entry_relates(
                                #[trigger] before@[i],
                                subtype,
                                supertype,
                            );
                        if i == index {
                            let at = choose|at: int|
                                0 <= at < was.supertype_ids@.len() && was.supertype_ids@[at]
                                    == supertype;
                            assert(grown.supertype_ids@[at] == supertype);
                        }
                        assert(entry_relates(refinements@[i], subtype, supertype));
                    }
                }
            }
            return ;
        }
        index += 1;
    }
    let mut supertype_ids: Vec<ServerObjectId> = Vec::new();
    supertype_ids.push(supertype_id);
    refinements.push(TypeRefinement { subtype_id, supertype_ids });
    proof {
        let added = refinements@[before@.len() as int];
        assert(added.supertype_ids@[0] == supertype_id);
        assert forall|subtype: ServerObjectId, supertype: ServerObjectId|
            declares(refinements@, subtype, supertype) <==> declares(
                before@,
                subtype,
                supertype,
            ) || (
            subtype == subtype_id && supertype == supertype_id) by {
            if declares(before@, subtype, supertype) {
                let i = choose|i: int|
                    0 <= i < before@.len() && entry_relates(
                        #[trigger] before@[i],
                        subtype,
                        supertype,
                    );
                assert(refinements@[i] == before@[i]);
            }
        }
    }
}

impl TypeRefinementMap {
    /// Every map names each pair once.
    #[verifier::type_invariant]
    spec fn is_a_mapping(&self) -> bool {
        names_each_pair_once(self.refinements@)
    }

    /// No subtype at all.
    pub fn new() -> (map: TypeRefinementMap)
        ensures
            map@.len() == 0,
    {
        TypeRefinementMap { refinements: Vec::new() }
    }

    /// The subtypes of the map, each with its supertypes.
    pub fn refinements(&self) -> (refinements: &Vec<TypeRefinement>)
        ensures
            refinements@ == self@,
            names_each_pair_once(self@),
    {
        proof {
            use_type_invariant(self);
        }
        &self.refinements
    }

    /// Whether the map holds `supertype_id` as a supertype of `subtype_id`.
    pub open spec fn relates(
        &self,
        subtype_id: ServerObjectId,
        supertype_id: ServerObjectId,
    ) -> bool {
        declares(self@, subtype_id, supertype_id)
    }

    /// Whether the map names each subtype once, and under it each of its
    /// supertypes once. Every map that was made by `new` and `insert` does.
    pub open spec fn is_normalized(&self) -> bool {
        names_each_pair_once(self@)
    }

    /// Records that `subtype_id` was declared under `supertype_id`: that it
    /// implements the interface, or is a member of the union. What the map
    /// held before, it still holds; a pair that it held is not held twice.
    pub fn insert(&mut self, subtype_id: ServerObjectId, supertype_id: ServerObjectId)
        ensures
            forall|subtype: ServerObjectId, supertype: ServerObjectId|
                final(self).relates(subtype, supertype) <==> old(self).relates(subtype, supertype)
                    || (subtype == subtype_id && supertype == supertype_id),
            final(self).is_normalized(),
            forall|schema: UnvalidatedSchema|
                #![trigger final(self).is_known_to(schema)]
                old(self).is_known_to(schema) && schema.server_field_data.has_object(subtype_id)
                    && schema.server_field_data.has_object(supertype_id) ==> final(self).is_known_to(schema),
    {
        proof {
            use_type_invariant(&*self);
        }
        let mut taken = TypeRefinementMap::new();
        std::mem::swap(self, &mut taken);
        let TypeRefinementMap { refinements } = taken;
        let mut refinements = refinements;
        insert_pair(&mut refinements, subtype_id, supertype_id);
        *self = TypeRefinementMap { refinements };
    }

    /// Whether every object that the map names is stored in the schema.
    pub open spec fn is_known_to(&self, schema: UnvalidatedSchema) -> bool {
        are_known(schema, self@)
    }
}

impl Schema<UnvalidatedSchemaState> {
    /// Synthesizes the pointer to one subtype and adds it to each of the
    /// supertypes, in their order. See `refines_subtype`.
    pub fn add_pointers_for_subtype(
        &mut self,
        subtype_id: ServerObjectId,
        supertype_ids: &Vec<ServerObjectId>,
    ) -> (result: ProcessTypeDefinitionResult<()>)
        requires
            refinement_is_known(*old(self), subtype_id, supertype_ids@),
        ensures
            refines_subtype(*old(self), *final(self), subtype_id, supertype_ids@, result),
            final(self).extends(old(self)),
            old(self).is_valid() ==> final(self).is_valid(),
    {
        let ghost earlier = *self;
        let ghost subtype = earlier.server_field_data.spec_object(subtype_id);
        let ghost name = pointer_name(subtype.name@);
        let next_server_field_id = self.next_server_field_id();
        let synthesized = synthesize_pointer_field(
            self.server_field_data.object(subtype_id),
            next_server_field_id,
        );
        let field = match synthesized {
            Err(error) => {
                return Err(error);
            },
            Ok(None) => {
                return Ok(());
            },
            Ok(Some(field)) => field,
        };
        let field_name = field.name.item.clone();
        let id = self.allocate_server_field(field);
        let mut position: usize = 0;
        while position < supertype_ids.len()
            invariant
                earlier == *old(self),
                position <= supertype_ids@.len(),
                refinement_is_known(earlier, subtype_id, supertype_ids@),
                subtype == earlier.server_field_data.spec_object(subtype_id),
                name == pointer_name(subtype.name@),
                can_be_refined_to(subtype),
                has_typename_server_field(subtype),
                field_name@ == name,
                id.0 == earlier.server_fields@.len(),
                self.server_fields@.len() == earlier.server_fields@.len() + 1,
                forall|i: int|
                    0 <= i < earlier.server_fields@.len() ==> #[trigger] self.server_fields@[i]
                        == earlier.server_fields@[i],
                is_pointer_to(self.server_fields@[id.0 as int], id, subtype),
                forall|before: int|
                    0 <= before < position ==> !#[trigger] conflicts_at(
                        earlier,
                        name,
                        supertype_ids@,
                        before,
                    ),
                pointer_registered(earlier, *self, name, id, supertype_ids@, position as int),
                self.extends(&earlier),
                earlier.is_valid() ==> self.is_valid(),
            decreases supertype_ids@.len() - position,
        {
            let supertype_id = supertype_ids[position];
            let ghost before = *self;
            let located_name = WithLocation::new(field_name.clone(), Location::generated());
            match self.insert_encountered_field(
                supertype_id,
                located_name,
                FieldDefinitionLocation::Server(id),
            ) {
                Err(error) => {
                    proof {
                        assert(stops_at(earlier, name, supertype_ids@, position as int));
                    }
                    return Err(error);
                },
                Ok(_) => {},
            }
            proof {
                assert forall|object_id: ServerObjectId|
                    earlier.server_field_data.has_object(object_id) implies {
                    let was = earlier.server_field_data.spec_object(object_id);
                    let after = #[trigger] self.server_field_data.spec_object(object_id);
                    &&& after.same_declaration(&was)
                    &&& after.id_field == was.id_field
                    &&& after.encountered_fields@ == if occurs_before(
                        supertype_ids@,
                        position + 1,
                        object_id,
                    ) {
                        was.encountered_fields@.insert(
                            name,
                            FieldDefinitionLocation::<ServerFieldId, ClientFieldId>::Server(id),
                        )
                    } else {
                        was.encountered_fields@
                    }
                } by {
                    let middle = before.server_field_data.spec_object(object_id);
                }
            }
            position += 1;
        }
        proof {
            assert(stops_at(earlier, name, supertype_ids@, supertype_ids@.len() as int));
        }
        Ok(())
    }

    /// For each supertype, add the pointers for each of its subtypes: a
    /// supertype `Node` that `User` implements gets the field `asUser`. The
    /// subtypes are taken in the order of the map, and the first error ends
    /// the run: see `refines_all`. On success the order has made no
    /// difference but to the ids of the pointers: every supertype has the
    /// pointer to each of its subtypes that can be refined to, and besides
    /// the fields it had nothing else. Success is owed where nothing stands
    /// in the way: see `nothing_stands_in_the_way`.
    pub fn add_pointers_to_supertypes(
        &mut self,
        subtype_to_supertype_map: &TypeRefinementMap,
    ) -> (result: ProcessTypeDefinitionResult<()>)
        requires
            subtype_to_supertype_map.is_known_to(*old(self)),
        ensures
            refines_all(*old(self), *final(self), subtype_to_supertype_map@, result),
            result is Ok ==> holds_the_declared_pointers(
                *old(self),
                *final(self),
                subtype_to_supertype_map@,
            ),
            nothing_stands_in_the_way(*old(self), subtype_to_supertype_map@) ==> result is Ok,
            final(self).extends(old(self)),
            old(self).is_valid() ==> final(self).is_valid(),
    {
        proof {
            use_type_invariant(subtype_to_supertype_map);
        }
        let ghost earlier = *self;
        let ghost refinements = subtype_to_supertype_map@;
        let mut index: usize = 0;
        while index < subtype_to_supertype_map.refinements.len()
            invariant
                earlier == *old(self),
                index <= refinements.len(),
                refinements == subtype_to_supertype_map@,
                refinements == subtype_to_supertype_map.refinements@,
                names_each_pair_once(refinements),
                subtype_to_supertype_map.is_known_to(earlier),
                refines_all(
                    earlier,
                    *self,
                    refinements.take(index as int),
                    Ok::<(), WithLocation<ProcessTypeDefinitionError>>(()),
                ),
                self.extends(&earlier),
                earlier.is_valid() ==> self.is_valid(),
            decreases refinements.len() - index,
        {
            let refinement = &subtype_to_supertype_map.refinements[index];
            let ghost middle = *self;
            let step = self.add_pointers_for_subtype(
                refinement.subtype_id,
                &refinement.supertype_ids,
            );
            proof {
                assert(refinements.take(index + 1).drop_last() == refinements.take(index as int));
                assert(refinements.take(index + 1).last() == *refinement);
                lemma_extends_is_transitive(earlier, middle, *self);
            }
            match step {
                Err(error) => {
                    proof {
                        lemma_stopped_run_ignores_the_rest(
                            earlier,
                            *self,
                            refinements,
                            index + 1,
                            step,
                        );
                        if is_free_of_conflicts(earlier, refinements) {
                            lemma_run_free_of_conflicts_succeeds(
                                earlier,
                                *self,
                                refinements,
                                step,
                            );
                        }
                    }
                    return Err(error);
                },
                Ok(done) => {
                    assert(done == ());
                },
            }
            index += 1;
        }
        proof {
            assert(refinements.take(index as int) == refinements);
            lemma_successful_run_holds_the_declared_pointers(earlier, *self, refinements);
        }
        Ok(())
    }
}

/// A subtype without an id field, or without a concrete type, gets no pointer:
/// refinement succeeds and leaves the whole schema as it was, so no field is
/// synthesized and no supertype changes.
pub proof fn lemma_unrefinable_subtype_changes_nothing(
    earlier: UnvalidatedSchema,
    later: UnvalidatedSchema,
    subtype_id: ServerObjectId,
    supertype_ids: Seq<ServerObjectId>,
    result: ProcessTypeDefinitionResult<()>,
)
    requires
        refines_subtype(earlier, later, subtype_id, supertype_ids, result),
        earlier.server_field_data.spec_object(subtype_id).id_field is None
            || earlier.server_field_data.spec_object(subtype_id).concrete_type is None,
    ensures
        result is Ok,
        later == earlier,
{
}

/// Where no subtype of the list has both an id field and a concrete type,
/// refinement succeeds and leaves the schema as it was.
pub proof fn lemma_unrefinable_subtypes_change_nothing(
    earlier: UnvalidatedSchema,
    later: UnvalidatedSchema,
    refinements: Seq<TypeRefinement>,
    result: ProcessTypeDefinitionResult<()>,
)
    requires
        refines_all(earlier, later, refinements, result),
        forall|i: int|
            0 <= i < refinements.len() ==> !can_be_refined_to(
                earlier.server_field_data.spec_object((#[trigger] refinements[i]).subtype_id),
            ),
    ensures
        result is Ok,
        later == earlier,
    decreases refinements.len(),
{
    if refinements.len() > 0 {
        let last = refinements.last();
        let rest = refinements.drop_last();
        if result is Err && refines_all(earlier, later, rest, result) {
            lemma_unrefinable_subtypes_change_nothing(earlier, later, rest, result);
        } else {
            let middle = choose|middle: UnvalidatedSchema|
                {
                    &&& refines_all(
                        earlier,
                        middle,
                        rest,
                        Ok::<(), WithLocation<ProcessTypeDefinitionError>>(()),
                    )
                    &&& #[trigger] refines_subtype(
                        middle,
                        later,
                        last.subtype_id,
                        last.supertype_ids@,
                        result,
                    )
                };
            lemma_unrefinable_subtypes_change_nothing(
                earlier,
                middle,
                rest,
                Ok::<(), WithLocation<ProcessTypeDefinitionError>>(()),
            );
        }
    }
}

/// Take a subtype with an id field, a concrete type and a server field
/// `__typename`, declared under supertypes that are all different and of which
/// none has a field named as the pointer. Then refinement succeeds, stores
/// exactly one new server field, the pointer to the subtype, and every one of
/// the supertypes has the pointer's name lead to that one field.
pub proof fn lemma_pointer_is_added_to_every_supertype(
    earlier: UnvalidatedSchema,
    later: UnvalidatedSchema,
    subtype_id: ServerObjectId,
    supertype_ids: Seq<ServerObjectId>,
    result: ProcessTypeDefinitionResult<()>,
)
    requires
        refines_subtype(earlier, later, subtype_id, supertype_ids, result),
        refinement_is_known(earlier, subtype_id, supertype_ids),
        can_be_refined_to(earlier.server_field_data.spec_object(subtype_id)),
        has_typename_server_field(earlier.server_field_data.spec_object(subtype_id)),
        forall|position: int|
            0 <= position < supertype_ids.len() ==> !earlier.fields_of(
                #[trigger] supertype_ids[position],
            ).contains_key(pointer_name(earlier.server_field_data.spec_object(subtype_id).name@)),
        forall|first: int, second: int|
            0 <= first < second < supertype_ids.len() ==> supertype_ids[first]
                != supertype_ids[second],
    ensures
        result is Ok,
        later.server_fields@.len() == earlier.server_fields@.len() + 1,
        is_pointer_to(
            later.server_fields@.last(),
            ServerFieldId(earlier.server_fields.len()),
            earlier.server_field_data.spec_object(subtype_id),
        ),
        forall|position: int|
            0 <= position < supertype_ids.len() ==> {
                let fields = later.fields_of(#[trigger] supertype_ids[position]);
                let name = pointer_name(earlier.server_field_data.spec_object(subtype_id).name@);
                &&& fields.contains_key(name)
                &&& fields[name] == FieldDefinitionLocation::<
                    ServerFieldId,
                    ClientFieldId,
                >::Server(ServerFieldId(earlier.server_fields.len()))
            },
{
    let subtype = earlier.server_field_data.spec_object(subtype_id);
    let name = pointer_name(subtype.name@);
    let id = ServerFieldId(earlier.server_fields.len());
    assert forall|position: int| 0 <= position < supertype_ids.len() implies {
        let fields = later.fields_of(#[trigger] supertype_ids[position]);
        &&& fields.contains_key(name)
        &&& fields[name] == FieldDefinitionLocation::<ServerFieldId, ClientFieldId>::Server(id)
    } by {}
}

/// Take a subtype that can be refined to, and a supertype in its list that has
/// a field named as the pointer before refinement runs. Then refinement fails
/// with the error that a field of that name exists, and that supertype's fields
/// are left as they were. The error names the supertype if no conflict comes
/// before it in the list.
pub proof fn lemma_existing_field_is_rejected(
    earlier: UnvalidatedSchema,
    later: UnvalidatedSchema,
    subtype_id: ServerObjectId,
    supertype_ids: Seq<ServerObjectId>,
    result: ProcessTypeDefinitionResult<()>,
    position: int,
)
    requires
        refines_subtype(earlier, later, subtype_id, supertype_ids, result),
        refinement_is_known(earlier, subtype_id, supertype_ids),
        can_be_refined_to(earlier.server_field_data.spec_object(subtype_id)),
        has_typename_server_field(earlier.server_field_data.spec_object(subtype_id)),
        0 <= position < supertype_ids.len(),
        earlier.fields_of(supertype_ids[position]).contains_key(
            pointer_name(earlier.server_field_data.spec_object(subtype_id).name@),
        ),
    ensures
        later.fields_of(supertype_ids[position]) == earlier.fields_of(supertype_ids[position]),
        result matches Err(error)
            && error.item matches ProcessTypeDefinitionError::FieldExistsOnType {
            field_name,
            parent_type,
        } && {
            &&& field_name@ == pointer_name(
                earlier.server_field_data.spec_object(subtype_id).name@,
            )
            &&& (forall|before: int|
                0 <= before < position ==> !#[trigger] conflicts_at(
                    earlier,
                    pointer_name(earlier.server_field_data.spec_object(subtype_id).name@),
                    supertype_ids,
                    before,
                )) ==> parent_type@ == earlier.server_field_data.spec_object(
                supertype_ids[position],
            ).name@
        },
{
    let subtype = earlier.server_field_data.spec_object(subtype_id);
    let name = pointer_name(subtype.name@);
    let id = ServerFieldId(earlier.server_fields.len());
    let stop = choose|stop: int|
        {
            &&& #[trigger] stops_at(earlier, name, supertype_ids, stop)
            &&& pointer_registered(earlier, later, name, id, supertype_ids, stop)
            &&& if stop == supertype_ids.len() {
                result is Ok
            } else {
                &&& result matches Err(error)
                &&& error.location == Location::Generated
                &&& error.item matches ProcessTypeDefinitionError::FieldExistsOnType {
                    field_name,
                    parent_type,
                }
                &&& field_name@ == name
                &&& parent_type@ == earlier.server_field_data.spec_object(
                    supertype_ids[stop],
                ).name@
            }
        };
    if occurs_before(supertype_ids, stop, supertype_ids[position]) {
        let at = choose|at: int|
            0 <= at < stop && #[trigger] supertype_ids[at] == supertype_ids[position];
        assert(conflicts_at(earlier, name, supertype_ids, at));
    }
}

} // verus!
