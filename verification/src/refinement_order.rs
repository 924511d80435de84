//! What a successful refinement comes to, whatever the order in which the
//! subtypes and their supertypes were taken: every supertype has, for each
//! of its subtypes that can be refined to, the pointer to that subtype, and
//! besides the fields it had nothing else.

use crate::add_pointers_to_supertypes::{
    are_known, can_be_refined_to, conflicts_at, declares, entry_relates, names_each_pair_once,
    has_typename_server_field, is_pointer_to, occurs_before, pointer_name, pointer_registered,
    refinement_is_known, refines_all, refines_subtype, stops_at, TypeRefinement,
    TypeRefinementMap,
};
use crate::ids::{ServerFieldId, ServerObjectId};
use crate::isograph_schema::{FieldDefinitionLocation, SchemaObject};
use crate::process_type_definition_error::{
    ProcessTypeDefinitionError, ProcessTypeDefinitionResult,
};
use crate::source_location::WithLocation;
use crate::unvalidated_schema::UnvalidatedSchema;
use vstd::prelude::*;

verus! {

/// Whether refinement reads the same of an object in both states: the
/// object is declared alike, has the same id field, has every field it had
/// before, and has a field `__typename` in both states or in neither.
pub open spec fn reads_alike(before: SchemaObject, after: SchemaObject) -> bool {
    &&& after.same_declaration(&before)
    &&& after.id_field == before.id_field
    &&& before.encountered_fields@.submap_of(after.encountered_fields@)
    &&& after.encountered_fields@.contains_key("__typename"@)
        <==> before.encountered_fields@.contains_key("__typename"@)
}

/// Whether `later` is `earlier` after some steps of refinement: the same
/// objects, of which refinement reads the same, the same server fields
/// followed by new ones, and nothing else changed.
pub open spec fn is_refined_from(later: UnvalidatedSchema, earlier: UnvalidatedSchema) -> bool {
    &&& later.server_field_data.server_objects@.len()
        == earlier.server_field_data.server_objects@.len()
    &&& later.same_outside_fields(&earlier)
    &&& earlier.server_fields@.len() <= later.server_fields@.len()
    &&& forall|i: int|
        0 <= i < earlier.server_fields@.len() ==> #[trigger] later.server_fields@[i]
            == earlier.server_fields@[i]
    &&& forall|object_id: ServerObjectId|
        earlier.server_field_data.has_object(object_id) ==> reads_alike(
            earlier.server_field_data.spec_object(object_id),
            #[trigger] later.server_field_data.spec_object(object_id),
        )
}

/// Whether the supertype has the pointer to the subtype: under the pointer's
/// name it has a stored server field, and that field is the pointer to the
/// subtype.
pub open spec fn has_pointer_to(
    schema: UnvalidatedSchema,
    subtype: SchemaObject,
    supertype_id: ServerObjectId,
) -> bool {
    let fields = schema.fields_of(supertype_id);
    let name = pointer_name(subtype.name@);
    &&& fields.contains_key(name)
    &&& fields[name] matches FieldDefinitionLocation::Server(id)
    &&& schema.has_server_field(id)
    &&& is_pointer_to(schema.server_fields@[id.0 as int], id, subtype)
}

/// Whether `name` is the name of the pointer to a subtype that can be
/// refined to and that the list declares under the supertype.
pub open spec fn is_name_of_declared_pointer(
    earlier: UnvalidatedSchema,
    refinements: Seq<TypeRefinement>,
    supertype_id: ServerObjectId,
    name: Seq<char>,
) -> bool {
    exists|subtype_id: ServerObjectId|
        {
            &&& #[trigger] declares(refinements, subtype_id, supertype_id)
            &&& can_be_refined_to(earlier.server_field_data.spec_object(subtype_id))
            &&& name == pointer_name(earlier.server_field_data.spec_object(subtype_id).name@)
        }
}

/// What a successful refinement comes to, stated without the order of the
/// list. Each supertype has the pointer to each subtype that can be refined
/// to and that the list declares under it. Each field of a supertype is one
/// that it had, unchanged, or such a pointer.
pub open spec fn holds_the_declared_pointers(
    earlier: UnvalidatedSchema,
    later: UnvalidatedSchema,
    refinements: Seq<TypeRefinement>,
) -> bool {
    &&& is_refined_from(later, earlier)
    &&& forall|subtype_id: ServerObjectId, supertype_id: ServerObjectId|
        #[trigger] declares(refinements, subtype_id, supertype_id) && can_be_refined_to(
            earlier.server_field_data.spec_object(subtype_id),
        ) ==> has_pointer_to(
            later,
            earlier.server_field_data.spec_object(subtype_id),
            supertype_id,
        )
    &&& forall|supertype_id: ServerObjectId, name: Seq<char>|
        earlier.server_field_data.has_object(supertype_id) && #[trigger] later.fields_of(
            supertype_id,
        ).contains_key(name) ==> earlier.fields_of(supertype_id).contains_key(name)
            || is_name_of_declared_pointer(earlier, refinements, supertype_id, name)
}

/// The name of a pointer is never `__typename`.
pub proof fn lemma_pointer_name_is_not_typename(subtype_name: Seq<char>)
    ensures
        pointer_name(subtype_name) != "__typename"@,
{
    reveal_strlit("as");
    reveal_strlit("__typename");
    assert(pointer_name(subtype_name)[0] == 'a');
}

/// One step of refinement leaves a schema of which refinement reads the
/// same.
proof fn lemma_step_is_refined_from(
    middle: UnvalidatedSchema,
    later: UnvalidatedSchema,
    subtype_id: ServerObjectId,
    supertype_ids: Seq<ServerObjectId>,
    result: ProcessTypeDefinitionResult<()>,
)
    requires
        refines_subtype(middle, later, subtype_id, supertype_ids, result),
        refinement_is_known(middle, subtype_id, supertype_ids),
    ensures
        is_refined_from(later, middle),
{
    let subtype = middle.server_field_data.spec_object(subtype_id);
    let name = pointer_name(subtype.name@);
    let id = ServerFieldId(middle.server_fields.len());
    if can_be_refined_to(subtype) && has_typename_server_field(subtype) {
        let stop = choose|stop: int|
            {
                &&& #[trigger] stops_at(middle, name, supertype_ids, stop)
                &&& pointer_registered(middle, later, name, id, supertype_ids, stop)
            };
        lemma_pointer_name_is_not_typename(subtype.name@);
        assert forall|object_id: ServerObjectId|
            middle.server_field_data.has_object(object_id) implies reads_alike(
            middle.server_field_data.spec_object(object_id),
            #[trigger] later.server_field_data.spec_object(object_id),
        ) by {
            if occurs_before(supertype_ids, stop, object_id) {
                let at = choose|at: int|
                    0 <= at < stop && #[trigger] supertype_ids[at] == object_id;
                assert(!conflicts_at(middle, name, supertype_ids, at));
            }
        }
    }
}

/// A successful run of refinement comes to the same, whatever the order of
/// its list: see `holds_the_declared_pointers`.
pub proof fn lemma_successful_run_holds_the_declared_pointers(
    earlier: UnvalidatedSchema,
    later: UnvalidatedSchema,
    refinements: Seq<TypeRefinement>,
)
    requires
        refines_all(
            earlier,
            later,
            refinements,
            Ok::<(), WithLocation<ProcessTypeDefinitionError>>(()),
        ),
        are_known(earlier, refinements),
    ensures
        holds_the_declared_pointers(earlier, later, refinements),
    decreases refinements.len(),
{
    let done = Ok::<(), WithLocation<ProcessTypeDefinitionError>>(());
    if refinements.len() > 0 {
        let last = refinements.last();
        let rest = refinements.drop_last();
        let middle = choose|middle: UnvalidatedSchema|
            {
                &&& refines_all(earlier, middle, rest, done)
                &&& #[trigger] refines_subtype(
                    middle,
                    later,
                    last.subtype_id,
                    last.supertype_ids@,
                    done,
                )
            };
        lemma_successful_run_holds_the_declared_pointers(earlier, middle, rest);
        lemma_step_is_refined_from(middle, later, last.subtype_id, last.supertype_ids@, done);
        lemma_is_refined_from_is_transitive(earlier, middle, later);

        let subtype = middle.server_field_data.spec_object(last.subtype_id);
        let name = pointer_name(subtype.name@);
        let id = ServerFieldId(middle.server_fields.len());
        let supertype_ids = last.supertype_ids@;

        assert forall|subtype_id: ServerObjectId, supertype_id: ServerObjectId|
            #[trigger] declares(refinements, subtype_id, supertype_id) && can_be_refined_to(
                earlier.server_field_data.spec_object(subtype_id),
            ) implies has_pointer_to(
            later,
            earlier.server_field_data.spec_object(subtype_id),
            supertype_id,
        ) by {
            let i = choose|i: int|
                0 <= i < refinements.len() && entry_relates(
                    #[trigger] refinements[i],
                    subtype_id,
                    supertype_id,
                );
            if i < rest.len() {
                assert(rest[i] == refinements[i]);
                assert(declares(rest, subtype_id, supertype_id));
                if can_be_refined_to(subtype) && has_typename_server_field(subtype) {
                    let stop = choose|stop: int|
                        {
                            &&& #[trigger] stops_at(middle, name, supertype_ids, stop)
                            &&& pointer_registered(middle, later, name, id, supertype_ids, stop)
                            &&& stop == supertype_ids.len() ==> done is Ok
                            &&& stop != supertype_ids.len() ==> done is Err
                        };
                    if occurs_before(supertype_ids, stop, supertype_id) {
                        let at = choose|at: int|
                            0 <= at < stop && #[trigger] supertype_ids[at] == supertype_id;
                        assert(!conflicts_at(middle, name, supertype_ids, at));
                    }
                }
            }
        }

        assert forall|supertype_id: ServerObjectId, name_of_field: Seq<char>|
            earlier.server_field_data.has_object(supertype_id) && #[trigger] later.fields_of(
                supertype_id,
            ).contains_key(name_of_field) implies earlier.fields_of(supertype_id).contains_key(
            name_of_field,
        ) || is_name_of_declared_pointer(earlier, refinements, supertype_id, name_of_field) by {
            if middle.fields_of(supertype_id).contains_key(name_of_field) {
                if !earlier.fields_of(supertype_id).contains_key(name_of_field) {
                    let declared_id = choose|subtype_id: ServerObjectId|
                        {
                            &&& #[trigger] declares(rest, subtype_id, supertype_id)
                            &&& can_be_refined_to(
                                earlier.server_field_data.spec_object(subtype_id),
                            )
                            &&& name_of_field == pointer_name(
                                earlier.server_field_data.spec_object(subtype_id).name@,
                            )
                        };
                    assert(declares(refinements, declared_id, supertype_id));
                }
            } else {
                assert(declares(refinements, last.subtype_id, supertype_id));
            }
        }
    }
}

/// A schema refined from a schema that was refined from another is refined
/// from that other.
pub proof fn lemma_is_refined_from_is_transitive(
    first: UnvalidatedSchema,
    second: UnvalidatedSchema,
    third: UnvalidatedSchema,
)
    requires
        is_refined_from(second, first),
        is_refined_from(third, second),
    ensures
        is_refined_from(third, first),
{
    assert forall|object_id: ServerObjectId|
        first.server_field_data.has_object(object_id) implies reads_alike(
        first.server_field_data.spec_object(object_id),
        #[trigger] third.server_field_data.spec_object(object_id),
    ) by {
        let a = first.server_field_data.spec_object(object_id);
        let b = second.server_field_data.spec_object(object_id);
        let c = third.server_field_data.spec_object(object_id);
        assert forall|name: Seq<char>| #[trigger]
            a.encountered_fields@.dom().contains(name) implies c.encountered_fields@.dom().contains(
            name,
        ) && a.encountered_fields@[name] == c.encountered_fields@[name] by {
            assert(b.encountered_fields@.dom().contains(name));
        }
    }
}

/// The order is irrelevant. Take two lists that declare the same subtypes
/// under the same supertypes, in whatever order, and refine one schema by
/// each. If both runs succeed, the two schemas hold the same: each
/// supertype has the same names of fields in both, a field that it had
/// before leads where it led, and the pointer to a subtype is found under
/// its name in both. Only the ids of the pointers may differ.
pub proof fn lemma_order_of_refinement_is_irrelevant(
    earlier: UnvalidatedSchema,
    one: UnvalidatedSchema,
    other: UnvalidatedSchema,
    one_map: TypeRefinementMap,
    other_map: TypeRefinementMap,
)
    requires
        one_map.is_known_to(earlier),
        other_map.is_known_to(earlier),
        forall|subtype_id: ServerObjectId, supertype_id: ServerObjectId|
            one_map.relates(subtype_id, supertype_id) <==> other_map.relates(
                subtype_id,
                supertype_id,
            ),
        refines_all(
            earlier,
            one,
            one_map@,
            Ok::<(), WithLocation<ProcessTypeDefinitionError>>(()),
        ),
        refines_all(
            earlier,
            other,
            other_map@,
            Ok::<(), WithLocation<ProcessTypeDefinitionError>>(()),
        ),
    ensures
        forall|supertype_id: ServerObjectId, name: Seq<char>|
            earlier.server_field_data.has_object(supertype_id) ==> (#[trigger] one.fields_of(
                supertype_id,
            ).contains_key(name) <==> other.fields_of(supertype_id).contains_key(name)),
        forall|supertype_id: ServerObjectId, name: Seq<char>|
            earlier.server_field_data.has_object(supertype_id) && #[trigger] earlier.fields_of(
                supertype_id,
            ).contains_key(name) ==> one.fields_of(supertype_id)[name] == other.fields_of(
                supertype_id,
            )[name],
        forall|subtype_id: ServerObjectId, supertype_id: ServerObjectId|
            #[trigger] one_map.relates(subtype_id, supertype_id) && can_be_refined_to(
                earlier.server_field_data.spec_object(subtype_id),
            ) ==> has_pointer_to(
                one,
                earlier.server_field_data.spec_object(subtype_id),
                supertype_id,
            ) && has_pointer_to(
                other,
                earlier.server_field_data.spec_object(subtype_id),
                supertype_id,
            ),
{
    let first = one_map@;
    let second = other_map@;
    lemma_successful_run_holds_the_declared_pointers(earlier, one, first);
    lemma_successful_run_holds_the_declared_pointers(earlier, other, second);
    assert forall|subtype_id: ServerObjectId, supertype_id: ServerObjectId|
        declares(first, subtype_id, supertype_id) <==> declares(
            second,
            subtype_id,
            supertype_id,
        ) by {
        assert(one_map.relates(subtype_id, supertype_id) == declares(
            first,
            subtype_id,
            supertype_id,
        ));
    }
    assert forall|supertype_id: ServerObjectId, name: Seq<char>|
        earlier.server_field_data.has_object(supertype_id) implies (#[trigger] one.fields_of(
            supertype_id,
        ).contains_key(name) <==> other.fields_of(supertype_id).contains_key(name)) by {}
    assert forall|supertype_id: ServerObjectId, name: Seq<char>|
        earlier.server_field_data.has_object(supertype_id) && #[trigger] earlier.fields_of(
            supertype_id,
        ).contains_key(name) implies one.fields_of(supertype_id)[name] == other.fields_of(
        supertype_id,
    )[name] by {
        let has_in_one = one.server_field_data.spec_object(supertype_id).encountered_fields@;
        assert(has_in_one.dom().contains(name));
    }
}

/// Whether nothing stands in the way of refining a schema by a list: each
/// subtype that can be refined to has a server field `__typename`; no
/// supertype has a field named as a pointer that it is to receive; and two
/// subtypes that can be refined to and are declared under one supertype have
/// different names.
pub open spec fn nothing_stands_in_the_way(
    earlier: UnvalidatedSchema,
    refinements: Seq<TypeRefinement>,
) -> bool {
    &&& forall|i: int|
        0 <= i < refinements.len() && can_be_refined_to(
            earlier.server_field_data.spec_object((#[trigger] refinements[i]).subtype_id),
        ) ==> has_typename_server_field(
            earlier.server_field_data.spec_object(refinements[i].subtype_id),
        )
    &&& forall|subtype_id: ServerObjectId, supertype_id: ServerObjectId|
        #[trigger] declares(refinements, subtype_id, supertype_id) && can_be_refined_to(
            earlier.server_field_data.spec_object(subtype_id),
        ) ==> !earlier.fields_of(supertype_id).contains_key(
            pointer_name(earlier.server_field_data.spec_object(subtype_id).name@),
        )
    &&& forall|one: ServerObjectId, other: ServerObjectId, supertype_id: ServerObjectId|
        #[trigger] declares(refinements, one, supertype_id) && #[trigger] declares(
            refinements,
            other,
            supertype_id,
        ) && one != other && can_be_refined_to(earlier.server_field_data.spec_object(one))
            && can_be_refined_to(earlier.server_field_data.spec_object(other))
            ==> earlier.server_field_data.spec_object(one).name@
            != earlier.server_field_data.spec_object(other).name@
}

/// Whether refining a schema by a list is free of conflicts: the list names
/// each pair once, and nothing stands in the way.
pub open spec fn is_free_of_conflicts(
    earlier: UnvalidatedSchema,
    refinements: Seq<TypeRefinement>,
) -> bool {
    &&& names_each_pair_once(refinements)
    &&& nothing_stands_in_the_way(earlier, refinements)
}

/// Two pointers have the same name only if their subtypes have.
pub proof fn lemma_pointer_names_differ_as_subtype_names(one: Seq<char>, other: Seq<char>)
    requires
        pointer_name(one) == pointer_name(other),
    ensures
        one == other,
{
    let prefix = "as"@;
    assert(pointer_name(one).subrange(prefix.len() as int, pointer_name(one).len() as int)
        =~= one);
}

/// Success is owed where nothing stands in the way: a run over a list that
/// is free of conflicts succeeds.
pub proof fn lemma_run_free_of_conflicts_succeeds(
    earlier: UnvalidatedSchema,
    later: UnvalidatedSchema,
    refinements: Seq<TypeRefinement>,
    result: ProcessTypeDefinitionResult<()>,
)
    requires
        refines_all(earlier, later, refinements, result),
        are_known(earlier, refinements),
        is_free_of_conflicts(earlier, refinements),
    ensures
        result is Ok,
    decreases refinements.len(),
{
    let done = Ok::<(), WithLocation<ProcessTypeDefinitionError>>(());
    if refinements.len() > 0 {
        let last = refinements.last();
        let rest = refinements.drop_last();
        assert(is_free_of_conflicts(earlier, rest) && are_known(earlier, rest)) by {
            assert forall|subtype_id: ServerObjectId, supertype_id: ServerObjectId|
                #[trigger] declares(rest, subtype_id, supertype_id) implies declares(
                refinements,
                subtype_id,
                supertype_id,
            ) by {}
        }
        if result is Err && refines_all(earlier, later, rest, result) {
            lemma_run_free_of_conflicts_succeeds(earlier, later, rest, result);
        } else {
            let middle = choose|middle: UnvalidatedSchema|
                {
                    &&& refines_all(earlier, middle, rest, done)
                    &&& #[trigger] refines_subtype(
                        middle,
                        later,
                        last.subtype_id,
                        last.supertype_ids@,
                        result,
                    )
                };
            lemma_successful_run_holds_the_declared_pointers(earlier, middle, rest);
            let subtype_before = earlier.server_field_data.spec_object(last.subtype_id);
            let subtype = middle.server_field_data.spec_object(last.subtype_id);
            let name = pointer_name(subtype.name@);
            let id = ServerFieldId(middle.server_fields.len());
            let supertype_ids = last.supertype_ids@;
            if can_be_refined_to(subtype) {
                let stop = choose|stop: int|
                    {
                        &&& #[trigger] stops_at(middle, name, supertype_ids, stop)
                        &&& pointer_registered(middle, later, name, id, supertype_ids, stop)
                        &&& stop == supertype_ids.len() ==> result is Ok
                    };
                if stop < supertype_ids.len() {
                    let supertype_id = supertype_ids[stop];
                    assert(declares(refinements, last.subtype_id, supertype_id));
                    let other = choose|other: ServerObjectId|
                        {
                            &&& #[trigger] declares(rest, other, supertype_id)
                            &&& can_be_refined_to(earlier.server_field_data.spec_object(other))
                            &&& name == pointer_name(
                                earlier.server_field_data.spec_object(other).name@,
                            )
                        };
                    assert(declares(refinements, other, supertype_id));
                    lemma_pointer_names_differ_as_subtype_names(
                        subtype_before.name@,
                        earlier.server_field_data.spec_object(other).name@,
                    );
                }
            }
        }
    }
}

} // verus!
