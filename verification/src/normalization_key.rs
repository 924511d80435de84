//! Normalization keys: what a normalized cache files the result of a selected
//! field under. The key of a field is made of its name and its arguments;
//! the order in which the arguments were written makes no difference.

use crate::names::{FieldArgumentName, SelectableFieldName};
use crate::selection::LinkedFieldSelection;
use crate::values::{NonConstantValue, NonConstantValueView};
use vstd::prelude::*;
use vstd::std_specs::cmp::PartialEqSpecImpl;
use vstd::string::StringExecFns;

verus! {

/// An argument of a selected field: its name and the value given to it.
#[derive(Debug, Hash, PartialOrd, Ord)]
pub struct ArgumentKeyAndValue {
    pub key: FieldArgumentName,
    pub value: NonConstantValue,
}

impl View for ArgumentKeyAndValue {
    type V = (Seq<char>, NonConstantValueView);

    open spec fn view(&self) -> (Seq<char>, NonConstantValueView) {
        (self.key@, self.value@)
    }
}

impl Clone for ArgumentKeyAndValue {
    fn clone(&self) -> (copy: Self)
        ensures
            copy == *self,
    {
        ArgumentKeyAndValue { key: self.key.clone(), value: self.value.clone() }
    }
}

impl PartialEq for ArgumentKeyAndValue {
    fn eq(&self, other: &Self) -> (equal: bool) {
        self.key == other.key && self.value == other.value
    }
}

impl Eq for ArgumentKeyAndValue {

}

impl PartialEqSpecImpl for ArgumentKeyAndValue {
    open spec fn obeys_eq_spec() -> bool {
        true
    }

    open spec fn eq_spec(&self, other: &Self) -> bool {
        self@ == other@
    }
}

/// The arguments of a list, without their order and without repetition.
pub open spec fn argument_set(arguments: Seq<ArgumentKeyAndValue>) -> Set<
    (Seq<char>, NonConstantValueView),
> {
    Set::new(
        |argument: (Seq<char>, NonConstantValueView)|
            exists|i: int| 0 <= i < arguments.len() && (#[trigger] arguments[i])@ == argument,
    )
}

/// A selected field: its name and the arguments given to it, in the order in
/// which they were written.
#[derive(Debug, PartialEq, Eq, Hash, PartialOrd, Ord)]
pub struct NameAndArguments {
    pub name: SelectableFieldName,
    pub arguments: Vec<ArgumentKeyAndValue>,
}

impl Clone for NameAndArguments {
    fn clone(&self) -> (copy: Self)
        ensures
            copy.name == self.name,
            copy.arguments@ == self.arguments@,
    {
        NameAndArguments { name: self.name.clone(), arguments: self.arguments.clone() }
    }
}

/// The way from a root to a field by which an item is fetched anew: the
/// linked fields to go through, then the field.
#[derive(Debug, PartialEq, Eq, Hash, PartialOrd, Ord)]
pub struct PathToRefetchField {
    pub linked_fields: Vec<NameAndArguments>,
    pub field_name: SelectableFieldName,
}

/// What a normalized cache files the result of a selected field under.
#[derive(Debug)]
pub enum NormalizationKey {
    /// The key of the field named `id`.
    Id,
    /// The key of any other field: its name and arguments.
    ServerField(NameAndArguments),
}

/// What a `NormalizationKey` stands for: the arguments count as a set.
pub enum NormalizationKeyView {
    Id,
    ServerField { name: Seq<char>, arguments: Set<(Seq<char>, NonConstantValueView)> },
}

/// The key of the field `name` selected with `arguments`.
pub open spec fn normalization_key_of(
    name: Seq<char>,
    arguments: Set<(Seq<char>, NonConstantValueView)>,
) -> NormalizationKeyView {
    if name == "id"@ {
        NormalizationKeyView::Id
    } else {
        NormalizationKeyView::ServerField { name, arguments }
    }
}

impl View for NormalizationKey {
    type V = NormalizationKeyView;

    open spec fn view(&self) -> NormalizationKeyView {
        match *self {
            NormalizationKey::Id => NormalizationKeyView::Id,
            NormalizationKey::ServerField(field) => NormalizationKeyView::ServerField {
                name: field.name@,
                arguments: argument_set(field.arguments@),
            },
        }
    }
}

/// Whether an argument with that name and value is in the list.
fn contains_argument(arguments: &Vec<ArgumentKeyAndValue>, wanted: &ArgumentKeyAndValue) -> (found:
    bool)
    ensures
        found == argument_set(arguments@).contains(wanted@),
{
    let mut i: usize = 0;
    while i < arguments.len()
        invariant
            i <= arguments@.len(),
            forall|k: int| 0 <= k < i ==> (#[trigger] arguments@[k])@ != wanted@,
        decreases arguments@.len() - i,
    {
        if arguments[i] == *wanted {
            return true;
        }
        i += 1;
    }
    false
}

/// Whether every argument of `arguments` is in `others`.
fn includes_arguments(others: &Vec<ArgumentKeyAndValue>, arguments: &Vec<ArgumentKeyAndValue>) -> (
    included: bool)
    ensures
        included == argument_set(arguments@).subset_of(argument_set(others@)),
{
    let mut i: usize = 0;
    while i < arguments.len()
        invariant
            i <= arguments@.len(),
            forall|k: int|
                0 <= k < i ==> argument_set(others@).contains((#[trigger] arguments@[k])@),
        decreases arguments@.len() - i,
    {
        if !contains_argument(others, &arguments[i]) {
            return false;
        }
        i += 1;
    }
    true
}

impl PartialEq for NormalizationKey {
    fn eq(&self, other: &Self) -> (equal: bool) {
        match (self, other) {
            (NormalizationKey::Id, NormalizationKey::Id) => true,
            (NormalizationKey::ServerField(field), NormalizationKey::ServerField(other_field)) => {
                let equal = field.name == other_field.name && includes_arguments(
                    &field.arguments,
                    &other_field.arguments,
                ) && includes_arguments(&other_field.arguments, &field.arguments);
                proof {
                    if equal {
                        assert(argument_set(field.arguments@) =~= argument_set(
                            other_field.arguments@,
                        ));
                    }
                }
                equal
            },
            _ => false,
        }
    }
}

impl Eq for NormalizationKey {

}

impl PartialEqSpecImpl for NormalizationKey {
    open spec fn obeys_eq_spec() -> bool {
        true
    }

    open spec fn eq_spec(&self, other: &Self) -> bool {
        self@ == other@
    }
}

impl NameAndArguments {
    /// The key under which the result of the field is filed: the key `Id`
    /// for the field named `id`, and else the field's name with its
    /// arguments, which count as a set.
    pub fn normalization_key(&self) -> (key: NormalizationKey)
        ensures
            key@ == normalization_key_of(self.name@, argument_set(self.arguments@)),
    {
        let id = String::from_str("id");
        if self.name == id {
            NormalizationKey::Id
        } else {
            NormalizationKey::ServerField(self.clone())
        }
    }
}

impl PathToRefetchField {
    /// The keys of the linked fields on the way, one for each and in their
    /// order.
    pub fn normalization_keys(&self) -> (keys: Vec<NormalizationKey>)
        ensures
            keys@.len() == self.linked_fields@.len(),
            forall|i: int|
                0 <= i < keys@.len() ==> (#[trigger] keys@[i])@ == normalization_key_of(
                    self.linked_fields@[i].name@,
                    argument_set(self.linked_fields@[i].arguments@),
                ),
    {
        let mut keys: Vec<NormalizationKey> = Vec::new();
        let mut i: usize = 0;
        while i < self.linked_fields.len()
            invariant
                i <= self.linked_fields@.len(),
                keys@.len() == i,
                forall|k: int|
                    0 <= k < i ==> (#[trigger] keys@[k])@ == normalization_key_of(
                        self.linked_fields@[k].name@,
                        argument_set(self.linked_fields@[k].arguments@),
                    ),
            decreases self.linked_fields@.len() - i,
        {
            keys.push(self.linked_fields[i].normalization_key());
            i += 1;
        }
        keys
    }
}

/// The name and the arguments of a selected linked field, each argument with
/// its name and a copy of its value, in their order.
pub fn into_name_and_arguments<T, U>(field: &LinkedFieldSelection<T, U>) -> (selected:
    NameAndArguments)
    ensures
        selected.name == field.name.item,
        selected.arguments@.len() == field.arguments@.len(),
        forall|i: int|
            0 <= i < field.arguments@.len() ==> {
                &&& (#[trigger] selected.arguments@[i]).key == field.arguments@[i].item.name.item
                &&& selected.arguments@[i].value == field.arguments@[i].item.value.item
            },
{
    let mut arguments: Vec<ArgumentKeyAndValue> = Vec::new();
    let mut i: usize = 0;
    while i < field.arguments.len()
        invariant
            i <= field.arguments@.len(),
            arguments@.len() == i,
            forall|k: int|
                0 <= k < i ==> {
                    &&& (#[trigger] arguments@[k]).key == field.arguments@[k].item.name.item
                    &&& arguments@[k].value == field.arguments@[k].item.value.item
                },
        decreases field.arguments@.len() - i,
    {
        let selection_field_argument = &field.arguments[i];
        arguments.push(
            ArgumentKeyAndValue {
                key: selection_field_argument.item.name.item.clone(),
                value: selection_field_argument.item.value.item.clone(),
            },
        );
        i += 1;
    }
    NameAndArguments { name: field.name.item.clone(), arguments }
}

/// Two selections of a field have the same key exactly if both are of the field
/// `id`, or both are of one other field with the same arguments, whatever the
/// order in which the arguments stand. The key of `id` is the key of no other
/// field.
pub proof fn lemma_keys_are_equal_iff_names_and_argument_sets_are(
    first: NameAndArguments,
    second: NameAndArguments,
)
    ensures
        normalization_key_of(first.name@, argument_set(first.arguments@)) == normalization_key_of(
            second.name@,
            argument_set(second.arguments@),
        ) <==> if first.name@ == "id"@ {
            second.name@ == "id"@
        } else {
            first.name@ == second.name@ && argument_set(first.arguments@) == argument_set(
                second.arguments@,
            )
        },
        normalization_key_of(first.name@, argument_set(first.arguments@)) is Id <==> first.name@
            == "id"@,
{
}

/// Where two lists hold the same arguments, in whatever order, they are the
/// same set of arguments.
pub proof fn lemma_argument_order_is_ignored(
    first: Seq<ArgumentKeyAndValue>,
    second: Seq<ArgumentKeyAndValue>,
)
    requires
        forall|i: int|
            0 <= i < first.len() ==> exists|j: int|
                0 <= j < second.len() && (#[trigger] second[j])@ == (#[trigger] first[i])@,
        forall|j: int|
            0 <= j < second.len() ==> exists|i: int|
                0 <= i < first.len() && (#[trigger] first[i])@ == (#[trigger] second[j])@,
    ensures
        argument_set(first) == argument_set(second),
{
}

} // verus!
