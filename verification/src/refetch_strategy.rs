//! How the parent of a client field is fetched anew.

use crate::ids::ServerObjectId;
use crate::selection::Selection;
use crate::source_location::WithSpan;
use vstd::prelude::*;

verus! {

/// Fetches the item anew through a field of a root type, with a selection set
/// of its own.
#[derive(Debug)]
pub struct UseRefetchFieldRefetchStrategy<TScalarField, TLinkedField> {
    /// The root type from which the item is reached.
    pub root_fetchable_type: ServerObjectId,
    /// What is selected to identify the item and fetch it anew.
    pub refetch_selection_set: Vec<WithSpan<Selection<TScalarField, TLinkedField>>>,
}

/// A way to fetch an item anew.
#[derive(Debug)]
pub enum RefetchStrategy<TScalarField, TLinkedField> {
    UseRefetchField(UseRefetchFieldRefetchStrategy<TScalarField, TLinkedField>),
}

impl<TScalarField, TLinkedField> RefetchStrategy<TScalarField, TLinkedField> {
    /// The selection set that the strategy fetches with.
    pub open spec fn spec_refetch_selection_set(&self) -> Vec<
        WithSpan<Selection<TScalarField, TLinkedField>>,
    > {
        match *self {
            RefetchStrategy::UseRefetchField(used) => used.refetch_selection_set,
        }
    }

    /// The selection set that the strategy fetches with.
    pub fn refetch_selection_set(&self) -> (selection_set: &Vec<
        WithSpan<Selection<TScalarField, TLinkedField>>,
    >)
        ensures
            *selection_set == self.spec_refetch_selection_set(),
    {
        match self {
            RefetchStrategy::UseRefetchField(used) => &used.refetch_selection_set,
        }
    }
}

} // verus!
