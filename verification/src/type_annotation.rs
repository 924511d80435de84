//! Type annotations: a named type, wrapped any number of times as a list or
//! as non-null. A non-null wrapper never stands directly around another.

use crate::source_location::WithSpan;
use vstd::prelude::*;

verus! {

/// A type annotation whose innermost named type carries a `TValue`.
#[derive(Debug, PartialEq, Eq, Hash, PartialOrd, Ord)]
pub enum GraphQLTypeAnnotation<TValue> {
    Named(GraphQLNamedTypeAnnotation<TValue>),
    List(Box<GraphQLListTypeAnnotation<TValue>>),
    NonNull(Box<GraphQLNonNullTypeAnnotation<TValue>>),
}

/// A bare named type.
#[derive(Debug, PartialEq, Eq, Hash, PartialOrd, Ord)]
pub struct GraphQLNamedTypeAnnotation<TValue>(pub WithSpan<TValue>);

/// A list of the annotation it holds.
#[derive(Debug, PartialEq, Eq, Hash, PartialOrd, Ord)]
pub struct GraphQLListTypeAnnotation<TValue>(pub GraphQLTypeAnnotation<TValue>);

/// A named type or a list that may not be null.
#[derive(Debug, PartialEq, Eq, Hash, PartialOrd, Ord)]
pub enum GraphQLNonNullTypeAnnotation<TValue> {
    Named(GraphQLNamedTypeAnnotation<TValue>),
    List(GraphQLListTypeAnnotation<TValue>),
}

impl<TValue> GraphQLTypeAnnotation<TValue> {
    /// The value of the innermost named type.
    pub open spec fn spec_inner(self) -> TValue
        decreases self,
    {
        match self {
            GraphQLTypeAnnotation::Named(named) => named.0.item,
            GraphQLTypeAnnotation::List(list) => list.0.spec_inner(),
            GraphQLTypeAnnotation::NonNull(non_null) => match *non_null {
                GraphQLNonNullTypeAnnotation::Named(named) => named.0.item,
                GraphQLNonNullTypeAnnotation::List(list) => list.0.spec_inner(),
            },
        }
    }

    /// The same wrappers and spans around another value.
    pub open spec fn with_inner<TNewValue>(self, value: TNewValue) -> GraphQLTypeAnnotation<
        TNewValue,
    >
        decreases self,
    {
        match self {
            GraphQLTypeAnnotation::Named(named) => GraphQLTypeAnnotation::Named(
                GraphQLNamedTypeAnnotation(WithSpan { item: value, span: named.0.span }),
            ),
            GraphQLTypeAnnotation::List(list) => GraphQLTypeAnnotation::List(
                Box::new(GraphQLListTypeAnnotation(list.0.with_inner(value))),
            ),
            GraphQLTypeAnnotation::NonNull(non_null) => GraphQLTypeAnnotation::NonNull(
                Box::new(
                    match *non_null {
                        GraphQLNonNullTypeAnnotation::Named(named) => {
                            GraphQLNonNullTypeAnnotation::Named(
                                GraphQLNamedTypeAnnotation(
                                    WithSpan { item: value, span: named.0.span },
                                ),
                            )
                        },
                        GraphQLNonNullTypeAnnotation::List(list) => {
                            GraphQLNonNullTypeAnnotation::List(
                                GraphQLListTypeAnnotation(list.0.with_inner(value)),
                            )
                        },
                    },
                ),
            ),
        }
    }

    /// The value of the innermost named type.
    pub fn inner(&self) -> (value: &TValue)
        ensures
            *value == self.spec_inner(),
        decreases self,
    {
        match self {
            GraphQLTypeAnnotation::Named(named) => &named.0.item,
            GraphQLTypeAnnotation::List(list) => list.0.inner(),
            GraphQLTypeAnnotation::NonNull(non_null) => match &**non_null {
                GraphQLNonNullTypeAnnotation::Named(named) => &named.0.item,
                GraphQLNonNullTypeAnnotation::List(list) => list.0.inner(),
            },
        }
    }

    /// The annotation itself when it is a bare named type, without any
    /// wrapper.
    pub fn as_named(&self) -> (named: Option<&GraphQLNamedTypeAnnotation<TValue>>)
        ensures
            named == match *self {
                GraphQLTypeAnnotation::Named(bare) => Some(&bare),
                _ => None,
            },
    {
        match self {
            GraphQLTypeAnnotation::Named(bare) => Some(bare),
            _ => None,
        }
    }

    /// Puts `value` in place of the innermost value and keeps every wrapper
    /// and span.
    pub fn replace_inner<TNewValue>(self, value: TNewValue) -> (replaced: GraphQLTypeAnnotation<
        TNewValue,
    >)
        ensures
            replaced == self.with_inner(value),
        decreases self,
    {
        match self {
            GraphQLTypeAnnotation::Named(named) => GraphQLTypeAnnotation::Named(
                GraphQLNamedTypeAnnotation(WithSpan { item: value, span: named.0.span }),
            ),
            GraphQLTypeAnnotation::List(list) => {
                let inner = *list;
                GraphQLTypeAnnotation::List(
                    Box::new(GraphQLListTypeAnnotation(inner.0.replace_inner(value))),
                )
            },
            GraphQLTypeAnnotation::NonNull(non_null) => {
                let inner = *non_null;
                match inner {
                    GraphQLNonNullTypeAnnotation::Named(named) => GraphQLTypeAnnotation::NonNull(
                        Box::new(
                            GraphQLNonNullTypeAnnotation::Named(
                                GraphQLNamedTypeAnnotation(
                                    WithSpan { item: value, span: named.0.span },
                                ),
                            ),
                        ),
                    ),
                    GraphQLNonNullTypeAnnotation::List(list) => GraphQLTypeAnnotation::NonNull(
                        Box::new(
                            GraphQLNonNullTypeAnnotation::List(
                                GraphQLListTypeAnnotation(list.0.replace_inner(value)),
                            ),
                        ),
                    ),
                }
            },
        }
    }
}

} // verus!
