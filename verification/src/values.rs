//! Values that appear as arguments: constants in the schema's directives, and
//! values that may refer to variables in a selection's arguments.

use crate::names::{DirectiveArgumentName, DirectiveName, VariableName};
use crate::source_location::{WithLocation, WithSpan};
use vstd::prelude::*;
use vstd::std_specs::cmp::PartialEqSpecImpl;

verus! {

/// A name paired with a value.
#[derive(Debug, PartialEq, Eq, Hash, PartialOrd, Ord)]
pub struct NameValuePair<TName, TValue> {
    pub name: WithLocation<TName>,
    pub value: WithLocation<TValue>,
}

/// A value that holds no variable.
#[derive(Debug, PartialEq, Eq, Hash, PartialOrd, Ord)]
pub enum GraphQLConstantValue {
    Int(i64),
    Boolean(bool),
    String(String),
    Null,
    Enum(String),
    List(Vec<WithLocation<GraphQLConstantValue>>),
    Object(Vec<NameValuePair<String, GraphQLConstantValue>>),
}

/// A directive with its arguments.
#[derive(Debug, PartialEq, Eq, Hash, PartialOrd, Ord)]
pub struct GraphQLDirective<TValue> {
    pub name: WithSpan<DirectiveName>,
    pub arguments: Vec<NameValuePair<DirectiveArgumentName, TValue>>,
}

/// The value of a selection's argument: a variable or a literal.
#[derive(Debug, Hash, PartialOrd, Ord)]
pub enum NonConstantValue {
    Variable(VariableName),
    Integer(i64),
    Boolean(bool),
    String(String),
    Null,
    Enum(String),
}

/// What a `NonConstantValue` stands for.
pub enum NonConstantValueView {
    Variable(Seq<char>),
    Integer(i64),
    Boolean(bool),
    String(Seq<char>),
    Null,
    Enum(Seq<char>),
}

impl View for NonConstantValue {
    type V = NonConstantValueView;

    open spec fn view(&self) -> NonConstantValueView {
        match *self {
            NonConstantValue::Variable(name) => NonConstantValueView::Variable(name@),
            NonConstantValue::Integer(value) => NonConstantValueView::Integer(value),
            NonConstantValue::Boolean(value) => NonConstantValueView::Boolean(value),
            NonConstantValue::String(text) => NonConstantValueView::String(text@),
            NonConstantValue::Null => NonConstantValueView::Null,
            NonConstantValue::Enum(name) => NonConstantValueView::Enum(name@),
        }
    }
}

impl Clone for NonConstantValue {
    fn clone(&self) -> (copy: Self)
        ensures
            copy == *self,
    {
        match self {
            NonConstantValue::Variable(name) => NonConstantValue::Variable(name.clone()),
            NonConstantValue::Integer(value) => NonConstantValue::Integer(*value),
            NonConstantValue::Boolean(value) => NonConstantValue::Boolean(*value),
            NonConstantValue::String(text) => NonConstantValue::String(text.clone()),
            NonConstantValue::Null => NonConstantValue::Null,
            NonConstantValue::Enum(name) => NonConstantValue::Enum(name.clone()),
        }
    }
}

impl PartialEq for NonConstantValue {
    fn eq(&self, other: &Self) -> (equal: bool) {
        match (self, other) {
            (NonConstantValue::Variable(a), NonConstantValue::Variable(b)) => *a == *b,
            (NonConstantValue::Integer(a), NonConstantValue::Integer(b)) => *a == *b,
            (NonConstantValue::Boolean(a), NonConstantValue::Boolean(b)) => *a == *b,
            (NonConstantValue::String(a), NonConstantValue::String(b)) => *a == *b,
            (NonConstantValue::Null, NonConstantValue::Null) => true,
            (NonConstantValue::Enum(a), NonConstantValue::Enum(b)) => *a == *b,
            _ => false,
        }
    }
}

impl Eq for NonConstantValue {

}

impl PartialEqSpecImpl for NonConstantValue {
    open spec fn obeys_eq_spec() -> bool {
        true
    }

    open spec fn eq_spec(&self, other: &Self) -> bool {
        self@ == other@
    }
}

} // verus!
