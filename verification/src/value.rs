//! The structured values that settings are exchanged as.

use vstd::prelude::*;

verus! {

/// What kind of value stands at some place of a document.
#[derive(Clone, Copy, Debug, PartialEq, Eq, Structural)]
pub enum Shape {
    Null,
    Bool,
    Number,
    Text,
    List,
    Object,
}

/// A document, or a part of one.
#[derive(Debug, PartialEq, Eq)]
pub enum Value {
    Null,
    Bool(bool),
    /// A whole number. The schema has no place for any other.
    Number(i64),
    Text(String),
    List(Vec<Value>),
    /// Named members, in the order in which the document lists them. A name
    /// may occur more than once.
    Object(Vec<(String, Value)>),
}

/// A document as a mathematical value.
pub ghost enum ValueView {
    Null,
    Bool(bool),
    Number(int),
    Text(Seq<char>),
    List(Seq<ValueView>),
    Object(Seq<(Seq<char>, ValueView)>),
}

impl ValueView {
    /// What kind of value this is.
    pub open spec fn shape(self) -> Shape {
        match self {
            ValueView::Null => Shape::Null,
            ValueView::Bool(_) => Shape::Bool,
            ValueView::Number(_) => Shape::Number,
            ValueView::Text(_) => Shape::Text,
            ValueView::List(_) => Shape::List,
            ValueView::Object(_) => Shape::Object,
        }
    }
}

/// The mathematical value that `value` holds.
pub open spec fn value_view(value: Value) -> ValueView
    decreases value,
{
    match value {
        Value::Null => ValueView::Null,
        Value::Bool(b) => ValueView::Bool(b),
        Value::Number(n) => ValueView::Number(n as int),
        Value::Text(text) => ValueView::Text(text@),
        Value::List(items) => ValueView::List(
            Seq::new(
                items.len() as nat,
                |i: int|
                    if 0 <= i < items.len() {
                        value_view(items[i])
                    } else {
                        ValueView::Null
                    },
            ),
        ),
        Value::Object(members) => ValueView::Object(
            Seq::new(
                members.len() as nat,
                |i: int|
                    if 0 <= i < members.len() {
                        (members[i].0@, value_view(members[i].1))
                    } else {
                        (Seq::empty(), ValueView::Null)
                    },
            ),
        ),
    }
}

impl View for Value {
    type V = ValueView;

    open spec fn view(&self) -> ValueView {
        value_view(*self)
    }
}

impl Value {
    /// What kind of value this is.
    pub fn shape(&self) -> (s: Shape)
        ensures
            s == self@.shape(),
    {
        match self {
            Value::Null => Shape::Null,
            Value::Bool(_) => Shape::Bool,
            Value::Number(_) => Shape::Number,
            Value::Text(_) => Shape::Text,
            Value::List(_) => Shape::List,
            Value::Object(_) => Shape::Object,
        }
    }
}

/// The members of an object as a mathematical value.
pub open spec fn members_view(members: Vec<(String, Value)>) -> Seq<(Seq<char>, ValueView)> {
    Seq::new(members.len() as nat, |i: int| (members[i].0@, members[i].1@))
}

/// An object's view holds the views of its members, in their order.
pub proof fn lemma_object_view(members: Vec<(String, Value)>)
    ensures
        Value::Object(members)@ == ValueView::Object(members_view(members)),
{
    assert(Value::Object(members)@->Object_0 =~= members_view(members));
}

} // verus!
