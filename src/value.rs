use vstd::prelude::*;

verus! {

/// A runtime value.
#[derive(Debug, PartialEq, Clone)]
pub enum Value {
    String(String),
    Number(i32),
    Bool(bool),
    /// The result of an `if` chain in which no branch ran.
    Undefined,
}

/// The mathematical form of a [`Value`].
pub enum Val {
    Text(Seq<char>),
    Number(i32),
    Bool(bool),
    Undefined,
}

impl View for Value {
    type V = Val;

    open spec fn view(&self) -> Val {
        match self {
            Value::String(s) => Val::Text(s@),
            Value::Number(n) => Val::Number(*n),
            Value::Bool(b) => Val::Bool(*b),
            Value::Undefined => Val::Undefined,
        }
    }
}

impl Value {
    /// A copy of the value.
    pub fn copy(&self) -> (r: Value)
        ensures
            r@ == self@,
    {
        match self {
            Value::String(s) => Value::String(s.clone()),
            Value::Number(n) => Value::Number(*n),
            Value::Bool(b) => Value::Bool(*b),
            Value::Undefined => Value::Undefined,
        }
    }
}

} // verus!
