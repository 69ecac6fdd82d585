//! The operand stack: a last-in, first-out store of typed values.
//!
//! Each entry carries the type of its value, so that popping a value as
//! another type than it was pushed with is a defined fault and no
//! reinterpretation of its bytes.

use crate::runtime::error::RuntimeError;
use vstd::prelude::*;

verus! {

/// A value on the operand stack, tagged with its type.
#[derive(Debug, PartialEq, Eq, Clone, Copy)]
pub enum Value {
    I32(i32),
    I64(i64),
}

/// A type whose values can be pushed on the operand stack and popped from
/// it.
pub trait Stackable: Sized {
    /// The stack entry that stands for `self`.
    spec fn spec_to_value(&self) -> Value;

    /// The value that a stack entry stands for, if it is of this type.
    spec fn spec_from_value(value: Value) -> Option<Self>;

    /// The entry that stands for a value stands for that value.
    proof fn lemma_from_to_value(&self)
        ensures
            Self::spec_from_value(self.spec_to_value()) == Some(*self),
    ;

    /// The stack entry that stands for `self`.
    fn to_value(&self) -> (value: Value)
        ensures
            value == self.spec_to_value(),
    ;

    /// The value that `value` stands for, if it is of this type.
    fn from_value(value: Value) -> (r: Option<Self>)
        ensures
            r == Self::spec_from_value(value),
    ;
}

impl Stackable for i32 {
    open spec fn spec_to_value(&self) -> Value {
        Value::I32(*self)
    }

    open spec fn spec_from_value(value: Value) -> Option<i32> {
        match value {
            Value::I32(v) => Some(v),
            Value::I64(_) => None,
        }
    }

    proof fn lemma_from_to_value(&self) {
    }

    fn to_value(&self) -> (value: Value) {
        Value::I32(*self)
    }

    fn from_value(value: Value) -> (r: Option<i32>) {
        match value {
            Value::I32(v) => Some(v),
            Value::I64(_) => None,
        }
    }
}

impl Stackable for i64 {
    open spec fn spec_to_value(&self) -> Value {
        Value::I64(*self)
    }

    open spec fn spec_from_value(value: Value) -> Option<i64> {
        match value {
            Value::I32(_) => None,
            Value::I64(v) => Some(v),
        }
    }

    proof fn lemma_from_to_value(&self) {
    }

    fn to_value(&self) -> (value: Value) {
        Value::I64(*self)
    }

    fn from_value(value: Value) -> (r: Option<i64>) {
        match value {
            Value::I32(_) => None,
            Value::I64(v) => Some(v),
        }
    }
}

/// What popping a `T` from `stack` gives: the value on top and the stack
/// below it, or nothing if the stack is empty or its top is no `T`.
pub open spec fn spec_pop<T: Stackable>(stack: Seq<Value>) -> Option<(T, Seq<Value>)> {
    if stack.len() == 0 {
        None
    } else {
        match T::spec_from_value(stack.last()) {
            Some(v) => Some((v, stack.drop_last())),
            None => None,
        }
    }
}

/// Popping after pushing gives the pushed value back and leaves the stack as
/// it was before.
pub proof fn lemma_push_pop<T: Stackable>(stack: Seq<Value>, arg: T)
    ensures
        spec_pop::<T>(stack.push(arg.spec_to_value())) == Some((arg, stack)),
{
    arg.lemma_from_to_value();
    assert(stack.push(arg.spec_to_value()).drop_last() =~= stack);
}

/// The operand stack. Its view is the sequence of its entries, the top
/// last.
pub struct Stack {
    stack: Vec<Value>,
}

impl View for Stack {
    type V = Seq<Value>;

    closed spec fn view(&self) -> Seq<Value> {
        self.stack@
    }
}

impl Stack {
    /// An empty stack.
    pub fn new() -> (s: Self)
        ensures
            s@ == Seq::<Value>::empty(),
    {
        Self { stack: Vec::new() }
    }

    /// Pushes `arg`.
    pub fn push<T: Stackable>(&mut self, arg: T)
        ensures
            final(self)@ == old(self)@.push(arg.spec_to_value()),
    {
        self.stack.push(arg.to_value());
    }

    /// Pops a `T`. On an empty stack, or one whose top is no `T`, the result
    /// is `Trap` and the stack stays as it is.
    pub fn pop<T: Stackable>(&mut self) -> (r: Result<T, RuntimeError>)
        ensures
            match spec_pop::<T>(old(self)@) {
                Some((v, rest)) => r == Ok::<T, RuntimeError>(v) && final(self)@ == rest,
                None => r == Err::<T, RuntimeError>(RuntimeError::Trap) && final(self)@ == old(
                    self
                )@,
            },
    {
        let n = self.stack.len();
        if n == 0 {
            return Err(RuntimeError::Trap);
        }
        match T::from_value(self.stack[n - 1]) {
            Some(v) => {
                self.stack.pop();
                Ok(v)
            },
            None => Err(RuntimeError::Trap),
        }
    }
}

} // verus!
