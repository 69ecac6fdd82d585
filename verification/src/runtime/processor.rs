//! The execution engine: runs the body of a function on an operand stack.

use crate::ast::{Func, Instr};
use crate::runtime::error::RuntimeError;
use crate::runtime::stack::{spec_pop, Stack, Value};
use vstd::prelude::*;

verus! {

/// The sum of two 32-bit integers, wrapping around on overflow.
pub open spec fn spec_i32_add(a: i32, b: i32) -> i32 {
    if a + b > i32::MAX {
        (a + b - 0x1_0000_0000) as i32
    } else if a + b < i32::MIN {
        (a + b + 0x1_0000_0000) as i32
    } else {
        (a + b) as i32
    }
}

/// The state in which execution stopped: the operand stack, and whether
/// execution trapped.
pub struct Outcome {
    pub stack: Seq<Value>,
    pub trapped: bool,
}

/// One instruction.
///
/// `local.get i` pushes the `i`-th argument and traps if there is none.
/// `i32.add` pops two 32-bit integers and pushes their wrapping sum; it
/// traps, leaving what it has popped off the stack, if an operand is missing
/// or is no 32-bit integer.
pub open spec fn spec_step(instr: Instr, params: Seq<i32>, stack: Seq<Value>) -> Outcome {
    match instr {
        Instr::LocalGet(i) => if i < params.len() {
            Outcome { stack: stack.push(Value::I32(params[i as int])), trapped: false }
        } else {
            Outcome { stack, trapped: true }
        },
        Instr::I32Add => match spec_pop::<i32>(stack) {
            Some((a, below_a)) => match spec_pop::<i32>(below_a) {
                Some((b, below_b)) => Outcome {
                    stack: below_b.push(Value::I32(spec_i32_add(a, b))),
                    trapped: false,
                },
                None => Outcome { stack: below_a, trapped: true },
            },
            None => Outcome { stack, trapped: true },
        },
    }
}

/// The instructions of `body` in order, up to the first that traps.
pub open spec fn spec_run(body: Seq<Instr>, params: Seq<i32>, stack: Seq<Value>) -> Outcome
    decreases body.len(),
{
    if body.len() == 0 {
        Outcome { stack, trapped: false }
    } else {
        let first = spec_step(body.first(), params, stack);
        if first.trapped {
            first
        } else {
            spec_run(body.drop_first(), params, first.stack)
        }
    }
}

/// An execution engine with its operand stack. Its view is the stack.
pub struct Processor {
    stack: Stack,
}

impl View for Processor {
    type V = Seq<Value>;

    closed spec fn view(&self) -> Seq<Value> {
        self.stack@
    }
}

impl Processor {
    /// An engine with an empty stack.
    pub fn new() -> (p: Self)
        ensures
            p@ == Seq::<Value>::empty(),
    {
        Self { stack: Stack::new() }
    }

    /// Runs one instruction.
    fn step(&mut self, instr: &Instr, params: &[i32]) -> (r: Result<(), RuntimeError>)
        ensures
            final(self)@ == spec_step(*instr, params@, old(self)@).stack,
            r == if spec_step(*instr, params@, old(self)@).trapped {
                Err::<(), RuntimeError>(RuntimeError::Trap)
            } else {
                Ok::<(), RuntimeError>(())
            },
    {
        match instr {
            Instr::LocalGet(i) => {
                if *i < params.len() {
                    self.stack.push(params[*i]);
                    Ok(())
                } else {
                    Err(RuntimeError::Trap)
                }
            },
            Instr::I32Add => {
                let a: i32 = match self.stack.pop() {
                    Ok(a) => a,
                    Err(e) => {
                        return Err(e);
                    },
                };
                let b: i32 = match self.stack.pop() {
                    Ok(b) => b,
                    Err(e) => {
                        return Err(e);
                    },
                };
                self.stack.push(a.wrapping_add(b));
                Ok(())
            },
        }
    }

    /// Runs the body of `func` with `params` as its arguments. Execution
    /// stops at the first instruction that traps, and the result is then
    /// `Trap`.
    pub fn execute_func(&mut self, func: &Func, params: &[i32]) -> (r: Result<(), RuntimeError>)
        ensures
            final(self)@ == spec_run(func@.body, params@, old(self)@).stack,
            r == if spec_run(func@.body, params@, old(self)@).trapped {
                Err::<(), RuntimeError>(RuntimeError::Trap)
            } else {
                Ok::<(), RuntimeError>(())
            },
    {
        let n = func.body.len();
        let ghost whole = spec_run(func@.body, params@, old(self)@);
        let mut i: usize = 0;
        assert(func.body@.skip(0) =~= func.body@);
        while i < n
            invariant
                i <= n,
                n == func.body.len(),
                whole == spec_run(func@.body, params@, old(self)@),
                whole == spec_run(func.body@.skip(i as int), params@, self@),
            decreases n - i,
        {
            assert(func.body@.skip(i as int).drop_first() =~= func.body@.skip(i as int + 1));
            match self.step(&func.body[i], params) {
                Ok(()) => {},
                Err(e) => {
                    return Err(e);
                },
            }
            i = i + 1;
        }
        Ok(())
    }

    /// Pops the result, a 32-bit integer, off the stack. On an empty stack,
    /// or one whose top is no 32-bit integer, the result is `Trap` and the
    /// stack stays as it is.
    pub fn get_result(&mut self) -> (r: Result<i32, RuntimeError>)
        ensures
            match spec_pop::<i32>(old(self)@) {
                Some((v, rest)) => r == Ok::<i32, RuntimeError>(v) && final(self)@ == rest,
                None => r == Err::<i32, RuntimeError>(RuntimeError::Trap) && final(self)@ == old(
                    self
                )@,
            },
    {
        self.stack.pop::<i32>()
    }
}

} // verus!
