//! The machine's stack: bounded, order-preserving integer storage with an
//! explicit stack pointer and pointer-relative indexed access.

use vstd::prelude::*;

use crate::isa::PathError;
use crate::isa::STACK_SIZE;
use crate::semantics::stk_ok;
use crate::semantics::stk_read;
use crate::semantics::stk_write;

verus! {

/// Error of a push on a full stack or a pop on an empty one.
#[derive(Copy, Clone, Debug, PartialEq, Eq, Structural)]
pub enum StackError {
    PushErr,
    PopErr,
}

/// A bounded stack of signed integers.  Its view is the sequence of stored
/// values, bottom first.
pub struct Stack {
    memory: Vec<i32>,
    sp: isize,
}

impl View for Stack {
    type V = Seq<i32>;

    closed spec fn view(&self) -> Seq<i32> {
        self.memory@
    }
}

impl Stack {
    /// The stack pointer always equals `length - 1` (so `-1` when empty).
    /// Every operation preserves this; no operation may leave pointer and
    /// length in disagreement.
    pub closed spec fn sp_consistent(&self) -> bool {
        self.sp == self.memory@.len() - 1
    }

    /// Well-formedness: the stack pointer agrees with the length, and the
    /// length never exceeds the fixed capacity.
    pub open spec fn wf(&self) -> bool {
        &&& self.sp_consistent()
        &&& self@.len() <= STACK_SIZE
    }

    /// A new, empty stack.
    pub fn new() -> (s: Stack)
        ensures
            s.wf(),
            s@ == Seq::<i32>::empty(),
    {
        Stack { memory: Vec::new(), sp: -1 }
    }

    /// The stack pointer: the index of the current top, `-1` when empty.
    pub fn _get_sp(&self) -> (sp: isize)
        requires
            self.wf(),
        ensures
            sp == self@.len() - 1,
    {
        self.sp
    }

    /// How many values the stack currently holds.
    pub fn len(&self) -> (n: usize)
        ensures
            n == self@.len(),
    {
        self.memory.len()
    }

    /// The value at physical index `i`, counted from the bottom.
    pub fn at(&self, i: usize) -> (r: i32)
        requires
            i < self@.len(),
        ensures
            r == self@[i as int],
    {
        self.memory[i]
    }

    /// The value at offset `idx` from the top (`stack_pointer - idx`), or an
    /// address error when the offset resolves outside the stored values.
    /// Resolving any offset against an empty stack is a caller's error, so
    /// the stack must be non-empty.
    pub fn get_at_idx(&self, idx: isize) -> (r: Result<i32, PathError>)
        requires
            self.wf(),
            self@.len() > 0,
        ensures
            r == (if stk_ok(self@, idx as int) {
                Ok::<i32, PathError>(stk_read(self@, idx as int))
            } else {
                Err::<i32, PathError>(PathError::StackErr)
            }),
    {
        if 0 <= idx && idx <= self.sp {
            Ok(self.memory[(self.sp - idx) as usize])
        } else {
            Err(PathError::StackErr)
        }
    }

    /// Overwrite the value at offset `idx` from the top, with the same
    /// addressing rule and precondition as [`Stack::get_at_idx`].  On an
    /// address error nothing is changed.
    pub fn set_at_idx(&mut self, idx: isize, val: i32) -> (r: Result<(), PathError>)
        requires
            old(self).wf(),
            old(self)@.len() > 0,
        ensures
            final(self).wf(),
            stk_ok(old(self)@, idx as int) ==> r == Ok::<(), PathError>(()) && final(self)@
                == stk_write(old(self)@, idx as int, val),
            !stk_ok(old(self)@, idx as int) ==> r == Err::<(), PathError>(PathError::StackErr)
                && final(self)@ == old(self)@,
    {
        if 0 <= idx && idx <= self.sp {
            let i = (self.sp - idx) as usize;
            self.memory[i] = val;
            Ok(())
        } else {
            Err(PathError::StackErr)
        }
    }

    /// Remove and return the top value; underflow error on an empty stack,
    /// which is left unchanged.  On success the stack pointer decrements.
    pub fn pop(&mut self) -> (r: Result<i32, StackError>)
        requires
            old(self).wf(),
        ensures
            final(self).wf(),
            old(self)@.len() > 0 ==> r == Ok::<i32, StackError>(old(self)@.last()) && final(self)@
                == old(self)@.drop_last(),
            old(self)@.len() == 0 ==> r == Err::<i32, StackError>(StackError::PopErr)
                && final(self)@ == old(self)@,
    {
        if self.memory.len() > 0 {
            self.sp = self.sp - 1;
            let v = self.memory.pop().unwrap();
            Ok(v)
        } else {
            Err(StackError::PopErr)
        }
    }

    /// Append `value` on top; overflow error when the stack already holds
    /// `STACK_SIZE` values, which leaves it unchanged.  On success the stack
    /// pointer increments.
    pub fn push(&mut self, value: i32) -> (r: Result<(), StackError>)
        requires
            old(self).wf(),
        ensures
            final(self).wf(),
            old(self)@.len() < STACK_SIZE ==> r == Ok::<(), StackError>(()) && final(self)@
                == old(self)@.push(value),
            old(self)@.len() >= STACK_SIZE ==> r == Err::<(), StackError>(StackError::PushErr)
                && final(self)@ == old(self)@,
    {
        if self.memory.len() < STACK_SIZE {
            self.sp = self.sp + 1;
            self.memory.push(value);
            Ok(())
        } else {
            Err(StackError::PushErr)
        }
    }
}

} // verus!
