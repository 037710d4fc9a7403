//! General laws of the machine, stated and proved over the spec-level
//! semantics that the executable contracts refine.

use vstd::prelude::*;

use crate::isa::Inst;
use crate::isa::Path;
use crate::isa::Reg;
use crate::isa::VmError;
use crate::isa::STACK_SIZE;
use crate::semantics::path_ok;
use crate::semantics::path_read;
use crate::semantics::reg_read;
use crate::semantics::step;
use crate::semantics::steps;
use crate::semantics::with_ip;
use crate::semantics::with_stack;
use crate::semantics::State;
use crate::semantics::StepRes;

verus! {

/// A single stack operation, as the stack's own contracts describe it.
pub ghost enum StackOp {
    Push(i32),
    Pop,
}

/// The stack contents after a sequence of operations, or `None` when the
/// sequence overflows the capacity or underflows the empty stack.  This is
/// the last-in-first-out discipline that `Stack::push` and `Stack::pop`
/// implement operation by operation.
pub open spec fn apply_ops(st: Seq<i32>, ops: Seq<StackOp>) -> Option<Seq<i32>>
    decreases ops.len(),
{
    if ops.len() == 0 {
        Some(st)
    } else {
        match ops.first() {
            StackOp::Push(v) => if st.len() < STACK_SIZE {
                apply_ops(st.push(v), ops.drop_first())
            } else {
                None
            },
            StackOp::Pop => if st.len() > 0 {
                apply_ops(st.drop_last(), ops.drop_first())
            } else {
                None
            },
        }
    }
}

/// The operation sequence that pushes the values of `vs` in order.
pub open spec fn pushes(vs: Seq<i32>) -> Seq<StackOp> {
    vs.map_values(|v: i32| StackOp::Push(v))
}

/// The operation sequence of `k` pops.
pub open spec fn pops(k: nat) -> Seq<StackOp> {
    Seq::new(k, |i: int| StackOp::Pop)
}

/// A sequence of operations is applied front to back: splitting it anywhere
/// splits its effect.
pub proof fn lemma_apply_ops_app(st: Seq<i32>, a: Seq<StackOp>, b: Seq<StackOp>)
    ensures
        apply_ops(st, a + b) == (match apply_ops(st, a) {
            Option::Some(t) => apply_ops(t, b),
            Option::None => None::<Seq<i32>>,
        }),
    decreases a.len(),
{
    if a.len() == 0 {
        assert(a + b =~= b);
    } else {
        assert((a + b).first() == a.first());
        assert((a + b).drop_first() =~= a.drop_first() + b);
        match a.first() {
            StackOp::Push(v) => {
                if st.len() < STACK_SIZE {
                    lemma_apply_ops_app(st.push(v), a.drop_first(), b);
                }
            },
            StackOp::Pop => {
                if st.len() > 0 {
                    lemma_apply_ops_app(st.drop_last(), a.drop_first(), b);
                }
            },
        }
    }
}

/// Pushing values that fit never fails, and afterwards the stack holds
/// exactly the old contents with the pushed values on top, in push order.
pub proof fn lemma_pushes_in_order(st: Seq<i32>, vs: Seq<i32>)
    requires
        st.len() + vs.len() <= STACK_SIZE,
    ensures
        apply_ops(st, pushes(vs)) == Some(st + vs),
    decreases vs.len(),
{
    if vs.len() == 0 {
        assert(st + vs =~= st);
    } else {
        assert(pushes(vs).first() == StackOp::Push(vs.first()));
        assert(pushes(vs).drop_first() =~= pushes(vs.drop_first()));
        lemma_pushes_in_order(st.push(vs.first()), vs.drop_first());
        assert(st.push(vs.first()) + vs.drop_first() =~= st + vs);
    }
}

/// Popping `k` values from a stack that holds at least `k` never fails and
/// removes exactly the `k` most recently pushed values, leaving the rest
/// untouched.
pub proof fn lemma_pops_take(st: Seq<i32>, k: nat)
    requires
        k <= st.len(),
    ensures
        apply_ops(st, pops(k)) == Some(st.take(st.len() - k)),
    decreases k,
{
    if k == 0 {
        assert(st.take(st.len() as int) =~= st);
    } else {
        assert(pops(k).first() == StackOp::Pop);
        assert(pops(k).drop_first() =~= pops((k - 1) as nat));
        lemma_pops_take(st.drop_last(), (k - 1) as nat);
        assert(st.drop_last().take(st.drop_last().len() - (k - 1)) =~= st.take(st.len() - k));
    }
}

/// Last in, first out: pushing any values that fit and then popping as many
/// returns the stack to exactly its old contents.
pub proof fn lemma_push_pop_round_trip(st: Seq<i32>, vs: Seq<i32>)
    requires
        st.len() + vs.len() <= STACK_SIZE,
    ensures
        apply_ops(st, pushes(vs) + pops(vs.len())) == Some(st),
{
    lemma_apply_ops_app(st, pushes(vs), pops(vs.len()));
    lemma_pushes_in_order(st, vs);
    lemma_pops_take(st + vs, vs.len());
    assert((st + vs).take(st.len() as int) =~= st);
}

/// Once the iterated interpreter has halted or faulted it stays there:
/// later step counts report the same result.  With [`steps`] being a
/// function of the start state alone, this makes the outcome of a run
/// unique — two step counts can never reach two different halts or faults
/// from the same start.
pub proof fn lemma_steps_frozen(s: State, n: nat, m: nat)
    requires
        n <= m,
        !(steps(s, n) matches StepRes::Next(_)),
    ensures
        steps(s, m) == steps(s, n),
    decreases m,
{
    if m > n {
        lemma_steps_frozen(s, n, (m - 1) as nat);
    }
}

/// A copy between two resolvable paths advances the pointer, writes the
/// value read at the source to the destination, preserves the source value,
/// and alters no other storage location: every register other than a
/// register destination and every stack slot other than a stack destination
/// keeps its value.
pub proof fn lemma_cpy_preserves(s: State, dst: Path, src: Path)
    requires
        0 <= s.ip < s.program.len(),
        s.program[s.ip] == Inst::CPY(dst, src),
        path_ok(s.stack, src),
        path_ok(s.stack, dst),
    ensures
        step(s) matches StepRes::Next(s2) && s2.program == s.program && s2.ip == s.ip + 1
            && s2.stack.len() == s.stack.len() && path_read(s2.stack, s2.regs, dst) == path_read(
            s.stack,
            s.regs,
            src,
        ) && path_read(s2.stack, s2.regs, src) == path_read(s.stack, s.regs, src) && (forall|g: Reg|
            !(dst matches Path::REG(d) && g == d) ==> reg_read(s2.regs, g) == reg_read(s.regs, g))
            && (forall|i: int|
            0 <= i < s.stack.len() && !(dst matches Path::STK(d) && i == s.stack.len() - 1 - d)
                ==> s2.stack[i] == s.stack[i]),
{
}

/// A divide instruction whose divisor operand is zero always faults with
/// [`VmError::DivideByZero`], consuming only the divisor and never
/// completing a push: the machine stands past the instruction with the
/// divisor popped, the rest of the stack and all registers untouched.
pub proof fn lemma_div_by_zero(s: State)
    requires
        0 <= s.ip < s.program.len(),
        s.program[s.ip] == Inst::DIV,
        s.stack.len() > 0,
        s.stack.last() == 0,
    ensures
        step(s) == StepRes::Fault(
            with_stack(with_ip(s, s.ip + 1), s.stack.drop_last()),
            VmError::DivideByZero,
        ),
{
}

/// A forward jump by `k` and a backward jump by `-k` are inverse in effect:
/// executed one after the other with nothing in between, they return the
/// pointer to the first jump's own position and leave stack and registers
/// untouched, so the pair of steps is a round trip on the whole state.
pub proof fn lemma_jump_round_trip(s: State, k: isize, m: isize)
    requires
        0 <= s.ip < s.program.len(),
        k != 0,
        k + m == 0,
        s.program[s.ip] == Inst::JMP(k),
        0 <= s.ip + k < s.program.len(),
        s.program[s.ip + k] == Inst::JMP(m),
    ensures
        step(s) == StepRes::Next(with_ip(s, s.ip + k)),
        steps(s, 2) == StepRes::Next(s),
{
    let s1 = with_ip(s, s.ip + k);
    assert(step(s) == StepRes::Next(s1));
    assert(step(s1) == StepRes::Next(with_ip(s1, s.ip)));
    assert(with_ip(s1, s.ip) == s);
    assert(steps(s, 0) == StepRes::Next(s));
    assert(steps(s, 1) == step(s));
    assert(steps(s, 2) == step(s1));
}

} // verus!
