//! The mathematical meaning of the machine.
//!
//! A [`State`] is the whole observable state of a machine: the program, the
//! instruction pointer, the stack contents and the register values.  The
//! spec function [`step`] is a total, deterministic small-step interpreter
//! over such states; [`steps`] iterates it.  The executable machine is
//! proved against these functions, so they are the single place where the
//! instruction set's semantics is written down.

use vstd::prelude::*;

use crate::isa::BinOp;
use crate::isa::Inst;
use crate::isa::Path;
use crate::isa::Reg;
use crate::isa::Registers;
use crate::isa::StepStatus;
use crate::isa::VmError;
use crate::isa::STACK_SIZE;

verus! {

/// The observable state of a machine: program, instruction pointer, stack
/// contents (bottom first), and register values.
pub ghost struct State {
    pub program: Seq<Inst>,
    pub ip: int,
    pub stack: Seq<i32>,
    pub regs: Registers,
}

/// What one step of the interpreter yields: the next state, the final state
/// of a graceful halt, or the state at detection of a fatal condition.
pub ghost enum StepRes {
    Next(State),
    Halted(State),
    Fault(State, VmError),
}

/// `s` with another instruction pointer.
pub open spec fn with_ip(s: State, ip: int) -> State {
    State { program: s.program, ip: ip, stack: s.stack, regs: s.regs }
}

/// `s` with other stack contents.
pub open spec fn with_stack(s: State, stack: Seq<i32>) -> State {
    State { program: s.program, ip: s.ip, stack: stack, regs: s.regs }
}

/// `s` with other register values.
pub open spec fn with_regs(s: State, regs: Registers) -> State {
    State { program: s.program, ip: s.ip, stack: s.stack, regs: regs }
}

/// The value of register `r`.
pub open spec fn reg_read(regs: Registers, r: Reg) -> i32 {
    match r {
        Reg::A => regs.a,
        Reg::B => regs.b,
        Reg::C => regs.c,
        Reg::D => regs.d,
        Reg::E => regs.e,
        Reg::F => regs.f,
    }
}

/// The register file after register `r` is set to `v`.
pub open spec fn reg_write(regs: Registers, r: Reg, v: i32) -> Registers {
    match r {
        Reg::A => Registers { a: v, b: regs.b, c: regs.c, d: regs.d, e: regs.e, f: regs.f },
        Reg::B => Registers { a: regs.a, b: v, c: regs.c, d: regs.d, e: regs.e, f: regs.f },
        Reg::C => Registers { a: regs.a, b: regs.b, c: v, d: regs.d, e: regs.e, f: regs.f },
        Reg::D => Registers { a: regs.a, b: regs.b, c: regs.c, d: v, e: regs.e, f: regs.f },
        Reg::E => Registers { a: regs.a, b: regs.b, c: regs.c, d: regs.d, e: v, f: regs.f },
        Reg::F => Registers { a: regs.a, b: regs.b, c: regs.c, d: regs.d, e: regs.e, f: v },
    }
}

/// Whether the stack offset `idx` resolves to a valid slot: the resolved
/// physical index is `len - 1 - idx`, which lies in `[0, len)` exactly when
/// `0 <= idx < len`.  In particular no offset resolves on an empty stack,
/// and a negative offset never resolves.
pub open spec fn stk_ok(st: Seq<i32>, idx: int) -> bool {
    0 <= idx < st.len()
}

/// The value at stack offset `idx` (offset zero is the top of the stack).
pub open spec fn stk_read(st: Seq<i32>, idx: int) -> i32 {
    st[st.len() - 1 - idx]
}

/// The stack after the slot at offset `idx` is overwritten with `v`.
pub open spec fn stk_write(st: Seq<i32>, idx: int, v: i32) -> Seq<i32> {
    st.update(st.len() - 1 - idx, v)
}

/// Whether `p` resolves against the given stack: register paths always do,
/// stack paths exactly when their offset does.
pub open spec fn path_ok(st: Seq<i32>, p: Path) -> bool {
    match p {
        Path::REG(_) => true,
        Path::STK(i) => stk_ok(st, i as int),
    }
}

/// The value read through path `p`, or `None` when the path does not
/// resolve.
pub open spec fn path_read(st: Seq<i32>, regs: Registers, p: Path) -> Option<i32> {
    match p {
        Path::REG(r) => Some(reg_read(regs, r)),
        Path::STK(i) => if stk_ok(st, i as int) {
            Some(stk_read(st, i as int))
        } else {
            None
        },
    }
}

/// The stack and register file after `v` is written through path `p`, or
/// `None` when the path does not resolve.  Exactly one storage location
/// changes on success.
pub open spec fn path_write(st: Seq<i32>, regs: Registers, p: Path, v: i32) -> Option<
    (Seq<i32>, Registers),
> {
    match p {
        Path::REG(r) => Some((st, reg_write(regs, r, v))),
        Path::STK(i) => if stk_ok(st, i as int) {
            Some((stk_write(st, i as int, v), regs))
        } else {
            None
        },
    }
}

/// The result of one of the four arithmetic instructions on operands `a`
/// (second popped, left) and `b` (first popped, right).  Addition,
/// subtraction and multiplication wrap around on overflow; division
/// truncates toward zero and wraps on its one overflowing case
/// (`i32::MIN / -1`).  A zero divisor is excluded before this is consulted.
pub open spec fn binop_eval(op: BinOp, a: i32, b: i32) -> i32
    recommends
        op == BinOp::Div ==> b != 0,
{
    match op {
        BinOp::Add => a.wrapping_add(b),
        BinOp::Sub => a.wrapping_sub(b),
        BinOp::Mul => a.wrapping_mul(b),
        BinOp::Div => match a.checked_div(b) {
            Some(q) => q,
            None => i32::MIN,
        },
    }
}

/// One arithmetic step, taken from the state `s` in which the instruction
/// was already fetched (the pointer is past it).  The right operand `b` is
/// popped first; for a divide, a zero `b` is detected before the left
/// operand is popped; then `a` is popped and `a op b` is pushed.  The state
/// carried by a fault shows exactly which pops completed.
pub open spec fn step_binop(s: State, op: BinOp) -> StepRes {
    if s.stack.len() == 0 {
        StepRes::Fault(s, VmError::StackUnderflow)
    } else {
        let b = s.stack.last();
        let s2 = with_stack(s, s.stack.drop_last());
        if op == BinOp::Div && b == 0 {
            StepRes::Fault(s2, VmError::DivideByZero)
        } else if s2.stack.len() == 0 {
            StepRes::Fault(s2, VmError::StackUnderflow)
        } else {
            let a = s2.stack.last();
            StepRes::Next(with_stack(s2, s2.stack.drop_last().push(binop_eval(op, a, b))))
        }
    }
}

/// One copy step, taken from the state `s` in which the instruction was
/// already fetched.  Touching the stack through a path while the stack is
/// empty is a stack underflow; a stack offset that does not resolve is an
/// address error, from the read before the write; nothing is mutated on a
/// fault.
pub open spec fn step_cpy(s: State, dst: Path, src: Path) -> StepRes {
    if (src matches Path::STK(_) || dst matches Path::STK(_)) && s.stack.len() == 0 {
        StepRes::Fault(s, VmError::StackUnderflow)
    } else {
        match path_read(s.stack, s.regs, src) {
            Option::None => StepRes::Fault(s, VmError::AddressError),
            Option::Some(v) => match path_write(s.stack, s.regs, dst, v) {
                Option::None => StepRes::Fault(s, VmError::AddressError),
                Option::Some(p) => StepRes::Next(with_regs(with_stack(s, p.0), p.1)),
            },
        }
    }
}

/// One jump step, taken from the state `s` in which the instruction was
/// already fetched, so the jump's own address is `s.ip - 1`.  An offset of
/// zero proceeds to the next instruction; otherwise the new pointer is the
/// jump's address plus the offset, and a target outside the program is an
/// illegal-instruction fault at the jump itself.
pub open spec fn step_jump(s: State, o: isize) -> StepRes
    recommends
        1 <= s.ip,
{
    if o == 0 {
        StepRes::Next(s)
    } else {
        let t = s.ip - 1 + o;
        if 0 <= t < s.program.len() {
            StepRes::Next(with_ip(s, t))
        } else {
            StepRes::Fault(s, VmError::IllegalInstruction)
        }
    }
}

/// One step of the machine: fetch the instruction under the pointer,
/// advance the pointer past it, then execute it.  A pointer outside the
/// program is an illegal-instruction fault with the state unchanged.
pub open spec fn step(s: State) -> StepRes {
    if !(0 <= s.ip < s.program.len()) {
        StepRes::Fault(s, VmError::IllegalInstruction)
    } else {
        let s1 = with_ip(s, s.ip + 1);
        match s.program[s.ip] {
            Inst::PSH(v) => if s1.stack.len() < STACK_SIZE {
                StepRes::Next(with_stack(s1, s1.stack.push(v)))
            } else {
                StepRes::Fault(s1, VmError::StackOverflow)
            },
            Inst::POP => if s1.stack.len() > 0 {
                StepRes::Next(with_stack(s1, s1.stack.drop_last()))
            } else {
                StepRes::Fault(s1, VmError::StackUnderflow)
            },
            Inst::ADD => step_binop(s1, BinOp::Add),
            Inst::SUB => step_binop(s1, BinOp::Sub),
            Inst::MUL => step_binop(s1, BinOp::Mul),
            Inst::DIV => step_binop(s1, BinOp::Div),
            Inst::SET(r, v) => StepRes::Next(with_regs(s1, reg_write(s1.regs, r, v))),
            Inst::CPY(dst, src) => step_cpy(s1, dst, src),
            Inst::JMP(o) => step_jump(s1, o),
            Inst::HLT => StepRes::Halted(s1),
        }
    }
}

/// `n` iterations of [`step`] from `s`: still `Next` while the machine is
/// running, and frozen at the first `Halted` or `Fault`.
pub open spec fn steps(s: State, n: nat) -> StepRes
    decreases n,
{
    if n == 0 {
        StepRes::Next(s)
    } else {
        match steps(s, (n - 1) as nat) {
            StepRes::Next(s2) => step(s2),
            r => r,
        }
    }
}

/// The step result that an executable step reporting `r` from the state `s`
/// claims: the bridge between [`StepStatus`] and [`StepRes`].
pub open spec fn res_of(r: StepStatus, s: State) -> StepRes {
    match r {
        StepStatus::Running => StepRes::Next(s),
        StepStatus::Halted => StepRes::Halted(s),
        StepStatus::Fault(e) => StepRes::Fault(s, e),
    }
}

} // verus!
