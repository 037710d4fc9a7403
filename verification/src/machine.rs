//! The machine: a program, an instruction pointer, one stack and one
//! register file, driven by a fetch-decode-execute loop.
//!
//! Every mutating operation is specified against the spec-level interpreter
//! in [`crate::semantics`]: a single executed step yields exactly what
//! [`step`] says, and a whole run reaches exactly what some number of
//! iterated steps says.

use vstd::prelude::*;

use crate::isa::BinOp;
use crate::isa::Inst;
use crate::isa::Path;
use crate::isa::PathError;
use crate::isa::Reg;
use crate::isa::Registers;
use crate::isa::StepStatus;
use crate::isa::VmError;
use crate::semantics::binop_eval;
use crate::semantics::path_read;
use crate::semantics::path_write;
use crate::semantics::reg_read;
use crate::semantics::reg_write;
use crate::semantics::res_of;
use crate::semantics::step;
use crate::semantics::step_binop;
use crate::semantics::step_cpy;
use crate::semantics::step_jump;
use crate::semantics::steps;
use crate::semantics::State;
use crate::semantics::StepRes;
use crate::stack::Stack;

verus! {

/// A single-shot virtual machine.  The program is immutable after
/// construction; `run` mutates the rest instruction by instruction until a
/// halt or the first fatal condition.
pub struct Machine {
    program: Vec<Inst>,
    ip: usize,
    stack: Stack,
    registers: Registers,
}

impl View for Machine {
    type V = State;

    closed spec fn view(&self) -> State {
        State {
            program: self.program@,
            ip: self.ip as int,
            stack: self.stack@,
            regs: self.registers,
        }
    }
}

impl Machine {
    /// The machine's invariant: a consistent stack, a non-empty program,
    /// and an instruction pointer that never leaves `[0, program length]`.
    pub closed spec fn wf(&self) -> bool {
        &&& self.stack.wf()
        &&& self.program@.len() > 0
        &&& self.ip <= self.program@.len()
    }

    /// Create a machine over a non-empty program: pointer at the first
    /// instruction, empty stack, all six registers zero.
    pub fn new(program: Vec<Inst>) -> (m: Machine)
        requires
            program@.len() > 0,
        ensures
            m.wf(),
            m@.program == program@,
            m@.ip == 0,
            m@.stack == Seq::<i32>::empty(),
            m@.regs == (Registers { a: 0, b: 0, c: 0, d: 0, e: 0, f: 0 }),
    {
        Machine {
            program,
            ip: 0,
            stack: Stack::new(),
            registers: Registers { a: 0, b: 0, c: 0, d: 0, e: 0, f: 0 },
        }
    }

    /// Create a machine, rejecting an empty program with
    /// [`VmError::MalformedProgram`] before any execution can begin.
    pub fn try_new(program: Vec<Inst>) -> (r: Result<Machine, VmError>)
        ensures
            program@.len() == 0 ==> r == Err::<Machine, VmError>(VmError::MalformedProgram),
            program@.len() > 0 ==> (r matches Ok(m) && m.wf() && m@.program == program@ && m@.ip
                == 0 && m@.stack == Seq::<i32>::empty() && m@.regs == (Registers {
                a: 0,
                b: 0,
                c: 0,
                d: 0,
                e: 0,
                f: 0,
            })),
    {
        if program.len() == 0 {
            Err(VmError::MalformedProgram)
        } else {
            Ok(Machine::new(program))
        }
    }

    /// The instruction pointer: the index of the next instruction to fetch.
    pub fn ip(&self) -> (r: usize)
        ensures
            r == self@.ip,
    {
        self.ip
    }

    /// How many instructions the program holds.
    pub fn program_len(&self) -> (n: usize)
        ensures
            n == self@.program.len(),
    {
        self.program.len()
    }

    /// The instruction at program index `i`.
    pub fn inst_at(&self, i: usize) -> (r: Inst)
        requires
            i < self@.program.len(),
        ensures
            r == self@.program[i as int],
    {
        self.program[i]
    }

    /// How many values the stack currently holds.
    pub fn stack_len(&self) -> (n: usize)
        ensures
            n == self@.stack.len(),
    {
        self.stack.len()
    }

    /// The stack value at physical index `i`, counted from the bottom.
    pub fn stack_at(&self, i: usize) -> (r: i32)
        requires
            i < self@.stack.len(),
        ensures
            r == self@.stack[i as int],
    {
        self.stack.at(i)
    }

    /// The value of register `reg`.  The register set is closed and always
    /// fully populated, so this cannot fail.
    pub fn get_reg_value(&self, reg: &Reg) -> (r: Result<i32, PathError>)
        ensures
            r == Ok::<i32, PathError>(reg_read(self@.regs, *reg)),
    {
        match reg {
            Reg::A => Ok(self.registers.a),
            Reg::B => Ok(self.registers.b),
            Reg::C => Ok(self.registers.c),
            Reg::D => Ok(self.registers.d),
            Reg::E => Ok(self.registers.e),
            Reg::F => Ok(self.registers.f),
        }
    }

    /// Overwrite register `reg` with `value`; with the closed register set
    /// this cannot fail, and nothing else changes.
    pub fn set_reg_value(&mut self, reg: Reg, value: i32) -> (r: Result<(), PathError>)
        ensures
            r == Ok::<(), PathError>(()),
            old(self).wf() ==> final(self).wf(),
            final(self)@.program == old(self)@.program,
            final(self)@.ip == old(self)@.ip,
            final(self)@.stack == old(self)@.stack,
            final(self)@.regs == reg_write(old(self)@.regs, reg, value),
    {
        match reg {
            Reg::A => self.registers.a = value,
            Reg::B => self.registers.b = value,
            Reg::C => self.registers.c = value,
            Reg::D => self.registers.d = value,
            Reg::E => self.registers.e = value,
            Reg::F => self.registers.f = value,
        }
        Ok(())
    }

    /// Read the value a path addresses: a register's value, or the stack
    /// slot at the path's offset.  A stack path needs a non-empty stack.
    pub fn get_from_path(&self, path: Path) -> (r: Result<i32, PathError>)
        requires
            self.wf(),
            path matches Path::STK(_) ==> self@.stack.len() > 0,
        ensures
            r == (match path_read(self@.stack, self@.regs, path) {
                Option::Some(v) => Ok::<i32, PathError>(v),
                Option::None => Err::<i32, PathError>(PathError::StackErr),
            }),
    {
        match path {
            Path::REG(reg) => self.get_reg_value(&reg),
            Path::STK(rel_idx) => self.stack.get_at_idx(rel_idx),
        }
    }

    /// Write `val` through a path: into a register, or into the stack slot
    /// at the path's offset.  A stack path needs a non-empty stack; on an
    /// address error nothing changes.
    pub fn set_at_path(&mut self, path: Path, val: i32) -> (r: Result<(), PathError>)
        requires
            old(self).wf(),
            path matches Path::STK(_) ==> old(self)@.stack.len() > 0,
        ensures
            final(self).wf(),
            final(self)@.program == old(self)@.program,
            final(self)@.ip == old(self)@.ip,
            (match path_write(old(self)@.stack, old(self)@.regs, path, val) {
                Option::Some(p) => r == Ok::<(), PathError>(()) && final(self)@.stack == p.0
                    && final(self)@.regs == p.1,
                Option::None => r == Err::<(), PathError>(PathError::StackErr) && final(self)@
                    == old(self)@,
            }),
    {
        match path {
            Path::REG(reg) => self.set_reg_value(reg, val),
            Path::STK(rel_idx) => self.stack.set_at_idx(rel_idx, val),
        }
    }

    /// Fetch the instruction under the pointer and advance the pointer past
    /// it; `None`, with nothing changed, when the pointer is outside the
    /// program.
    pub fn get_next_inst(&mut self) -> (r: Option<Inst>)
        ensures
            old(self).wf() ==> final(self).wf(),
            final(self)@.program == old(self)@.program,
            final(self)@.stack == old(self)@.stack,
            final(self)@.regs == old(self)@.regs,
            old(self)@.ip < old(self)@.program.len() ==> r == Some(
                old(self)@.program[old(self)@.ip],
            ) && final(self)@.ip == old(self)@.ip + 1,
            old(self)@.ip >= old(self)@.program.len() ==> r == None::<Inst> && final(self)@.ip
                == old(self)@.ip,
    {
        if self.ip < self.program.len() {
            let inst = self.program[self.ip];
            self.ip = self.ip + 1;
            Some(inst)
        } else {
            None
        }
    }

    /// `a op b` as the machine computes it; a divide needs a non-zero
    /// divisor.
    fn binop_exec(op: BinOp, a: i32, b: i32) -> (r: i32)
        requires
            op == BinOp::Div ==> b != 0,
        ensures
            r == binop_eval(op, a, b),
    {
        match op {
            BinOp::Add => a.wrapping_add(b),
            BinOp::Sub => a.wrapping_sub(b),
            BinOp::Mul => a.wrapping_mul(b),
            BinOp::Div => match a.checked_div(b) {
                Some(q) => q,
                None => i32::MIN,
            },
        }
    }

    /// Execute one arithmetic instruction, already fetched: pop the right
    /// operand, pop the left operand, push the result.
    fn arith_step(&mut self, op: BinOp) -> (r: StepStatus)
        requires
            old(self).wf(),
        ensures
            final(self).wf(),
            final(self).program == old(self).program,
            final(self).ip == old(self).ip,
            step_binop(old(self)@, op) == res_of(r, final(self)@),
    {
        let b = match self.stack.pop() {
            Ok(v) => v,
            Err(_) => {
                return StepStatus::Fault(VmError::StackUnderflow);
            },
        };
        if op == BinOp::Div && b == 0 {
            return StepStatus::Fault(VmError::DivideByZero);
        }
        let a = match self.stack.pop() {
            Ok(v) => v,
            Err(_) => {
                return StepStatus::Fault(VmError::StackUnderflow);
            },
        };
        match self.stack.push(Machine::binop_exec(op, a, b)) {
            Ok(()) => StepStatus::Running,
            Err(_) => StepStatus::Fault(VmError::StackOverflow),
        }
    }

    /// Execute one copy instruction, already fetched: read through the
    /// source path, then write through the destination path.
    fn cpy_step(&mut self, dst: Path, src: Path) -> (r: StepStatus)
        requires
            old(self).wf(),
        ensures
            final(self).wf(),
            final(self)@.program == old(self)@.program,
            final(self)@.ip == old(self)@.ip,
            step_cpy(old(self)@, dst, src) == res_of(r, final(self)@),
    {
        let touches_stack = match (src, dst) {
            (Path::STK(_), _) => true,
            (_, Path::STK(_)) => true,
            _ => false,
        };
        if touches_stack && self.stack.len() == 0 {
            return StepStatus::Fault(VmError::StackUnderflow);
        }
        let v = match self.get_from_path(src) {
            Ok(v) => v,
            Err(_) => {
                return StepStatus::Fault(VmError::AddressError);
            },
        };
        match self.set_at_path(dst, v) {
            Ok(()) => StepStatus::Running,
            Err(_) => StepStatus::Fault(VmError::AddressError),
        }
    }

    /// Execute one jump instruction, already fetched, so the jump's own
    /// address is `self.ip - 1`.
    fn jump_step(&mut self, offset: isize) -> (r: StepStatus)
        requires
            old(self).wf(),
            1 <= old(self).ip,
        ensures
            final(self).wf(),
            final(self).program == old(self).program,
            final(self).stack == old(self).stack,
            final(self).registers == old(self).registers,
            step_jump(old(self)@, offset) == res_of(r, final(self)@),
    {
        if offset == 0 {
            return StepStatus::Running;
        }
        let j = self.ip - 1;
        if offset > 0 {
            let n = self.program.len();
            match j.checked_add(offset as usize) {
                Some(t) => {
                    if t < n {
                        self.ip = t;
                        StepStatus::Running
                    } else {
                        StepStatus::Fault(VmError::IllegalInstruction)
                    }
                },
                None => StepStatus::Fault(VmError::IllegalInstruction),
            }
        } else {
            let back = ((-(offset + 1)) as usize) + 1;
            match j.checked_sub(back) {
                Some(t) => {
                    self.ip = t;
                    StepStatus::Running
                },
                None => StepStatus::Fault(VmError::IllegalInstruction),
            }
        }
    }

    /// Execute exactly one step: fetch the instruction under the pointer,
    /// advance the pointer, execute.  The result and the machine's new
    /// state are exactly those of the spec-level [`step`].
    pub fn step(&mut self) -> (r: StepStatus)
        requires
            old(self).wf(),
        ensures
            final(self).wf(),
            final(self)@.program == old(self)@.program,
            step(old(self)@) == res_of(r, final(self)@),
    {
        let fetched = self.get_next_inst();
        let inst = match fetched {
            Some(i) => i,
            None => {
                return StepStatus::Fault(VmError::IllegalInstruction);
            },
        };
        match inst {
            Inst::PSH(v) => match self.stack.push(v) {
                Ok(()) => StepStatus::Running,
                Err(_) => StepStatus::Fault(VmError::StackOverflow),
            },
            Inst::POP => match self.stack.pop() {
                Ok(_) => StepStatus::Running,
                Err(_) => StepStatus::Fault(VmError::StackUnderflow),
            },
            Inst::ADD => self.arith_step(BinOp::Add),
            Inst::SUB => self.arith_step(BinOp::Sub),
            Inst::MUL => self.arith_step(BinOp::Mul),
            Inst::DIV => self.arith_step(BinOp::Div),
            Inst::SET(reg, val) => match self.set_reg_value(reg, val) {
                Ok(()) => StepStatus::Running,
                Err(_) => StepStatus::Fault(VmError::AddressError),
            },
            Inst::CPY(dst, src) => self.cpy_step(dst, src),
            Inst::JMP(offset) => self.jump_step(offset),
            Inst::HLT => StepStatus::Halted,
        }
    }

    /// Run the machine: execute instruction after instruction until a halt
    /// instruction stops it gracefully ([`StepStatus::Halted`]), the first
    /// fatal condition ends the run with its reason
    /// ([`StepStatus::Fault`]), or `max_steps` instructions have executed
    /// without either ([`StepStatus::Running`]).  Either way the machine is
    /// left in exactly the state that the spec-level [`steps`] reaches.
    ///
    /// A program that neither halts nor faults (an unconditional backward
    /// jump, say) would run forever; the step ceiling is the caller's bound
    /// on that, and a caller that wants to drive the machine without one
    /// can iterate [`Machine::step`] directly.
    pub fn run(&mut self, max_steps: usize) -> (r: StepStatus)
        requires
            old(self).wf(),
        ensures
            final(self).wf(),
            final(self)@.program == old(self)@.program,
            (match r {
                StepStatus::Running => steps(old(self)@, max_steps as nat) == StepRes::Next(
                    final(self)@,
                ),
                StepStatus::Halted => exists|n: nat|
                    n <= max_steps && steps(old(self)@, n) == StepRes::Halted(final(self)@),
                StepStatus::Fault(e) => exists|n: nat|
                    n <= max_steps && steps(old(self)@, n) == StepRes::Fault(final(self)@, e),
            }),
    {
        let mut i: usize = 0;
        loop
            invariant
                i <= max_steps,
                self.wf(),
                self@.program == old(self)@.program,
                steps(old(self)@, i as nat) == StepRes::Next(self@),
            decreases max_steps - i,
        {
            if i == max_steps {
                return StepStatus::Running;
            }
            let ghost prev = self@;
            let st = self.step();
            proof {
                assert(steps(old(self)@, i as nat + 1) == step(prev));
            }
            i = i + 1;
            match st {
                StepStatus::Running => {},
                StepStatus::Halted => {
                    proof {
                        assert(steps(old(self)@, i as nat) == StepRes::Halted(self@));
                    }
                    return StepStatus::Halted;
                },
                StepStatus::Fault(e) => {
                    proof {
                        assert(steps(old(self)@, i as nat) == StepRes::Fault(self@, e));
                    }
                    return StepStatus::Fault(e);
                },
            }
        }
    }
}

} // verus!
