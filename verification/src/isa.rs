//! The instruction set: registers, addressing paths, instructions, and the
//! error values that an execution can surface.

use vstd::prelude::*;

verus! {

/// Fixed capacity of the machine's stack.
pub const STACK_SIZE: usize = 1024;

/// Six general purpose registers.  The set is closed: no register is ever
/// added or removed at runtime.
#[derive(Copy, Clone, Debug, PartialEq, Eq, Structural, Hash)]
pub enum Reg {
    A,
    B,
    C,
    D,
    E,
    F,
}

/// A path addresses either a register or a slot of the stack.
///
/// A stack offset is measured from the current top: zero is the top itself,
/// a positive offset reaches deeper toward the bottom, and a negative offset
/// never resolves (the only valid slots are at or below the top).
#[derive(Copy, Clone, Debug, PartialEq, Eq, Structural)]
pub enum Path {
    REG(Reg),
    STK(isize),
}

/// Error of an access through a [`Path`]: a stack offset that resolves
/// outside the stack, or a register that does not exist.  With the closed
/// register set the register case is unreachable; it is kept for the shape
/// of the interface.
#[derive(Copy, Clone, Debug, PartialEq, Eq, Structural)]
pub enum PathError {
    StackErr,
    RegErr,
}

/// A machine instruction.
#[derive(Copy, Clone, Debug, PartialEq, Eq, Structural)]
pub enum Inst {
    /// Push an integer onto the stack.
    PSH(i32),
    /// Pop the top of the stack, discarding the value.
    POP,
    /// Pop `b`, pop `a`, push `a + b` (wrapping).
    ADD,
    /// Pop `b`, pop `a`, push `a - b` (wrapping).
    SUB,
    /// Pop `b`, pop `a`, push `a * b` (wrapping).
    MUL,
    /// Pop `b`, pop `a`, push `a / b` (truncating toward zero); a zero
    /// divisor is detected before `a` is consumed.
    DIV,
    /// Set a register to a value.
    SET(Reg, i32),
    /// Copy the value read at the source path to the destination path.
    CPY(Path, Path),
    /// Move the instruction pointer relative to the jump's own position.
    JMP(isize),
    /// Halt the program execution.
    HLT,
}

/// The arithmetic instructions share one execution shape; this names which
/// of them is being executed.
#[derive(Copy, Clone, Debug, PartialEq, Eq, Structural)]
pub enum BinOp {
    Add,
    Sub,
    Mul,
    Div,
}

/// The fatal conditions that end a run abnormally.  Each is unrecoverable:
/// the machine does not retry and is not resumable after one.
#[derive(Copy, Clone, Debug, PartialEq, Eq, Structural)]
pub enum VmError {
    /// A push was attempted while the stack held `STACK_SIZE` values.
    StackOverflow,
    /// A pop or a stack read was attempted on an empty stack.
    StackUnderflow,
    /// A stack offset resolved outside the currently valid slots.
    AddressError,
    /// The divisor operand of a divide instruction was zero.
    DivideByZero,
    /// The instruction pointer left the program without a prior halt.
    IllegalInstruction,
    /// The program supplied at construction was empty.
    MalformedProgram,
}

/// The register file: six integer slots, all zero at machine creation.
#[derive(Copy, Clone, Debug, PartialEq, Eq, Structural)]
pub struct Registers {
    pub a: i32,
    pub b: i32,
    pub c: i32,
    pub d: i32,
    pub e: i32,
    pub f: i32,
}

/// What a single executed step reported: the machine is still running, it
/// executed a halt, or it met a fatal condition.
#[derive(Copy, Clone, Debug, PartialEq, Eq, Structural)]
pub enum StepStatus {
    Running,
    Halted,
    Fault(VmError),
}

} // verus!
