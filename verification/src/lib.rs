//! A small verified stack-based virtual machine.
//!
//! The machine fetches instructions from a fixed, non-empty program, executes
//! them against a bounded stack and a file of six registers, and stops on a
//! halt instruction or on the first fatal condition.  Every fatal condition
//! (stack overflow or underflow, bad stack address, zero divisor, running off
//! the end of the program) is reported as an error value; the verified
//! functions of this crate never panic.
//!
//! The meaning of each instruction is given once, as the spec-level
//! interpreter in [`semantics`]; the executable machine in [`machine`] is
//! proved to follow that interpreter step by step.

pub mod isa;
pub mod laws;
pub mod machine;
pub mod semantics;
pub mod stack;

pub use isa::Inst;
pub use isa::Path;
pub use isa::PathError;
pub use isa::Reg;
pub use isa::Registers;
pub use isa::StepStatus;
pub use isa::VmError;
pub use isa::STACK_SIZE;
pub use machine::Machine;
pub use stack::Stack;
pub use stack::StackError;
