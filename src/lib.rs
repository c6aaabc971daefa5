//! A cycle-counting emulator core for an 8-bit CPU: an addressing-mode
//! classifier, an operand resolver, a read-modify-write engine and an opcode
//! dispatcher over a flat 64 KiB memory with a stack region and a heap region.
pub mod control;
pub mod exec;
pub mod heap;
pub mod laws;
pub mod machine;
pub mod mode;
pub mod ops;
pub mod program;
pub mod resolve;
pub mod stack;

pub use control::{apply_target, InstructionController, StepError};
pub use heap::{HeapController, HeapInterface};
pub use exec::decode_op;
pub use machine::{status_mask, BoundsPolicy, MachineView, Registers, Status, VirtualMachine};
pub use ops::{LogicOp, Op, Reg, ShiftOp};
pub use mode::{classify, mode_of, DecodeError, Mode};
pub use program::{decode_hex, LoadError};
pub use stack::StackInterface;
