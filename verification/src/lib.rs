//! Architectural register state of an x86-64 processor: the packed flags
//! register, segment and descriptor-table registers, the x87/MMX register
//! stack, and the aggregate register file with its sub-register views.

pub mod flags;
pub mod flags_laws;
pub mod fpu;
pub mod gpr;
pub mod names;
pub mod regfile;
pub mod segment;

pub use flags::{Flag, Flags};
pub use fpu::{FPUMMXRegister, LastFpuInstruction};
pub use gpr::Width;
pub use names::{Reg16, Reg32, Reg8, SegReg, TableReg};
pub use regfile::{RegError, Registers};
pub use segment::SegmentRegister;
