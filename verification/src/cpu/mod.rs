pub mod effects;
pub mod instruction;
pub mod processor;
pub mod properties;
pub mod registers;
pub mod semantics;

pub use instruction::{Cond, Instruction, Operand8};
pub use processor::GameBoyCPU;
pub use registers::{Flag, Reg16, Reg8, Regs, RegsView};
pub use semantics::{CpuState, CpuView};
