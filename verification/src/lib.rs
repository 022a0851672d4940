//! A cycle-exact model of the Sharp LR35902 (Game Boy) CPU core:
//! instruction decode, operand addressing, flag computation and
//! interrupt dispatch, with machine-checked contracts for each part.

pub mod addr;
pub mod cpu;
pub mod engine;
pub mod instr;
pub mod joypad;
pub mod laws;
pub mod mem;
pub mod regs;
pub mod sem;
