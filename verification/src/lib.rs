//! An emulator for the LC-3, a 16-bit teaching architecture, with its
//! instruction semantics stated as a mathematical model and the executable
//! machine proved to follow that model step by step.

pub mod instructions;
pub mod laws;
pub mod machine;
pub mod register;
pub mod traps;
pub mod utils;
pub mod vm;
