//! A small register-based virtual machine over fixed-width 64-bit instruction
//! words, with every operation specified and proved against a mathematical
//! model of the machine.

pub mod error;
pub mod instruction;
pub mod kinematic;
pub mod laws;
pub mod machine;
pub mod memory;
pub mod registers;
pub mod runtime;
pub mod util;
pub mod vm;
pub mod word;
