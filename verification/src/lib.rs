//! A small virtual CPU: a sixteen-bit fetch-decode-execute engine over a
//! bounded, word-addressed memory image.

pub mod cpu;
pub mod fault;
pub mod instruction;
pub mod machine;
pub mod memory;
pub mod registers;
pub mod theorems;
