//! A verified fetch-decode-execute engine for a 16-bit, 16-opcode
//! instruction set of the LC-3 family.
pub mod registers;
pub mod image;
pub mod instr;
pub mod vm;
