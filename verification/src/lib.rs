//! An emulator for a small 16-bit teaching computer: a 64K-word memory with
//! memory-mapped keyboard registers, a ten-register file, a four-bit opcode
//! instruction set, and a trap layer for console input and output.
//!
//! All console input and output crosses the library boundary as plain bytes:
//! pending keyboard bytes arrive in a queue and printed characters accumulate
//! in a buffer, so the whole instruction engine is verified while the caller
//! performs the actual reads and writes.

pub mod emulator;
pub mod instruction;
pub mod loader;
pub mod opcode;
pub mod register;
