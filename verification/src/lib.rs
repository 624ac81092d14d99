//! A minimal stack-based virtual machine.
//!
//! A binary image (magic number, version, entry point, then code and data in
//! one flat byte-addressed space) is executed as a sequence of 32-bit
//! big-endian opcode words. The engine owns the instruction pointer, the
//! operand stack and the file-descriptor counter; the two filesystem syscalls
//! (`open`, `write`) are surfaced to the embedding host as pending requests,
//! so that the engine itself stays free of I/O.

pub mod arch;
pub mod machine;
pub mod vm;
