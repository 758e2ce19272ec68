//! An Intel 8086 toolchain: a binary instruction decoder, a small two-pass
//! assembler, and a CPU execution engine, all sharing one instruction model
//! and one bit-level encoding discipline.

pub mod assembler;
pub mod ast;
pub mod ast_text;
pub mod bus;
pub mod cpu;
pub mod decode;
pub mod dis;
pub mod encode;
pub mod encoding;
pub mod flags;
pub mod modrm;
pub mod parse;
pub mod stream;
pub mod text;
pub mod x86;
