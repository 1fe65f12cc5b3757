//! Lowering of decoded ARM64 instructions to RISC-V instruction sequences,
//! together with the instruction models of both architectures and a front
//! end that reads ARM64 assembly text.

pub mod arm64;
pub mod arm_ast;
pub mod error;
pub mod inst;
pub mod instruction;
pub mod lexer;
pub mod opcode;
pub mod parser;
pub mod register;
pub mod riscv;
pub mod text;
pub mod translate;
