//! Core representation layer of a stack-based bytecode virtual machine:
//! an append-only instruction stream (`Chunk`) with a parallel source-line
//! map and a constant pool, a closed `OpCode` tag set, and a disassembler
//! that decodes the stream instruction by instruction.

pub mod chunk;
pub mod debug;
pub mod text;
pub mod value;

pub use chunk::Chunk;
pub use chunk::OpCode;
pub use value::Value;
pub use value::ValueArray;
