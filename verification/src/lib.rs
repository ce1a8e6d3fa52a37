//! A disassembler for compiled Python bytecode.
//!
//! The library decodes a raw instruction stream belonging to one of three
//! supported schema generations, resolves operands against the owning code
//! object's side tables, computes jump targets and line numbers, and renders
//! a fixed-column textual disassembly.  Output is a sequence of tagged text
//! spans, so a caller can apply highlighting without the core knowing any
//! terminal escape codes.
//!
//! The decode and resolve pipeline lives in `stream`, `jumps`, `linetable`
//! and `operands`, each driven by the schema generation's tables in
//! `opcodes`; `render` composes them into text over the model in `code`.

pub mod code;
pub mod jumps;
pub mod linetable;
pub mod opcodes;
pub mod operands;
pub mod render;
pub mod schema;
pub mod stream;
pub mod text;
pub mod version;
