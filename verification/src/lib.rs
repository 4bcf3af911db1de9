//! A disassembler for a small fixed-width instruction encoding.
//!
//! Raw bytes are decoded into structured instruction records
//! ([`insn::Insn`]) and rendered as assembly text. Instructions are 2 or
//! 4 bytes wide; a flag bit in the first byte selects the width. The
//! decoder never produces a partial instruction: a stream that ends in
//! the middle of an instruction, or a word whose opcode field has no
//! defined meaning, fails as a whole.

pub mod bits;
pub mod insn;
pub mod numfmt;
pub mod render;
pub mod roundtrip;
