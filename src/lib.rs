//! A verified decoder for the RV32I base integer instruction set: it turns raw
//! little-endian machine words into mnemonics, operands and text lines.
//!
//! - `ins`: opcode families, registers and the field sets of each encoding shape.
//! - `decode`: resolution of a word into a mnemonic and its operands.
//! - `render`: the fixed-column text line of a decoded word.
//! - `disas`: the stream of words over a byte buffer, and whole-buffer disassembly.
//! - `encode`: assembling words from field sets, and the laws that decoding inverts it.
pub mod decode;
pub mod disas;
pub mod encode;
pub mod ins;
pub mod render;
