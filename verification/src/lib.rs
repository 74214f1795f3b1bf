//! Bit-exact codec and single-pass dynamic assembler for the AIS instruction
//! format: an undocumented, microcoded instruction set reached from x86 code
//! through a mode-transition stub.
//!
//! The codec maps a symbolic `Instruction` to its 6-byte binary form (a fixed
//! 2-byte marker followed by a little-endian 32-bit word) and back, preserving
//! every bit of the original word across a decode/encode round trip.  The
//! assembler appends encoded instructions to a buffer, tracks forward
//! references through a symbol table, and patches immediate fields in place
//! once a symbol's address becomes known.

pub mod ais;
pub mod ops;
pub mod decode;
pub mod dynasm;
pub mod encode;
