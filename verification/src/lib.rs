//! Byte-exact encoder for a subset of x86-64 machine instructions in 64-bit
//! long mode.
//!
//! An [`instruction::Instruction`] is a mnemonic with up to four operands.
//! [`encode::encode`] turns it into the bytes that the processor expects:
//! legacy prefixes, REX, opcode, ModRM, SIB, displacement and immediate, in
//! that order. The encoding is driven by a table of definitions
//! ([`table::init_instruction_map`]), one for each form of each mnemonic.
//!
//! - [`instruction`], [`mnemonic`], [`error`]: the data model.
//! - [`register`], [`operand`]: what the encoder needs to know of a register
//!   and of an operand.
//! - [`table`], [`definition`]: the definitions, and the selection of the one
//!   that fits an instruction.
//! - [`address`]: how a memory reference is laid out in ModRM, SIB and
//!   displacement.
//! - [`fields`], [`layout`], [`encode`]: the bytes.
//! - [`laws`], [`reading`]: what is proved of every encoding, among it that
//!   the processor reads registers and memory references back as they were
//!   meant.
//! - [`types`]: value types shared with the other stages of the tool chain.

pub mod address;
pub mod definition;
pub mod encode;
pub mod error;
pub mod fields;
pub mod instruction;
pub mod laws;
pub mod layout;
pub mod mnemonic;
pub mod operand;
pub mod reading;
pub mod register;
pub mod table;
pub mod types;
