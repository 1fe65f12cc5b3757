//! What can go wrong while reading assembly text.

use vstd::prelude::*;

verus! {

#[derive(Debug, Clone, Copy, PartialEq, Eq, Structural)]
pub enum ArmParserError {
    /// The text does not have the form that the grammar asks for.
    Syntax,
    /// A number does not fit in 64 bits.
    ParseIntError,
    /// The two ends of a register range are of different types.
    InvalidRegisterRange,
    InvalidRegisterType,
    /// The mnemonic is not in the opcode table.
    InvalidOpcode,
}

} // verus!
