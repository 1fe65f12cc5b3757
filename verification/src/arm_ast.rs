//! The smallest register model: the two general purpose banks and the two
//! registers that have no number.

use vstd::prelude::*;

verus! {

#[derive(Debug, PartialEq, Eq, Structural)]
pub enum Register {
    X(u8),
    W(u8),
    SP,
    PC,
}

} // verus!
