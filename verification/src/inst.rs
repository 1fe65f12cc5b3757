//! Instruction pieces that belong to neither architecture: a register by
//! name and size, and an immediate value.

use vstd::prelude::*;

verus! {

#[derive(Debug, Clone)]
pub struct Register {
    pub name: String,
    pub size: u32,
}

#[derive(Debug, Clone)]
pub struct Immediate(u64);

impl View for Immediate {
    type V = u64;

    closed spec fn view(&self) -> u64 {
        self.0
    }
}

impl Immediate {
    pub fn new(value: u64) -> (res: Self)
        ensures
            res@ == value,
    {
        Immediate(value)
    }
}

} // verus!
