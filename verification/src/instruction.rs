//! A flat instruction record as a line-oriented reader fills it: an optional
//! label, the mnemonic as text, and boxed operands.

use vstd::prelude::*;

verus! {

pub type P<T> = Box<T>;

#[derive(Debug, PartialEq)]
pub struct Register {
    pub number: u32,
}

#[derive(Debug, PartialEq)]
pub struct Immediate {
    pub value: u32,
}

#[derive(Debug, PartialEq)]
pub struct Memory {
    pub base: Option<Register>,
    pub offset: Option<Immediate>,
}

#[derive(Debug, PartialEq)]
pub struct Label {
    pub name: String,
}

#[derive(Debug, PartialEq)]
pub enum Operand {
    Register(P<Register>),
    Immediate(P<Immediate>),
    Memory(P<Memory>),
    Label(P<Label>),
}

#[derive(Debug, PartialEq)]
pub struct Instruction {
    pub label: Option<String>,
    pub opcode: String,
    pub operands: Vec<Operand>,
    pub operand_count: u32,
}

} // verus!
