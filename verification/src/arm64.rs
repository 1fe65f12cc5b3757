//! The ARM64 side of the model: registers, operands, opcodes and decoded
//! instructions as the translator receives them.
//!
//! Which operand position holds the destination, a source or an offset is a
//! convention of each opcode family; the types do not record it.

use vstd::prelude::*;

verus! {

/// Width class of a numbered register.
#[derive(Debug, Clone, Copy, PartialEq, Eq, Hash, Structural)]
pub enum General {
    /// 64-bit general purpose.
    X,
    /// 32-bit general purpose.
    W,
    /// 8-bit vector lane.
    B,
    /// 16-bit vector lane.
    H,
    /// Single precision.
    S,
    /// Double precision.
    D,
    /// 128-bit vector.
    Q,
}

#[derive(Debug, Clone, Copy, PartialEq, Eq, Hash, Structural)]
pub enum Special {
    Xzr,
    Wzr,
    SP,
    LR,
}

#[derive(Debug, Clone, Copy, PartialEq, Eq, Hash, Structural)]
pub enum Register {
    General { ty: General, n: u8 },
    Special(Special),
}

#[derive(Debug, Clone, Copy, PartialEq, Eq, Hash, Structural)]
pub enum Shift {
    Lsl,
    Lsr,
    Asr,
    Ror,
    Uxtb,
}

#[derive(Debug, Clone, Copy, PartialEq, Eq, Hash, Structural)]
pub enum Extend {
    Uxtb,
    Uxth,
    Uxtw,
    Lsl,
    Uxtx,
    Sxtb,
    Sxth,
    Sxtw,
    Sxtx,
}

/// A register operand: bare, shifted by an amount, or extended and then
/// shifted left by an amount.
#[derive(Debug, Clone, Copy, PartialEq, Eq, Hash)]
pub enum Regoperand {
    Reg(Register),
    ShiftReg(Register, (u8, Shift)),
    ExtendReg(Register, (u8, Extend)),
}

#[derive(Debug, Clone, Copy, PartialEq, Eq, Hash, Structural)]
pub enum Index {
    Pre,
    Post,
}

#[derive(Debug, Clone, Copy, PartialEq, Eq, Hash)]
pub enum Addressing {
    BaseRegister(Register),
    Offset { offset: u64, reg: Register, index: Option<Index> },
}

#[derive(Debug, PartialEq, Eq, Hash)]
pub enum Operand {
    Reg(Regoperand),
    Imm { imm: u16, shift: Option<(u8, Shift)> },
    Addressing(Addressing),
    Label(String),
}

#[derive(Debug, Clone, Copy, PartialEq, Eq, Hash, Structural)]
pub enum Opcode {
    // Arithmetic
    Add, Adds, Sub, Subs, Mul, Div, Umaddl,
    // Bitwise
    And, Or, Xor, Not,
    // Shift
    Lsl, Lsr, Asr,
    Cmp,
    // Move
    Mov, Mvn, Mvk,
    // Load and store
    Ldr, Str,
    // Branch
    B, Ble, Blt, Bge, Bgt, Beq, Bne, Bpl, Bhi, Cbnz, Csel, Cset, Bl,
    // Floating point
    Fmov,
    Ucvtf, Scvtf,
    Fcmp, Fcmpe,
    Fadd, Fsub, Fmul, Fdiv, Fneg, Fsqrt,
    Fmsub, Fnmadd, Fnmul, Fmuladd,
    // Atomic
    Ldaxr, Stlxr, Ldar, Stlr,
    Nop,
}

/// A decoded instruction: the opcode and its operands in source order.
#[derive(Debug, Clone)]
pub struct Instruction {
    pub opcode: Opcode,
    pub operand: Vec<Operand>,
}

impl Clone for Operand {
    fn clone(&self) -> (res: Self)
        ensures
            res == *self,
    {
        match self {
            Operand::Reg(r) => Operand::Reg(*r),
            Operand::Imm { imm, shift } => Operand::Imm { imm: *imm, shift: *shift },
            Operand::Addressing(a) => Operand::Addressing(*a),
            Operand::Label(s) => Operand::Label(s.clone()),
        }
    }
}

impl Register {
    pub open spec fn spec_is_word(&self) -> bool {
        *self matches Register::General { ty: General::W, .. }
    }

    pub open spec fn spec_is_fword(&self) -> bool {
        *self matches Register::General { ty: General::S, .. }
    }

    /// Whether this is a 32-bit general purpose register `Wn`.
    #[verifier::when_used_as_spec(spec_is_word)]
    pub fn is_word(&self) -> (b: bool)
        ensures
            b == self.spec_is_word(),
    {
        match self {
            Register::General { ty, .. } => match ty {
                General::W => true,
                _ => false,
            },
            _ => false,
        }
    }

    /// Whether this is a single-precision register `Sn`.
    #[verifier::when_used_as_spec(spec_is_fword)]
    pub fn is_fword(&self) -> (b: bool)
        ensures
            b == self.spec_is_fword(),
    {
        match self {
            Register::General { ty, .. } => match ty {
                General::S => true,
                _ => false,
            },
            _ => false,
        }
    }
}

impl Regoperand {
    /// The register that the operand reads, without its modifier.
    pub open spec fn base(&self) -> Register {
        match *self {
            Regoperand::Reg(reg) => reg,
            Regoperand::ShiftReg(reg, _) => reg,
            Regoperand::ExtendReg(reg, _) => reg,
        }
    }

    pub open spec fn spec_is_word(&self) -> bool {
        self.base().is_word()
    }

    pub open spec fn spec_is_fword(&self) -> bool {
        self.base().is_fword()
    }

    /// Whether the operand's register is a 32-bit general purpose register.
    #[verifier::when_used_as_spec(spec_is_word)]
    pub fn is_word(&self) -> (b: bool)
        ensures
            b == self.spec_is_word(),
    {
        match self {
            Regoperand::Reg(reg) => reg.is_word(),
            Regoperand::ShiftReg(reg, _) => reg.is_word(),
            Regoperand::ExtendReg(reg, _) => reg.is_word(),
        }
    }

    /// Whether the operand's register is a single-precision register.
    #[verifier::when_used_as_spec(spec_is_fword)]
    pub fn is_fword(&self) -> (b: bool)
        ensures
            b == self.spec_is_fword(),
    {
        match self {
            Regoperand::Reg(reg) => reg.is_fword(),
            Regoperand::ShiftReg(reg, _) => reg.is_fword(),
            Regoperand::ExtendReg(reg, _) => reg.is_fword(),
        }
    }
}

} // verus!
