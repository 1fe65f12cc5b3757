//! The RISC-V side of the model: registers, immediates, opcodes and
//! instructions in the four operand shapes R, I, S and U.

use vstd::pervasive::unreached;
use vstd::prelude::*;

verus! {

/// Index of the hard-wired zero register `x0`.
pub const ZERO: u8 = 0;

/// Index of the return-address register `ra`.
pub const RA: u8 = 1;

/// Index of the temporary `t0`, the scratch register for immediates that
/// do not fit an instruction's immediate field.
pub const T0: u8 = 5;

/// Index of the temporary `t1`.
pub const T1: u8 = 6;

/// Index of the temporary `t2`.
pub const T2: u8 = 7;

/// Index of the frame register `s0`/`fp`.
pub const FP: u8 = 8;

/// Index of the temporary `t3`, which receives the emulated zero flag.
pub const T3: u8 = 28;

/// Index of the temporary `t4`, which receives the emulated negative flag.
pub const T4: u8 = 29;

/// Index of the temporary `t5`, which receives the emulated carry flag.
pub const T5: u8 = 30;

/// Index of the temporary `t6`, kept free for the overflow flag.
pub const T6: u8 = 31;

/// A RISC-V register: integer `x0..x31`, floating point `f0..f31`, or the
/// program counter.
#[derive(Debug, Clone, Copy, PartialEq, Eq, Hash, Structural)]
pub enum Register {
    X(u8),
    F(u8),
    PC,
}

/// An immediate operand: a number, or a label whose address is filled in
/// when the program is linked.
#[derive(Debug, PartialEq, Eq, Hash)]
pub enum Immediate {
    Number(i16),
    Label(String),
}

/// The operand payload of an instruction, one variant per encoding shape.
#[derive(Debug, PartialEq, Eq, Hash)]
pub enum Operands {
    R { rd: Register, rs1: Register, rs2: Register },
    I { rd: Register, rs1: Register, imm: Immediate },
    S { rs1: Register, rs2: Register, imm: Immediate },
    U { rd: Register, imm: Immediate },
    /// No operands (used by `ret` and `nop`).
    Nop,
    Label(String),
}

#[derive(Debug, Clone, Copy, PartialEq, Eq, Hash, Structural)]
pub enum Opcode {
    // Arithmetic
    Add, Addi, Sub, Lui, Auipc,
    Addw, Addiw, Subw,
    // Shift
    Sll, Slli, Srl, Srli, Sra, Srai,
    Sllw, Slliw, Srlw, Srliw, Sraw, Sraiw,
    // Logical
    Xor, Xori, And, Andi, Or, Ori,
    // Compare
    Slt, Slti, Sltu, Sltiu,
    // Branch
    Beq, Bne, Blt, Bge, Bltu, Bgeu,
    Beqz, Bnez, Blez, Bgez, Bltz, Bgtz, Bgt, Ble,
    Bgtu, Bleu,
    // Jump and link
    Jal, Jalr,
    // System
    Ecall, Ebreak,
    // Synchronisation
    Fence, Fencei,
    // Load
    Lb, Lh, Lbu, Lhu, Lw, Lwu, Ld,
    // Store
    Sb, Sh, Sw, Sd,
    // CSR
    Csrrw, Csrrs, Csrrc, Csrrwi, Csrrsi, Csrrci,
    // Multiply, divide and remainder
    Mul, Mulh, Mulhsu, Mulhu, Mulw,
    Div, Divu,
    Rem, Remu,
    // Atomic
    Lr, Sc,
    Amoswap, Amoadd,
    Amoxor, Amoand, Amoor,
    Amomin, Amomax, Amominu, Amomaxu,
    // Floating point
    Fcvt, Fmv,
    Fadd, Fsub, Fmul, Fdiv, Fsqrt,
    Fmadd, Fmsub, Fnmadd, Fnmsub,
    Fsgnj, Fsgnjn, Fsgnjx,
    // Pseudo-instructions
    La, Lla, Lga, Mv,
    Nop,
    Not, Neg, Negw,
    J, Ret, Call, Tail,
    Pause,
}

/// One RISC-V instruction: an opcode and its operands.
#[derive(Debug, PartialEq, Eq, Hash)]
pub struct Instruction {
    pub opcode: Opcode,
    pub operands: Operands,
}

impl Clone for Immediate {
    fn clone(&self) -> (res: Self)
        ensures
            res == *self,
    {
        match self {
            Immediate::Number(n) => Immediate::Number(*n),
            Immediate::Label(s) => Immediate::Label(s.clone()),
        }
    }
}

impl Clone for Operands {
    fn clone(&self) -> (res: Self)
        ensures
            res == *self,
    {
        match self {
            Operands::R { rd, rs1, rs2 } => Operands::R { rd: *rd, rs1: *rs1, rs2: *rs2 },
            Operands::I { rd, rs1, imm } => Operands::I { rd: *rd, rs1: *rs1, imm: imm.clone() },
            Operands::S { rs1, rs2, imm } => Operands::S {
                rs1: *rs1,
                rs2: *rs2,
                imm: imm.clone(),
            },
            Operands::U { rd, imm } => Operands::U { rd: *rd, imm: imm.clone() },
            Operands::Nop => Operands::Nop,
            Operands::Label(s) => Operands::Label(s.clone()),
        }
    }
}

impl Clone for Instruction {
    fn clone(&self) -> (res: Self)
        ensures
            res == *self,
    {
        Instruction { opcode: self.opcode, operands: self.operands.clone() }
    }
}

/// The ABI name of the integer register with index `n`, for `n` up to 31.
pub open spec fn int_abi_name(n: u8) -> Seq<char>
    recommends
        n < 32,
{
    match n {
        0 => "zero"@,
        1 => "ra"@,
        2 => "sp"@,
        3 => "gp"@,
        4 => "tp"@,
        5 => "t0"@,
        6 => "t1"@,
        7 => "t2"@,
        8 => "s0"@,
        9 => "s1"@,
        10 => "a0"@,
        11 => "a1"@,
        12 => "a2"@,
        13 => "a3"@,
        14 => "a4"@,
        15 => "a5"@,
        16 => "a6"@,
        17 => "a7"@,
        18 => "s2"@,
        19 => "s3"@,
        20 => "s4"@,
        21 => "s5"@,
        22 => "s6"@,
        23 => "s7"@,
        24 => "s8"@,
        25 => "s9"@,
        26 => "s10"@,
        27 => "s11"@,
        28 => "t3"@,
        29 => "t4"@,
        30 => "t5"@,
        _ => "t6"@,
    }
}

/// The ABI name of the floating-point register with index `n`, for `n` up
/// to 31.
pub open spec fn float_abi_name(n: u8) -> Seq<char>
    recommends
        n < 32,
{
    match n {
        0 => "ft0"@,
        1 => "ft1"@,
        2 => "ft2"@,
        3 => "ft3"@,
        4 => "ft4"@,
        5 => "ft5"@,
        6 => "ft6"@,
        7 => "ft7"@,
        8 => "fs0"@,
        9 => "fs1"@,
        10 => "fa0"@,
        11 => "fa1"@,
        12 => "fa2"@,
        13 => "fa3"@,
        14 => "fa4"@,
        15 => "fa5"@,
        16 => "fa6"@,
        17 => "fa7"@,
        18 => "fs2"@,
        19 => "fs3"@,
        20 => "fs4"@,
        21 => "fs5"@,
        22 => "fs6"@,
        23 => "fs7"@,
        24 => "fs8"@,
        25 => "fs9"@,
        26 => "fs10"@,
        27 => "fs11"@,
        28 => "ft8"@,
        29 => "ft9"@,
        30 => "ft10"@,
        _ => "ft11"@,
    }
}

impl Register {
    /// The name of a valid register in the standard calling convention.
    pub open spec fn spec_abi_name(&self) -> Seq<char>
        recommends
            self.is_valid(),
    {
        match *self {
            Register::X(n) => int_abi_name(n),
            Register::F(n) => float_abi_name(n),
            Register::PC => "pc"@,
        }
    }

    /// The name of the register in the standard calling convention, such as
    /// `zero`, `ra`, `a0` or `ft11`.
    pub fn abi_name(&self) -> (name: &'static str)
        requires
            self.is_valid(),
        ensures
            name@ == self.spec_abi_name(),
    {
        match self {
            Register::X(x) => match x {
                0 => "zero",
                1 => "ra",
                2 => "sp",
                3 => "gp",
                4 => "tp",
                5 => "t0",
                6 => "t1",
                7 => "t2",
                8 => "s0",
                9 => "s1",
                10 => "a0",
                11 => "a1",
                12 => "a2",
                13 => "a3",
                14 => "a4",
                15 => "a5",
                16 => "a6",
                17 => "a7",
                18 => "s2",
                19 => "s3",
                20 => "s4",
                21 => "s5",
                22 => "s6",
                23 => "s7",
                24 => "s8",
                25 => "s9",
                26 => "s10",
                27 => "s11",
                28 => "t3",
                29 => "t4",
                30 => "t5",
                31 => "t6",
                _ => unreached(),
            },
            Register::F(f) => match f {
                0 => "ft0",
                1 => "ft1",
                2 => "ft2",
                3 => "ft3",
                4 => "ft4",
                5 => "ft5",
                6 => "ft6",
                7 => "ft7",
                8 => "fs0",
                9 => "fs1",
                10 => "fa0",
                11 => "fa1",
                12 => "fa2",
                13 => "fa3",
                14 => "fa4",
                15 => "fa5",
                16 => "fa6",
                17 => "fa7",
                18 => "fs2",
                19 => "fs3",
                20 => "fs4",
                21 => "fs5",
                22 => "fs6",
                23 => "fs7",
                24 => "fs8",
                25 => "fs9",
                26 => "fs10",
                27 => "fs11",
                28 => "ft8",
                29 => "ft9",
                30 => "ft10",
                31 => "ft11",
                _ => unreached(),
            },
            Register::PC => "pc",
        }
    }

    pub open spec fn spec_is_valid(&self) -> bool {
        match *self {
            Register::X(n) => n < 32,
            Register::F(n) => n < 32,
            Register::PC => true,
        }
    }

    /// Whether the register is one of the 32 integer registers, one of the
    /// 32 floating-point registers, or the program counter.
    #[verifier::when_used_as_spec(spec_is_valid)]
    pub fn is_valid(&self) -> (b: bool)
        ensures
            b == self.spec_is_valid(),
    {
        match self {
            Register::X(n) => *n < 32,
            Register::F(n) => *n < 32,
            Register::PC => true,
        }
    }
}

impl Opcode {
    /// The immediate form of a register-form opcode. An opcode that has no
    /// immediate form, or is one already, is its own.
    pub open spec fn spec_to_imm(&self) -> Opcode {
        match *self {
            Opcode::Add => Opcode::Addi,
            Opcode::Addw => Opcode::Addiw,
            Opcode::Xor => Opcode::Xori,
            Opcode::And => Opcode::Andi,
            Opcode::Or => Opcode::Ori,
            Opcode::Slt => Opcode::Slti,
            Opcode::Sltu => Opcode::Sltiu,
            Opcode::Sra => Opcode::Srai,
            Opcode::Srl => Opcode::Srli,
            Opcode::Sll => Opcode::Slli,
            Opcode::Sraw => Opcode::Sraiw,
            Opcode::Srlw => Opcode::Srliw,
            Opcode::Sllw => Opcode::Slliw,
            other => other,
        }
    }

    /// Turns a register-form opcode into its immediate form.
    #[verifier::when_used_as_spec(spec_to_imm)]
    pub fn to_imm(&self) -> (res: Opcode)
        ensures
            res == self.spec_to_imm(),
    {
        match self {
            Opcode::Add => Opcode::Addi,
            Opcode::Addw => Opcode::Addiw,
            Opcode::Xor => Opcode::Xori,
            Opcode::And => Opcode::Andi,
            Opcode::Or => Opcode::Ori,
            Opcode::Slt => Opcode::Slti,
            Opcode::Sltu => Opcode::Sltiu,
            Opcode::Sra => Opcode::Srai,
            Opcode::Srl => Opcode::Srli,
            Opcode::Sll => Opcode::Slli,
            Opcode::Sraw => Opcode::Sraiw,
            Opcode::Srlw => Opcode::Srliw,
            Opcode::Sllw => Opcode::Slliw,
            _ => *self,
        }
    }
}

impl Instruction {
    pub fn new_i(opcode: Opcode, rd: Register, rs1: Register, imm: Immediate) -> (res: Self)
        ensures
            res == (Instruction { opcode, operands: Operands::I { rd, rs1, imm } }),
    {
        Self { opcode, operands: Operands::I { rd, rs1, imm } }
    }

    pub fn new_r(opcode: Opcode, rd: Register, rs1: Register, rs2: Register) -> (res: Self)
        ensures
            res == (Instruction { opcode, operands: Operands::R { rd, rs1, rs2 } }),
    {
        Self { opcode, operands: Operands::R { rd, rs1, rs2 } }
    }

    pub fn new_s(opcode: Opcode, rs1: Register, rs2: Register, imm: Immediate) -> (res: Self)
        ensures
            res == (Instruction { opcode, operands: Operands::S { rs1, rs2, imm } }),
    {
        Self { opcode, operands: Operands::S { rs1, rs2, imm } }
    }

    pub fn new_u(opcode: Opcode, rd: Register, imm: Immediate) -> (res: Self)
        ensures
            res == (Instruction { opcode, operands: Operands::U { rd, imm } }),
    {
        Self { opcode, operands: Operands::U { rd, imm } }
    }

    pub fn new_ret() -> (res: Self)
        ensures
            res == (Instruction { opcode: Opcode::Ret, operands: Operands::Nop }),
    {
        Self { opcode: Opcode::Ret, operands: Operands::Nop }
    }

    pub fn new_label(opcode: Opcode, label: String) -> (res: Self)
        ensures
            res == (Instruction { opcode, operands: Operands::Label(label) }),
    {
        Self { opcode, operands: Operands::Label(label) }
    }

    pub fn new_nop() -> (res: Self)
        ensures
            res == (Instruction { opcode: Opcode::Nop, operands: Operands::Nop }),
    {
        Self { opcode: Opcode::Nop, operands: Operands::Nop }
    }
}

} // verus!
