//! Lowering of one ARM64 instruction to a sequence of RISC-V instructions.
//!
//! Every rule appends to a caller-owned output sequence, and what it appends
//! is a function of the instruction alone: the contracts below give that
//! function for each rule.

use crate::arm64;
use crate::arm64::{Extend, Operand, Regoperand, Shift};
use crate::riscv;
use crate::riscv::{Immediate, Instruction, Opcode, Operands, Register};
use either::Either;
use vstd::pervasive::unreached;
use vstd::prelude::*;

verus! {

/// The largest immediate that an instruction takes as it stands: the
/// largest number of 12 bits with a sign, which is what the immediate field
/// of an I-shaped instruction holds. A larger one is first loaded into the
/// scratch register `t0`.
pub const IMM_MAX: u16 = 0x7FF;

/// The mask that an unsigned extend applies to its register.
pub const EXTEND_MASK: i16 = 0xff;

/// Makes `either::Either` known to Verus, which reads its two variants,
/// `Left` and `Right`, from the crate itself. Nothing is claimed of it.
#[verifier::external_type_specification]
#[verifier::reject_recursive_types(L)]
#[verifier::reject_recursive_types(R)]
pub struct ExEither<L, R>(Either<L, R>);

/// The I-shaped instruction `opcode rd, rs1, imm`.
pub open spec fn inst_i(opcode: Opcode, rd: Register, rs1: Register, imm: Immediate) -> Instruction {
    Instruction { opcode, operands: Operands::I { rd, rs1, imm } }
}

/// The R-shaped instruction `opcode rd, rs1, rs2`.
pub open spec fn inst_r(opcode: Opcode, rd: Register, rs1: Register, rs2: Register) -> Instruction {
    Instruction { opcode, operands: Operands::R { rd, rs1, rs2 } }
}

/// The U-shaped instruction `opcode rd, imm`.
pub open spec fn inst_u(opcode: Opcode, rd: Register, imm: Immediate) -> Instruction {
    Instruction { opcode, operands: Operands::U { rd, imm } }
}

/// The RISC-V register that stands for an ARM64 register, where there is
/// one: `Xn` and `Wn` are `xn`, `Sn` and `Dn` are `fn`, the zero registers
/// are `x0`, the stack pointer is `s0` and the link register is `ra`. The
/// vector classes `B`, `H` and `Q` have no counterpart.
pub open spec fn reg_map(reg: arm64::Register) -> Option<Register> {
    match reg {
        arm64::Register::General { ty, n } => match ty {
            arm64::General::X | arm64::General::W => Some(Register::X(n)),
            arm64::General::S | arm64::General::D => Some(Register::F(n)),
            arm64::General::B | arm64::General::H | arm64::General::Q => None,
        },
        arm64::Register::Special(special) => match special {
            arm64::Special::Xzr | arm64::Special::Wzr => Some(Register::X(riscv::ZERO)),
            arm64::Special::SP => Some(Register::X(riscv::FP)),
            arm64::Special::LR => Some(Register::X(riscv::RA)),
        },
    }
}

/// The RISC-V register that stands for an ARM64 register, or `None` for a
/// register that has no counterpart.
pub fn checked_reg_map(reg: &arm64::Register) -> (res: Option<Register>)
    ensures
        res == reg_map(*reg),
{
    match reg {
        arm64::Register::General { ty, n } => match ty {
            arm64::General::X | arm64::General::W => Some(Register::X(*n)),
            arm64::General::S | arm64::General::D => Some(Register::F(*n)),
            _ => None,
        },
        arm64::Register::Special(special) => match special {
            arm64::Special::Xzr | arm64::Special::Wzr => Some(Register::X(riscv::ZERO)),
            arm64::Special::SP => Some(Register::X(riscv::FP)),
            arm64::Special::LR => Some(Register::X(riscv::RA)),
        },
    }
}

/// Maps an ARM64 register to the RISC-V register that stands for it.
pub fn basic_arm2riscv_reg_map(reg: &arm64::Register) -> (res: Register)
    requires
        reg_map(*reg) is Some,
    ensures
        Some(res) == reg_map(*reg),
{
    match checked_reg_map(reg) {
        Some(res) => res,
        None => unreached(),
    }
}

/// Every numbered register of class `X`, `W`, `S` or `D` and every special
/// register is mapped, and a register number up to 31 gives a valid RISC-V
/// register.
pub proof fn lemma_reg_map_total(reg: arm64::Register)
    requires
        reg matches arm64::Register::General { ty, n } ==> {
            &&& ty is X || ty is W || ty is S || ty is D
            &&& n <= 31
        },
    ensures
        reg_map(reg) is Some,
        reg_map(reg)->0.is_valid(),
        reg_map(reg)->0 !is PC,
{
}

/// An ARM64 immediate as the 16-bit number that an instruction carries: the
/// same bit pattern read as a signed value.
pub open spec fn imm_number(imm: u16) -> i16 {
    if imm < 0x8000 {
        imm as i16
    } else {
        (imm - 0x1_0000) as i16
    }
}

fn number_of(imm: u16) -> (res: i16)
    ensures
        res == imm_number(imm),
{
    if imm < 0x8000 {
        imm as i16
    } else {
        (imm as i32 - 0x1_0000) as i16
    }
}

/// The opcode that applies a shift of the given kind by an immediate
/// amount. Rotate right has none.
pub open spec fn shift_opcode(kind: Shift) -> Option<Opcode> {
    match kind {
        Shift::Lsl => Some(Opcode::Slli),
        Shift::Lsr => Some(Opcode::Srli),
        Shift::Asr => Some(Opcode::Srai),
        Shift::Ror => None,
        Shift::Uxtb => Some(Opcode::Andi),
    }
}

/// The opcode that applies a shift of the given kind by an immediate
/// amount, or `None` for a rotate.
pub fn checked_shift_opcode(kind: Shift) -> (res: Option<Opcode>)
    ensures
        res == shift_opcode(kind),
{
    match kind {
        Shift::Lsl => Some(Opcode::Slli),
        Shift::Lsr => Some(Opcode::Srli),
        Shift::Asr => Some(Opcode::Srai),
        Shift::Ror => None,
        Shift::Uxtb => Some(Opcode::Andi),
    }
}

/// The instruction that shifts `reg` in place.
pub open spec fn shift_code(reg: Register, shift: (u8, Shift)) -> Seq<Instruction>
    recommends
        shift_opcode(shift.1) is Some,
{
    seq![inst_i(shift_opcode(shift.1)->0, reg, reg, Immediate::Number(shift.0 as i16))]
}

/// Appends the instruction that shifts `reg` in place by `shift`.
pub fn emit_shift_reg(res: &mut Vec<Instruction>, reg: Register, shift: (u8, Shift))
    requires
        shift_opcode(shift.1) is Some,
    ensures
        final(res)@ == old(res)@ + shift_code(reg, shift),
{
    let (amount, kind) = shift;
    let opcode = match checked_shift_opcode(kind) {
        Some(opcode) => opcode,
        None => unreached(),
    };
    let imm = Immediate::Number(amount as i16);
    res.push(Instruction::new_i(opcode, reg, reg, imm));
    assert(res@ =~= old(res)@ + shift_code(reg, shift));
}

/// The opcode that normalises a register's width before an extend's shift:
/// a mask for the unsigned kinds, a word add of zero for the signed ones.
pub open spec fn extend_opcode(kind: Extend) -> Opcode {
    match kind {
        Extend::Uxtb | Extend::Uxth | Extend::Uxtw | Extend::Lsl | Extend::Uxtx => Opcode::Andi,
        Extend::Sxtb | Extend::Sxth | Extend::Sxtw | Extend::Sxtx => Opcode::Addiw,
    }
}

/// The two instructions that extend `reg` in place and shift it left.
pub open spec fn extend_code(reg: Register, extend: (u8, Extend)) -> Seq<Instruction> {
    let opcode = extend_opcode(extend.1);
    let operand: i16 = if opcode == Opcode::Andi {
        EXTEND_MASK
    } else {
        0
    };
    seq![
        inst_i(opcode, reg, reg, Immediate::Number(operand)),
        inst_i(Opcode::Slli, reg, reg, Immediate::Number(extend.0 as i16)),
    ]
}

/// Appends the two instructions that extend `reg` in place and shift it
/// left by the extend amount.
pub fn emit_extend_reg(res: &mut Vec<Instruction>, reg: Register, extend: (u8, Extend))
    ensures
        final(res)@ == old(res)@ + extend_code(reg, extend),
{
    let (amount, kind) = extend;
    let inst1 = match kind {
        Extend::Uxtb | Extend::Uxth | Extend::Uxtw | Extend::Lsl | Extend::Uxtx => {
            Instruction::new_i(Opcode::Andi, reg, reg, Immediate::Number(EXTEND_MASK))
        },
        _ => Instruction::new_i(Opcode::Addiw, reg, reg, Immediate::Number(0)),
    };
    let inst2 = Instruction::new_i(Opcode::Slli, reg, reg, Immediate::Number(amount as i16));
    res.push(inst1);
    res.push(inst2);
    assert(res@ =~= old(res)@ + extend_code(reg, extend));
}

/// Whether a register operand can be lowered: its register has a RISC-V
/// counterpart and its shift, if any, is not a rotate.
pub open spec fn spec_operand_supported(operand: &Regoperand) -> bool {
    &&& reg_map(operand.base()) is Some
    &&& *operand matches Regoperand::ShiftReg(_, shift) ==> shift_opcode(shift.1) is Some
}

/// Whether a register operand can be lowered: its register has a RISC-V
/// counterpart and its shift, if any, is not a rotate.
#[verifier::when_used_as_spec(spec_operand_supported)]
pub fn operand_supported(operand: &Regoperand) -> (b: bool)
    ensures
        b == spec_operand_supported(operand),
{
    match operand {
        Regoperand::Reg(reg) => checked_reg_map(reg).is_some(),
        Regoperand::ShiftReg(reg, shift) => checked_reg_map(reg).is_some() && checked_shift_opcode(
            shift.1,
        ).is_some(),
        Regoperand::ExtendReg(reg, _) => checked_reg_map(reg).is_some(),
    }
}

/// The RISC-V register that holds a register operand's value once
/// `operand_code` has run.
pub open spec fn operand_reg(operand: Regoperand) -> Register
    recommends
        operand_supported(&operand),
{
    reg_map(operand.base())->0
}

/// The instructions that apply a register operand's shift or extend to its
/// mapped register, in place. A bare register needs none.
pub open spec fn operand_code(operand: Regoperand) -> Seq<Instruction>
    recommends
        operand_supported(&operand),
{
    match operand {
        Regoperand::Reg(_) => Seq::empty(),
        Regoperand::ShiftReg(_, shift) => shift_code(operand_reg(operand), shift),
        Regoperand::ExtendReg(_, extend) => extend_code(operand_reg(operand), extend),
    }
}

/// Makes a register operand usable as a plain register: appends its shift or
/// extend, applied in place to the mapped register, and returns that
/// register.
pub fn emit_shift_or_extend(res: &mut Vec<Instruction>, reg: &Regoperand) -> (out: Register)
    requires
        operand_supported(reg),
    ensures
        out == operand_reg(*reg),
        final(res)@ == old(res)@ + operand_code(*reg),
{
    match reg {
        Regoperand::ShiftReg(register, x) => {
            let riscv_rg = basic_arm2riscv_reg_map(register);
            emit_shift_reg(res, riscv_rg, *x);
            riscv_rg
        },
        Regoperand::ExtendReg(register, x) => {
            let riscv_rg = basic_arm2riscv_reg_map(register);
            emit_extend_reg(res, riscv_rg, *x);
            riscv_rg
        },
        Regoperand::Reg(register) => {
            assert(res@ =~= old(res)@ + operand_code(*reg));
            basic_arm2riscv_reg_map(register)
        },
    }
}

/// Whether an immediate is too large for an instruction's immediate field.
pub open spec fn needs_scratch(imm: u16) -> bool {
    imm > IMM_MAX
}

/// The instructions that load an oversized immediate into `t0` and apply
/// its shift there. An immediate that fits needs none.
pub open spec fn imm_code(imm: u16, shift: Option<(u8, Shift)>) -> Seq<Instruction> {
    if needs_scratch(imm) {
        let load = seq![
            inst_i(
                Opcode::Lui,
                Register::X(riscv::T0),
                Register::X(riscv::ZERO),
                Immediate::Number(imm_number(imm)),
            ),
        ];
        match shift {
            Some(s) => load + shift_code(Register::X(riscv::T0), s),
            None => load,
        }
    } else {
        Seq::empty()
    }
}

pub open spec fn spec_imm_supported(imm: u16, shift: Option<(u8, Shift)>) -> bool {
    needs_scratch(imm) ==> (shift matches Some(s) ==> shift_opcode(s.1) is Some)
}

/// Whether `check_imm` can legalize the immediate: an oversized one must
/// not carry a rotate.
#[verifier::when_used_as_spec(spec_imm_supported)]
pub fn imm_supported(imm: u16, shift: Option<(u8, Shift)>) -> (b: bool)
    ensures
        b == spec_imm_supported(imm, shift),
{
    if imm > IMM_MAX {
        match shift {
            Some(s) => checked_shift_opcode(s.1).is_some(),
            None => true,
        }
    } else {
        true
    }
}

/// Legalizes an immediate. One that fits is left alone and `None` is
/// returned. A larger one is loaded into `t0`, shifted there if it carries a
/// shift, and `t0` is returned for the caller to use in its place.
pub fn check_imm(res: &mut Vec<Instruction>, imm: u16, shift: Option<(u8, Shift)>) -> (out: Option<
    Register,
>)
    requires
        imm_supported(imm, shift),
    ensures
        out == if needs_scratch(imm) {
            Some(Register::X(riscv::T0))
        } else {
            None
        },
        final(res)@ == old(res)@ + imm_code(imm, shift),
{
    if imm > IMM_MAX {
        let rd = Register::X(riscv::T0);
        res.push(
            Instruction::new_i(
                Opcode::Lui,
                rd,
                Register::X(riscv::ZERO),
                Immediate::Number(number_of(imm)),
            ),
        );
        if let Some(s) = shift {
            emit_shift_reg(res, rd, s);
        }
        assert(res@ =~= old(res)@ + imm_code(imm, shift));
        Some(rd)
    } else {
        assert(res@ =~= old(res)@ + imm_code(imm, shift));
        None
    }
}

/// The instructions that compute the zero flag into `t3` and the negative
/// flag into `t4` from the result in `rd`.
pub open spec fn nz_flag_code(rd: Register) -> Seq<Instruction> {
    seq![
        inst_i(Opcode::Sltiu, Register::X(riscv::T3), rd, Immediate::Number(1)),
        inst_r(Opcode::Slt, Register::X(riscv::T4), rd, Register::X(riscv::ZERO)),
    ]
}

/// The instructions that compute the zero, negative and carry flags, in
/// that order, from the result in `rd` and the first source in `rs1`. The
/// carry goes to `t5`. No instruction computes the overflow flag.
pub open spec fn flag_code(rd: Register, rs1: Register) -> Seq<Instruction> {
    nz_flag_code(rd) + seq![inst_r(Opcode::Sltu, Register::X(riscv::T5), rd, rs1)]
}

/// The instruction that complements the carry flag in `t5`, as a
/// subtraction needs it.
pub open spec fn carry_complement() -> Instruction {
    inst_i(Opcode::Xori, Register::X(riscv::T5), Register::X(riscv::T5), Immediate::Number(1))
}

/// Appends the computation of the zero flag and of the negative flag.
pub fn emit_set_nz_flag(res: &mut Vec<Instruction>, rd: Register)
    ensures
        final(res)@ == old(res)@ + nz_flag_code(rd),
{
    res.push(Instruction::new_i(Opcode::Sltiu, Register::X(riscv::T3), rd, Immediate::Number(1)));
    res.push(Instruction::new_r(Opcode::Slt, Register::X(riscv::T4), rd, Register::X(riscv::ZERO)));
    assert(res@ =~= old(res)@ + nz_flag_code(rd));
}

/// Appends the computation of the zero, negative and carry flags. The
/// second operand of the flag-setting instruction, the last argument, takes
/// no part in it.
pub fn emit_set_flag(
    res: &mut Vec<Instruction>,
    rd: Register,
    rs1: Register,
    _rm: Either<Register, Immediate>,
)
    ensures
        final(res)@ == old(res)@ + flag_code(rd, rs1),
{
    emit_set_nz_flag(res, rd);
    res.push(Instruction::new_r(Opcode::Sltu, Register::X(riscv::T5), rd, rs1));
    assert(res@ =~= old(res)@ + flag_code(rd, rs1));
}

/// The operand at a position, if the instruction has that many.
pub open spec fn operand_at(ops: Seq<Operand>, i: int) -> Option<Operand> {
    if 0 <= i < ops.len() {
        Some(ops[i])
    } else {
        None
    }
}

/// The destination: the first operand, if it is a register operand.
pub open spec fn dest_operand(ops: Seq<Operand>) -> Option<Regoperand> {
    match operand_at(ops, 0) {
        Some(Operand::Reg(reg)) => Some(reg),
        _ => None,
    }
}

/// The branch target: the first operand, if it is a label.
pub open spec fn label_operand(ops: Seq<Operand>) -> Option<String> {
    match operand_at(ops, 0) {
        Some(Operand::Label(label)) => Some(label),
        _ => None,
    }
}

/// Whether some operand is an immediate.
pub open spec fn has_imm(ops: Seq<Operand>) -> bool {
    exists|i: int| 0 <= i < ops.len() && (#[trigger] ops[i]) is Imm
}

/// Whether every register operand is a 32-bit general purpose register.
pub open spec fn all_word(ops: Seq<Operand>) -> bool {
    forall|i: int|
        0 <= i < ops.len() ==> ((#[trigger] ops[i]) matches Operand::Reg(reg) ==> reg.is_word())
}

/// Whether every register operand is a single-precision register.
pub open spec fn all_fword(ops: Seq<Operand>) -> bool {
    forall|i: int|
        0 <= i < ops.len() ==> ((#[trigger] ops[i]) matches Operand::Reg(reg) ==> reg.is_fword())
}

/// The scratch register that the third operand takes: `t0` if it is an
/// immediate too large for an instruction, none otherwise.
pub open spec fn scratch_reg(ops: Seq<Operand>) -> Option<Register> {
    match operand_at(ops, 2) {
        Some(Operand::Imm { imm, .. }) => if needs_scratch(imm) {
            Some(Register::X(riscv::T0))
        } else {
            None
        },
        _ => None,
    }
}

/// The instructions that load the third operand into the scratch register,
/// where it takes one.
pub open spec fn scratch_code(ops: Seq<Operand>) -> Seq<Instruction> {
    match operand_at(ops, 2) {
        Some(Operand::Imm { imm, shift }) => imm_code(imm, shift),
        _ => Seq::empty(),
    }
}

/// Whether a context can be built for these operands: an oversized
/// immediate in third position must not carry a rotate.
pub open spec fn operands_supported(ops: Seq<Operand>) -> bool {
    operand_at(ops, 2) matches Some(Operand::Imm { imm, shift }) ==> imm_supported(imm, shift)
}

/// Whether a context can be built for the instruction.
pub fn instruction_supported(inst: &arm64::Instruction) -> (b: bool)
    ensures
        b == operands_supported(inst.operand@),
{
    if inst.operand.len() > 2 {
        match &inst.operand[2] {
            Operand::Imm { imm, shift } => imm_supported(*imm, *shift),
            _ => true,
        }
    } else {
        true
    }
}

/// The RISC-V register of a source operand, if it is a bare register that
/// has one.
pub open spec fn source_reg(operand: Option<Operand>) -> Option<Register> {
    match operand {
        Some(Operand::Reg(Regoperand::Reg(reg))) => reg_map(reg),
        _ => None,
    }
}

fn map_operand_to_reg(op: &Option<Operand>) -> (res: Option<Register>)
    ensures
        res == source_reg(*op),
{
    match op {
        Some(Operand::Reg(Regoperand::Reg(register))) => checked_reg_map(register),
        _ => None,
    }
}

fn append_all(res: &mut Vec<Instruction>, code: &Vec<Instruction>)
    ensures
        final(res)@ == old(res)@ + code@,
{
    let mut i: usize = 0;
    assert(res@ =~= old(res)@ + code@.take(0));
    while i < code.len()
        invariant
            i <= code.len(),
            res@ == old(res)@ + code@.take(i as int),
        decreases code.len() - i,
    {
        res.push(code[i].clone());
        assert(res@ =~= old(res)@ + code@.take(i + 1));
        i += 1;
    }
    assert(code@.take(code.len() as int) =~= code@);
}

fn operand_clone_at(ops: &Vec<Operand>, i: usize) -> (res: Option<Operand>)
    ensures
        res == operand_at(ops@, i as int),
{
    if i < ops.len() {
        Some(ops[i].clone())
    } else {
        None
    }
}

fn any_imm(ops: &Vec<Operand>) -> (res: bool)
    ensures
        res == has_imm(ops@),
{
    let mut i: usize = 0;
    while i < ops.len()
        invariant
            i <= ops.len(),
            forall|j: int| 0 <= j < i ==> !((#[trigger] ops@[j]) is Imm),
        decreases ops.len() - i,
    {
        if let Operand::Imm { .. } = &ops[i] {
            return true;
        }
        i += 1;
    }
    false
}

fn every_reg_word(ops: &Vec<Operand>) -> (res: bool)
    ensures
        res == all_word(ops@),
{
    let mut i: usize = 0;
    while i < ops.len()
        invariant
            i <= ops.len(),
            forall|j: int|
                0 <= j < i ==> ((#[trigger] ops@[j]) matches Operand::Reg(reg) ==> reg.is_word()),
        decreases ops.len() - i,
    {
        if let Operand::Reg(reg) = &ops[i] {
            if !reg.is_word() {
                return false;
            }
        }
        i += 1;
    }
    true
}

fn every_reg_fword(ops: &Vec<Operand>) -> (res: bool)
    ensures
        res == all_fword(ops@),
{
    let mut i: usize = 0;
    while i < ops.len()
        invariant
            i <= ops.len(),
            forall|j: int|
                0 <= j < i ==> ((#[trigger] ops@[j]) matches Operand::Reg(reg) ==> reg.is_fword()),
        decreases ops.len() - i,
    {
        if let Operand::Reg(reg) = &ops[i] {
            if !reg.is_fword() {
                return false;
            }
        }
        i += 1;
    }
    true
}

/// The context in which one instruction is lowered: its operands by
/// position, the three classification flags, and the scratch register of an
/// oversized immediate with the instructions that load it.
pub struct Arm64Translator {
    pub inst: arm64::Instruction,
    pub opcode: arm64::Opcode,
    pub rd: Option<Regoperand>,
    pub rs1: Option<Operand>,
    pub rs2: Option<Operand>,
    pub rs3: Option<Operand>,
    pub label: Option<String>,
    /// An operand is an immediate, and it fits the instruction.
    pub iflag: bool,
    /// Every register operand is a 32-bit general purpose register.
    pub wflag: bool,
    /// Every register operand is a single-precision register.
    pub fp_wflag: bool,
    /// The instructions that load the scratch register. A rule that reads
    /// the scratch register emits them before its own instruction.
    pub riscv_inst: Vec<Instruction>,
    pub imm_temp_rsg: Option<Register>,
}

/// The opcode of an addition, by immediate form and word width.
pub open spec fn add_opcode(iflag: bool, wflag: bool) -> Opcode {
    match (iflag, wflag) {
        (true, true) => Opcode::Addiw,
        (true, false) => Opcode::Addi,
        (false, true) => Opcode::Addw,
        (false, false) => Opcode::Add,
    }
}

/// The opcode of a subtraction, by immediate form and word width. There is
/// no subtract-immediate: the immediate form adds the negated immediate.
pub open spec fn sub_opcode(iflag: bool, wflag: bool) -> Opcode {
    match (iflag, wflag) {
        (true, true) => Opcode::Addiw,
        (true, false) => Opcode::Addi,
        (false, true) => Opcode::Subw,
        (false, false) => Opcode::Sub,
    }
}

/// The register-form opcode of an ARM64 shift, if the opcode is one.
pub open spec fn shift_rule_opcode(opcode: arm64::Opcode) -> Option<Opcode> {
    match opcode {
        arm64::Opcode::Lsl => Some(Opcode::Sll),
        arm64::Opcode::Lsr => Some(Opcode::Srl),
        arm64::Opcode::Asr => Some(Opcode::Sra),
        _ => None,
    }
}

fn checked_shift_rule_opcode(opcode: arm64::Opcode) -> (res: Option<Opcode>)
    ensures
        res == shift_rule_opcode(opcode),
{
    match opcode {
        arm64::Opcode::Lsl => Some(Opcode::Sll),
        arm64::Opcode::Lsr => Some(Opcode::Srl),
        arm64::Opcode::Asr => Some(Opcode::Sra),
        _ => None,
    }
}

impl Arm64Translator {
    /// The fields are those that `new` derives from the instruction held in
    /// `inst`.
    pub open spec fn wf(&self) -> bool {
        let ops = self.inst.operand@;
        &&& self.opcode == self.inst.opcode
        &&& self.rd == dest_operand(ops)
        &&& self.rs1 == operand_at(ops, 1)
        &&& self.rs2 == operand_at(ops, 2)
        &&& self.rs3 == operand_at(ops, 3)
        &&& self.label == label_operand(ops)
        &&& self.iflag == (has_imm(ops) && scratch_reg(ops) is None)
        &&& self.wflag == all_word(ops)
        &&& self.fp_wflag == all_fword(ops)
        &&& self.riscv_inst@ == scratch_code(ops)
        &&& self.imm_temp_rsg == scratch_reg(ops)
    }

    /// Builds the context of one instruction: splits the operands by
    /// position, legalizes an immediate in third position and derives the
    /// classification flags.
    pub fn new(inst: arm64::Instruction) -> (t: Self)
        requires
            operands_supported(inst.operand@),
        ensures
            t.inst == inst,
            t.wf(),
    {
        let opcode = inst.opcode;
        let mut riscv_inst: Vec<Instruction> = Vec::new();
        let rd = match operand_clone_at(&inst.operand, 0) {
            Some(Operand::Reg(reg)) => Some(reg),
            _ => None,
        };
        let rs1 = operand_clone_at(&inst.operand, 1);
        let rs2 = operand_clone_at(&inst.operand, 2);
        let temp_reg = match &rs2 {
            Some(Operand::Imm { imm, shift }) => check_imm(&mut riscv_inst, *imm, *shift),
            _ => None,
        };
        let rs3 = operand_clone_at(&inst.operand, 3);
        let label = match operand_clone_at(&inst.operand, 0) {
            Some(Operand::Label(l)) => Some(l),
            _ => None,
        };
        let iflag = any_imm(&inst.operand) && temp_reg.is_none();
        let wflag = every_reg_word(&inst.operand);
        let fp_wflag = every_reg_fword(&inst.operand);
        assert(riscv_inst@ =~= scratch_code(inst.operand@));
        Self {
            inst,
            opcode,
            rd,
            rs1,
            rs2,
            rs3,
            label,
            iflag,
            wflag,
            fp_wflag,
            riscv_inst,
            imm_temp_rsg: temp_reg,
        }
    }

    /// The RISC-V register of the destination, if it is a bare register
    /// that has one.
    pub open spec fn dest_reg(&self) -> Option<Register> {
        match self.rd {
            Some(Regoperand::Reg(reg)) => reg_map(reg),
            _ => None,
        }
    }

    fn map_rd(&self) -> (res: Option<Register>)
        ensures
            res == self.dest_reg(),
    {
        match &self.rd {
            Some(Regoperand::Reg(register)) => checked_reg_map(register),
            _ => None,
        }
    }

    fn map_rs1(&self) -> (res: Option<Register>)
        ensures
            res == source_reg(self.rs1),
    {
        map_operand_to_reg(&self.rs1)
    }

    fn map_rs2(&self) -> (res: Option<Register>)
        ensures
            res == source_reg(self.rs2),
    {
        map_operand_to_reg(&self.rs2)
    }

    fn map_rs3(&self) -> (res: Option<Register>)
        ensures
            res == source_reg(self.rs3),
    {
        map_operand_to_reg(&self.rs3)
    }

    fn map_rs2_reg(&self) -> (res: Option<Regoperand>)
        ensures
            res == match self.rs2 {
                Some(Operand::Reg(reg)) => Some(reg),
                _ => None,
            },
    {
        match &self.rs2 {
            Some(Operand::Reg(reg)) => Some(*reg),
            _ => None,
        }
    }

    fn rs2_as_imm(&self) -> (imm: u16)
        requires
            self.rs2 matches Some(Operand::Imm { .. }),
        ensures
            self.rs2 matches Some(Operand::Imm { imm: i, .. }) && i == imm,
    {
        match &self.rs2 {
            Some(Operand::Imm { imm, .. }) => *imm,
            _ => unreached(),
        }
    }

    pub open spec fn spec_rs2_in_reg(&self) -> bool {
        self.imm_temp_rsg is None ==> (self.rs2 matches Some(Operand::Reg(reg))
            && operand_supported(&reg))
    }

    /// Whether the second source can be had in a register: in the scratch
    /// register, or as a register operand that can be lowered.
    #[verifier::when_used_as_spec(spec_rs2_in_reg)]
    pub fn rs2_in_reg(&self) -> (b: bool)
        ensures
            b == self.spec_rs2_in_reg(),
    {
        if self.imm_temp_rsg.is_some() {
            true
        } else {
            match &self.rs2 {
                Some(Operand::Reg(reg)) => operand_supported(reg),
                _ => false,
            }
        }
    }

    /// The register that holds the second source.
    pub open spec fn rs2_reg(&self) -> Register
        recommends
            self.rs2_in_reg(),
    {
        match self.imm_temp_rsg {
            Some(reg) => reg,
            None => operand_reg(self.rs2->0->Reg_0),
        }
    }

    /// The instructions that bring the second source into `rs2_reg`: the
    /// load of the scratch register where there is one, else the shift or
    /// extend of the register operand.
    pub open spec fn rs2_code(&self) -> Seq<Instruction>
        recommends
            self.rs2_in_reg(),
    {
        match self.imm_temp_rsg {
            Some(_) => self.riscv_inst@,
            None => operand_code(self.rs2->0->Reg_0),
        }
    }

    fn second_source(&self, res: &mut Vec<Instruction>) -> (out: Register)
        requires
            self.rs2_in_reg(),
        ensures
            out == self.rs2_reg(),
            final(res)@ == old(res)@ + self.rs2_code(),
    {
        if let Some(reg) = self.imm_temp_rsg {
            append_all(res, &self.riscv_inst);
            reg
        } else {
            let rs2 = self.map_rs2_reg().unwrap();
            emit_shift_or_extend(res, &rs2)
        }
    }

    pub open spec fn spec_arith_ready(&self) -> bool {
        &&& self.dest_reg() is Some
        &&& source_reg(self.rs1) is Some
        &&& if self.iflag {
            self.rs2 matches Some(Operand::Imm { .. })
        } else {
            self.rs2_in_reg()
        }
    }

    /// Whether the context holds the operands that `add` needs: a
    /// destination and a first source that are bare mapped registers, and a
    /// second source that is an immediate where `iflag` is set and can be
    /// had in a register where it is not.
    #[verifier::when_used_as_spec(spec_arith_ready)]
    pub fn arith_ready(&self) -> (b: bool)
        ensures
            b == self.spec_arith_ready(),
    {
        self.map_rd().is_some() && self.map_rs1().is_some() && if self.iflag {
            match &self.rs2 {
                Some(Operand::Imm { .. }) => true,
                _ => false,
            }
        } else {
            self.rs2_in_reg()
        }
    }

    /// What `add` emits: the load of an oversized immediate or the second
    /// source's shift or extend, the addition, and for `adds` the three flag
    /// computations.
    pub open spec fn add_code(&self) -> Seq<Instruction>
        recommends
            self.arith_ready(),
    {
        let rd = self.dest_reg()->0;
        let rs1 = source_reg(self.rs1)->0;
        let opcode = add_opcode(self.iflag, self.wflag);
        let core = if self.iflag {
            seq![inst_i(opcode, rd, rs1, Immediate::Number(imm_number(self.rs2->0->imm)))]
        } else {
            self.rs2_code() + seq![inst_r(opcode, rd, rs1, self.rs2_reg())]
        };
        if self.opcode == arm64::Opcode::Adds {
            core + flag_code(rd, rs1)
        } else {
            core
        }
    }

    /// Lowers `add` and `adds`, with an immediate or a register as second
    /// source.
    pub fn add(&self, res: &mut Vec<Instruction>)
        requires
            self.arith_ready(),
        ensures
            final(res)@ == old(res)@ + self.add_code(),
    {
        let opcode = match (self.iflag, self.wflag) {
            (true, true) => Opcode::Addiw,
            (true, false) => Opcode::Addi,
            (false, true) => Opcode::Addw,
            (false, false) => Opcode::Add,
        };
        let rd = self.map_rd().unwrap();
        let rs1 = self.map_rs1().unwrap();
        if self.iflag {
            let imm = Immediate::Number(number_of(self.rs2_as_imm()));
            res.push(Instruction::new_i(opcode, rd, rs1, imm.clone()));
            if self.opcode == arm64::Opcode::Adds {
                emit_set_flag(res, rd, rs1, Either::Right(imm));
            }
        } else {
            let rs2 = self.second_source(res);
            res.push(Instruction::new_r(opcode, rd, rs1, rs2));
            if self.opcode == arm64::Opcode::Adds {
                emit_set_flag(res, rd, rs1, Either::Left(rs2));
            }
        }
        assert(res@ =~= old(res)@ + self.add_code());
    }

    pub open spec fn spec_sub_ready(&self) -> bool {
        &&& self.arith_ready()
        &&& self.iflag ==> imm_number(self.rs2->0->imm) != i16::MIN
    }

    /// Whether the context holds the operands that `sub` needs: those of
    /// `add`, and an immediate whose negation is a 16-bit number.
    #[verifier::when_used_as_spec(spec_sub_ready)]
    pub fn sub_ready(&self) -> (b: bool)
        ensures
            b == self.spec_sub_ready(),
    {
        self.arith_ready() && (!self.iflag || number_of(self.rs2_as_imm()) != i16::MIN)
    }

    /// What `sub` emits: the load of an oversized immediate or the second
    /// source's shift or extend, the subtraction, and for `subs` the three
    /// flag computations and the complement of the carry.
    pub open spec fn sub_code(&self) -> Seq<Instruction>
        recommends
            self.sub_ready(),
    {
        let rd = self.dest_reg()->0;
        let rs1 = source_reg(self.rs1)->0;
        let opcode = sub_opcode(self.iflag, self.wflag);
        let core = if self.iflag {
            seq![
                inst_i(opcode, rd, rs1, Immediate::Number((-imm_number(self.rs2->0->imm)) as i16)),
            ]
        } else {
            self.rs2_code() + seq![inst_r(opcode, rd, rs1, self.rs2_reg())]
        };
        if self.opcode == arm64::Opcode::Subs {
            core + flag_code(rd, rs1) + seq![carry_complement()]
        } else {
            core
        }
    }

    /// Lowers `sub` and `subs`, with an immediate or a register as second
    /// source.
    pub fn sub(&self, res: &mut Vec<Instruction>)
        requires
            self.sub_ready(),
        ensures
            final(res)@ == old(res)@ + self.sub_code(),
    {
        let opcode = match (self.iflag, self.wflag) {
            (true, true) => Opcode::Addiw,
            (true, false) => Opcode::Addi,
            (false, true) => Opcode::Subw,
            (false, false) => Opcode::Sub,
        };
        let rd = self.map_rd().unwrap();
        let rs1 = self.map_rs1().unwrap();
        let rm = if self.iflag {
            let imm = Immediate::Number(-number_of(self.rs2_as_imm()));
            res.push(Instruction::new_i(opcode, rd, rs1, imm.clone()));
            Either::Right(imm)
        } else {
            let rs2 = self.second_source(res);
            res.push(Instruction::new_r(opcode, rd, rs1, rs2));
            Either::Left(rs2)
        };
        if self.opcode == arm64::Opcode::Subs {
            emit_set_flag(res, rd, rs1, rm);
            res.push(
                Instruction::new_i(
                    Opcode::Xori,
                    Register::X(riscv::T5),
                    Register::X(riscv::T5),
                    Immediate::Number(1),
                ),
            );
        }
        assert(res@ =~= old(res)@ + self.sub_code());
    }

    pub open spec fn spec_three_regs_ready(&self) -> bool {
        &&& self.dest_reg() is Some
        &&& source_reg(self.rs1) is Some
        &&& source_reg(self.rs2) is Some
    }

    /// Whether the context holds the operands that `mul`, `sdiv` and `udiv`
    /// need: a destination and two sources that are bare mapped registers.
    #[verifier::when_used_as_spec(spec_three_regs_ready)]
    pub fn three_regs_ready(&self) -> (b: bool)
        ensures
            b == self.spec_three_regs_ready(),
    {
        self.map_rd().is_some() && self.map_rs1().is_some()
            && self.map_rs2().is_some()
    }

    pub open spec fn spec_madd_ready(&self) -> bool {
        self.three_regs_ready() && source_reg(self.rs3) is Some
    }

    /// Whether the context holds the operands that `madd` needs: a
    /// destination and three sources that are bare mapped registers.
    #[verifier::when_used_as_spec(spec_madd_ready)]
    pub fn madd_ready(&self) -> (b: bool)
        ensures
            b == self.spec_madd_ready(),
    {
        self.three_regs_ready() && self.map_rs3().is_some()
    }

    /// The single instruction `opcode rd, rs1, rs2` on the mapped registers.
    pub open spec fn three_regs_code(&self, opcode: Opcode) -> Seq<Instruction>
        recommends
            self.three_regs_ready(),
    {
        seq![inst_r(opcode, self.dest_reg()->0, source_reg(self.rs1)->0, source_reg(self.rs2)->0)]
    }

    fn three_regs(&self, res: &mut Vec<Instruction>, opcode: Opcode)
        requires
            self.three_regs_ready(),
        ensures
            final(res)@ == old(res)@ + self.three_regs_code(opcode),
    {
        let rd = self.map_rd().unwrap();
        let rs1 = self.map_rs1().unwrap();
        let rs2 = self.map_rs2().unwrap();
        res.push(Instruction::new_r(opcode, rd, rs1, rs2));
        assert(res@ =~= old(res)@ + self.three_regs_code(opcode));
    }

    /// What `madd` emits: the product into the destination, then the
    /// addend added to it.
    pub open spec fn madd_code(&self) -> Seq<Instruction>
        recommends
            self.madd_ready(),
    {
        let rd = self.dest_reg()->0;
        self.three_regs_code(Opcode::Mul) + seq![
            inst_r(Opcode::Add, rd, rd, source_reg(self.rs3)->0),
        ]
    }

    /// Lowers the multiply-add `rd = rs1 * rs2 + rs3`.
    pub fn madd(&self, res: &mut Vec<Instruction>)
        requires
            self.madd_ready(),
        ensures
            final(res)@ == old(res)@ + self.madd_code(),
    {
        let rd = self.map_rd().unwrap();
        let rs3 = self.map_rs3().unwrap();
        self.three_regs(res, Opcode::Mul);
        res.push(Instruction::new_r(Opcode::Add, rd, rd, rs3));
        assert(res@ =~= old(res)@ + self.madd_code());
    }

    /// Lowers the multiplication to `mul`.
    pub fn mul(&self, res: &mut Vec<Instruction>)
        requires
            self.three_regs_ready(),
        ensures
            final(res)@ == old(res)@ + self.three_regs_code(Opcode::Mul),
    {
        self.three_regs(res, Opcode::Mul);
    }

    /// Lowers the signed division to `div`.
    pub fn sdiv(&self, res: &mut Vec<Instruction>)
        requires
            self.three_regs_ready(),
        ensures
            final(res)@ == old(res)@ + self.three_regs_code(Opcode::Div),
    {
        self.three_regs(res, Opcode::Div);
    }

    /// Lowers the unsigned division to `divu`.
    pub fn udiv(&self, res: &mut Vec<Instruction>)
        requires
            self.three_regs_ready(),
        ensures
            final(res)@ == old(res)@ + self.three_regs_code(Opcode::Divu),
    {
        self.three_regs(res, Opcode::Divu);
    }

    pub open spec fn spec_mov_ready(&self) -> bool {
        &&& self.dest_reg() is Some
        &&& match self.rs1 {
            Some(Operand::Reg(reg)) => operand_supported(&reg),
            Some(Operand::Imm { .. }) => true,
            Some(Operand::Label(_)) => true,
            _ => false,
        }
    }

    /// Whether the context holds the operands that a move needs: a
    /// destination that is a bare mapped register, and a source that is a
    /// register operand that can be lowered, an immediate or a label.
    #[verifier::when_used_as_spec(spec_mov_ready)]
    pub fn mov_ready(&self) -> (b: bool)
        ensures
            b == self.spec_mov_ready(),
    {
        self.map_rd().is_some() && match &self.rs1 {
            Some(Operand::Reg(reg)) => operand_supported(reg),
            Some(Operand::Imm { .. }) => true,
            Some(Operand::Label(_)) => true,
            _ => false,
        }
    }

    /// What `mov` emits. A register source is shifted or extended and then
    /// added to zero; an immediate is added to zero; a label is loaded as
    /// an upper immediate, its address left for the linker.
    pub open spec fn mov_code(&self) -> Seq<Instruction>
        recommends
            self.mov_ready(),
    {
        let rd = self.dest_reg()->0;
        let zero = Register::X(riscv::ZERO);
        match self.rs1 {
            Some(Operand::Reg(reg)) => operand_code(reg) + seq![
                inst_r(Opcode::Add, rd, zero, operand_reg(reg)),
            ],
            Some(Operand::Imm { imm, .. }) => seq![
                inst_i(Opcode::Addi, rd, zero, Immediate::Number(imm_number(imm))),
            ],
            Some(Operand::Label(label)) => seq![
                inst_i(Opcode::Lui, rd, zero, Immediate::Label(label)),
            ],
            _ => Seq::empty(),
        }
    }

    /// Lowers a move from a register, an immediate or a label.
    pub fn mov(&self, res: &mut Vec<Instruction>)
        requires
            self.mov_ready(),
        ensures
            final(res)@ == old(res)@ + self.mov_code(),
    {
        let rd = self.map_rd().unwrap();
        let zero = Register::X(riscv::ZERO);
        match &self.rs1 {
            Some(Operand::Reg(regoperand)) => {
                let rs1 = emit_shift_or_extend(res, regoperand);
                res.push(Instruction::new_r(Opcode::Add, rd, zero, rs1));
            },
            Some(Operand::Imm { imm, .. }) => {
                let imm = Immediate::Number(number_of(*imm));
                res.push(Instruction::new_i(Opcode::Addi, rd, zero, imm));
            },
            Some(Operand::Label(s)) => {
                res.push(Instruction::new_i(Opcode::Lui, rd, zero, Immediate::Label(s.clone())));
            },
            _ => unreached(),
        }
        assert(res@ =~= old(res)@ + self.mov_code());
    }

    /// What `mov_not` emits: the move, then the bitwise complement of the
    /// destination.
    pub open spec fn mov_not_code(&self) -> Seq<Instruction>
        recommends
            self.mov_ready(),
    {
        let rd = self.dest_reg()->0;
        self.mov_code() + seq![inst_i(Opcode::Xori, rd, rd, Immediate::Number(-1i16))]
    }

    /// Lowers a move of the bitwise complement.
    pub fn mov_not(&self, res: &mut Vec<Instruction>)
        requires
            self.mov_ready(),
        ensures
            final(res)@ == old(res)@ + self.mov_not_code(),
    {
        let rd = self.map_rd().unwrap();
        self.mov(res);
        res.push(Instruction::new_i(Opcode::Xori, rd, rd, Immediate::Number(-1)));
        assert(res@ =~= old(res)@ + self.mov_not_code());
    }

    /// Lowers a move that clears the rest of the destination, which is the
    /// plain move.
    pub fn mov_zero(&self, res: &mut Vec<Instruction>)
        requires
            self.mov_ready(),
        ensures
            final(res)@ == old(res)@ + self.mov_code(),
    {
        self.mov(res);
    }

    /// What `branch` emits: one jump to the label, which is left for the
    /// linker to resolve.
    pub open spec fn branch_code(&self) -> Seq<Instruction>
        recommends
            self.label is Some,
    {
        seq![inst_u(Opcode::Jal, Register::X(riscv::ZERO), Immediate::Label(self.label->0))]
    }

    /// Lowers the unconditional branch.
    pub fn branch(&self, res: &mut Vec<Instruction>)
        requires
            self.label is Some,
        ensures
            final(res)@ == old(res)@ + self.branch_code(),
    {
        match &self.label {
            Some(label) => {
                res.push(
                    Instruction::new_u(
                        Opcode::Jal,
                        Register::X(riscv::ZERO),
                        Immediate::Label(label.clone()),
                    ),
                );
            },
            None => unreached(),
        }
        assert(res@ =~= old(res)@ + self.branch_code());
    }

    pub open spec fn spec_shift_ready(&self) -> bool {
        &&& shift_rule_opcode(self.opcode) is Some
        &&& self.dest_reg() is Some
        &&& source_reg(self.rs1) is Some
        &&& match self.rs2 {
            Some(Operand::Imm { .. }) => true,
            Some(Operand::Reg(reg)) => operand_supported(&reg),
            _ => false,
        }
    }

    /// Whether the context holds what a shift needs: one of the three
    /// shift opcodes, a destination and a source that are bare mapped
    /// registers, and an amount that is an immediate or a register operand
    /// that can be lowered.
    #[verifier::when_used_as_spec(spec_shift_ready)]
    pub fn shift_ready(&self) -> (b: bool)
        ensures
            b == self.spec_shift_ready(),
    {
        checked_shift_rule_opcode(self.opcode).is_some() && self.map_rd().is_some()
            && self.map_rs1().is_some() && match &self.rs2 {
            Some(Operand::Imm { .. }) => true,
            Some(Operand::Reg(reg)) => operand_supported(reg),
            _ => false,
        }
    }

    /// What `shift` emits. An immediate amount goes into the immediate form
    /// of the shift; a register amount is shifted or extended first and
    /// then used by the register form.
    pub open spec fn shift_code(&self) -> Seq<Instruction>
        recommends
            self.shift_ready(),
    {
        let rd = self.dest_reg()->0;
        let rs1 = source_reg(self.rs1)->0;
        let opcode = shift_rule_opcode(self.opcode)->0;
        match self.rs2 {
            Some(Operand::Imm { imm, .. }) => seq![
                inst_i(opcode.spec_to_imm(), rd, rs1, Immediate::Number(imm_number(imm))),
            ],
            Some(Operand::Reg(reg)) => operand_code(reg) + seq![
                inst_r(opcode, rd, rs1, operand_reg(reg)),
            ],
            _ => Seq::empty(),
        }
    }

    /// Lowers `lsl`, `lsr` and `asr` by an immediate or a register amount.
    pub fn shift(&self, res: &mut Vec<Instruction>)
        requires
            self.shift_ready(),
        ensures
            final(res)@ == old(res)@ + self.shift_code(),
    {
        let rd = self.map_rd().unwrap();
        let rs1 = self.map_rs1().unwrap();
        let opcode = match checked_shift_rule_opcode(self.opcode) {
            Some(opcode) => opcode,
            None => unreached(),
        };
        match &self.rs2 {
            Some(Operand::Imm { imm, .. }) => {
                let imm = Immediate::Number(number_of(*imm));
                res.push(Instruction::new_i(opcode.to_imm(), rd, rs1, imm));
            },
            Some(Operand::Reg(reg)) => {
                let rs2 = emit_shift_or_extend(res, reg);
                res.push(Instruction::new_r(opcode, rd, rs1, rs2));
            },
            _ => unreached(),
        }
        assert(res@ =~= old(res)@ + self.shift_code());
    }
}

/// Lowering is a function of the instruction: two contexts built for the
/// same opcode and the same operands hold the same scratch code, and every
/// rule emits the same instructions for both.
pub proof fn lemma_translation_deterministic(a: Arm64Translator, b: Arm64Translator)
    requires
        a.wf(),
        b.wf(),
        a.inst.opcode == b.inst.opcode,
        a.inst.operand@ == b.inst.operand@,
    ensures
        a.riscv_inst@ == b.riscv_inst@,
        a.add_code() == b.add_code(),
        a.sub_code() == b.sub_code(),
        a.madd_code() == b.madd_code(),
        forall|opcode: Opcode| a.three_regs_code(opcode) == b.three_regs_code(opcode),
        a.mov_code() == b.mov_code(),
        a.mov_not_code() == b.mov_not_code(),
        a.branch_code() == b.branch_code(),
        a.shift_code() == b.shift_code(),
{
}

/// An immediate that fits is kept as it is: no scratch register is taken,
/// nothing is loaded, and the addition or subtraction comes first in the
/// output and carries the immediate itself, negated for a subtraction.
pub proof fn lemma_small_immediate_kept(t: Arm64Translator)
    requires
        t.wf(),
        t.sub_ready(),
        t.rs2 matches Some(Operand::Imm { imm, .. }) && !needs_scratch(imm),
    ensures
        t.imm_temp_rsg is None,
        t.riscv_inst@ == Seq::<Instruction>::empty(),
        t.iflag,
        t.add_code()[0] == inst_i(
            add_opcode(true, t.wflag),
            t.dest_reg()->0,
            source_reg(t.rs1)->0,
            Immediate::Number(t.rs2->0->imm as i16),
        ),
        t.sub_code()[0] == inst_i(
            sub_opcode(true, t.wflag),
            t.dest_reg()->0,
            source_reg(t.rs1)->0,
            Immediate::Number((-(t.rs2->0->imm as int)) as i16),
        ),
{
    assert(t.inst.operand@[2] is Imm);
}

/// An immediate that does not fit is loaded into `t0` once, before the
/// addition or subtraction, which is the register form reading `t0`. The
/// whole output is the load, the immediate's shift if it has one, that
/// instruction, and the flag computations of a flag-setting opcode.
pub proof fn lemma_large_immediate_loaded(t: Arm64Translator)
    requires
        t.wf(),
        t.sub_ready(),
        t.rs2 matches Some(Operand::Imm { imm, .. }) && needs_scratch(imm),
    ensures
        ({
            let t0 = Register::X(riscv::T0);
            let rd = t.dest_reg()->0;
            let rs1 = source_reg(t.rs1)->0;
            let load = imm_code(t.rs2->0->imm, t.rs2->0->shift);
            let add_flags = if t.opcode == arm64::Opcode::Adds {
                flag_code(rd, rs1)
            } else {
                Seq::empty()
            };
            let sub_flags = if t.opcode == arm64::Opcode::Subs {
                flag_code(rd, rs1) + seq![carry_complement()]
            } else {
                Seq::empty()
            };
            &&& t.imm_temp_rsg == Some(t0)
            &&& !t.iflag
            &&& load.len() == if t.rs2->0->shift is Some {
                2nat
            } else {
                1nat
            }
            &&& load[0] == inst_i(
                Opcode::Lui,
                t0,
                Register::X(riscv::ZERO),
                Immediate::Number(imm_number(t.rs2->0->imm)),
            )
            &&& t.add_code() == load + seq![inst_r(add_opcode(false, t.wflag), rd, rs1, t0)]
                + add_flags
            &&& t.sub_code() == load + seq![inst_r(sub_opcode(false, t.wflag), rd, rs1, t0)]
                + sub_flags
        }),
{
    let rd = t.dest_reg()->0;
    let rs1 = source_reg(t.rs1)->0;
    let load = imm_code(t.rs2->0->imm, t.rs2->0->shift);
    let main_add = seq![inst_r(add_opcode(false, t.wflag), rd, rs1, Register::X(riscv::T0))];
    let main_sub = seq![inst_r(sub_opcode(false, t.wflag), rd, rs1, Register::X(riscv::T0))];
    assert(load + main_add + Seq::<Instruction>::empty() =~= load + main_add);
    assert(load + main_sub + Seq::<Instruction>::empty() =~= load + main_sub);
    assert(load + main_sub + (flag_code(rd, rs1) + seq![carry_complement()]) =~= load + main_sub
        + flag_code(rd, rs1) + seq![carry_complement()]);
}

/// `adds` emits what `add` emits for the same operands and then exactly
/// three instructions more: the zero, negative and carry flags.
pub proof fn lemma_adds_appends_three(t: Arm64Translator)
    requires
        t.arith_ready(),
        t.opcode == arm64::Opcode::Adds,
    ensures
        ({
            let plain = Arm64Translator { opcode: arm64::Opcode::Add, ..t };
            let flags = flag_code(t.dest_reg()->0, source_reg(t.rs1)->0);
            &&& t.add_code() == plain.add_code() + flags
            &&& flags.len() == 3
            &&& t.add_code().len() == plain.add_code().len() + 3
        }),
{
}

/// `subs` emits what `sub` emits for the same operands and then exactly
/// four instructions more: the zero, negative and carry flags and the
/// complement of the carry.
pub proof fn lemma_subs_appends_four(t: Arm64Translator)
    requires
        t.sub_ready(),
        t.opcode == arm64::Opcode::Subs,
    ensures
        ({
            let plain = Arm64Translator { opcode: arm64::Opcode::Sub, ..t };
            let flags = flag_code(t.dest_reg()->0, source_reg(t.rs1)->0) + seq![carry_complement()];
            &&& t.sub_code() == plain.sub_code() + flags
            &&& flags.len() == 4
            &&& t.sub_code().len() == plain.sub_code().len() + 4
        }),
{
    let plain = Arm64Translator { opcode: arm64::Opcode::Sub, ..t };
    let rd = t.dest_reg()->0;
    let rs1 = source_reg(t.rs1)->0;
    assert(plain.sub_code() + flag_code(rd, rs1) + seq![carry_complement()] =~= plain.sub_code()
        + (flag_code(rd, rs1) + seq![carry_complement()]));
}

} // verus!
