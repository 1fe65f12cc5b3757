use arm2riscv::arm64;
use arm2riscv::arm64::{Extend, General, Operand, Regoperand, Shift, Special};
use arm2riscv::riscv;
use arm2riscv::riscv::{Immediate, Instruction, Opcode, Register};
use arm2riscv::translate::{
    basic_arm2riscv_reg_map, check_imm, checked_reg_map, checked_shift_opcode, emit_extend_reg,
    emit_set_flag, emit_set_nz_flag, emit_shift_or_extend, emit_shift_reg, imm_supported,
    instruction_supported, operand_supported, Arm64Translator,
};
use either::Either;

fn x(n: u8) -> arm64::Register {
    arm64::Register::General { ty: General::X, n }
}

fn w(n: u8) -> arm64::Register {
    arm64::Register::General { ty: General::W, n }
}

fn reg(r: arm64::Register) -> Operand {
    Operand::Reg(Regoperand::Reg(r))
}

fn imm(value: u16) -> Operand {
    Operand::Imm { imm: value, shift: None }
}

fn context(opcode: arm64::Opcode, operand: Vec<Operand>) -> Arm64Translator {
    Arm64Translator::new(arm64::Instruction { opcode, operand })
}

fn zero() -> Register {
    Register::X(riscv::ZERO)
}

fn t0() -> Register {
    Register::X(riscv::T0)
}

fn flags(rd: Register, rs1: Register) -> Vec<Instruction> {
    vec![
        Instruction::new_i(Opcode::Sltiu, Register::X(riscv::T3), rd, Immediate::Number(1)),
        Instruction::new_r(Opcode::Slt, Register::X(riscv::T4), rd, zero()),
        Instruction::new_r(Opcode::Sltu, Register::X(riscv::T5), rd, rs1),
    ]
}

fn carry_complement() -> Instruction {
    Instruction::new_i(
        Opcode::Xori,
        Register::X(riscv::T5),
        Register::X(riscv::T5),
        Immediate::Number(1),
    )
}

#[test]
fn add_immediate_in_range() {
    let t = context(arm64::Opcode::Add, vec![reg(x(0)), reg(x(1)), imm(5)]);
    assert!(t.iflag);
    assert!(!t.wflag);
    assert_eq!(t.imm_temp_rsg, None);
    assert!(t.riscv_inst.is_empty());
    let mut res = Vec::new();
    t.add(&mut res);
    assert_eq!(
        res,
        vec![Instruction::new_i(Opcode::Addi, Register::X(0), Register::X(1), Immediate::Number(5))]
    );
}

#[test]
fn add_immediate_out_of_range() {
    let t = context(arm64::Opcode::Add, vec![reg(x(0)), reg(x(1)), imm(5000)]);
    assert!(!t.iflag);
    assert_eq!(t.imm_temp_rsg, Some(t0()));
    let mut res = Vec::new();
    t.add(&mut res);
    assert_eq!(
        res,
        vec![
            Instruction::new_i(Opcode::Lui, t0(), zero(), Immediate::Number(5000)),
            Instruction::new_r(Opcode::Add, Register::X(0), Register::X(1), t0()),
        ]
    );
}

#[test]
fn add_immediate_just_over_twelve_signed_bits() {
    let t = context(arm64::Opcode::Add, vec![reg(x(0)), reg(x(1)), imm(3000)]);
    assert!(!t.iflag);
    let mut res = vec![Instruction::new_nop()];
    t.add(&mut res);
    assert_eq!(
        res,
        vec![
            Instruction::new_nop(),
            Instruction::new_i(Opcode::Lui, t0(), zero(), Immediate::Number(3000)),
            Instruction::new_r(Opcode::Add, Register::X(0), Register::X(1), t0()),
        ]
    );
}

#[test]
fn adds_large_immediate_loads_then_adds_then_sets_flags() {
    let third = Operand::Imm { imm: 0x8000, shift: Some((4, Shift::Lsr)) };
    let t = context(arm64::Opcode::Adds, vec![reg(w(0)), reg(w(1)), third]);
    let mut res = Vec::new();
    t.add(&mut res);
    let mut expected = vec![
        Instruction::new_i(Opcode::Lui, t0(), zero(), Immediate::Number(i16::MIN)),
        Instruction::new_i(Opcode::Srli, t0(), t0(), Immediate::Number(4)),
        Instruction::new_r(Opcode::Addw, Register::X(0), Register::X(1), t0()),
    ];
    expected.extend(flags(Register::X(0), Register::X(1)));
    assert_eq!(res, expected);
}

#[test]
fn add_immediate_at_the_boundary() {
    let fits = context(arm64::Opcode::Add, vec![reg(x(0)), reg(x(1)), imm(2047)]);
    assert!(fits.iflag);
    assert!(fits.riscv_inst.is_empty());
    let mut res = Vec::new();
    fits.add(&mut res);
    assert_eq!(
        res,
        vec![Instruction::new_i(
            Opcode::Addi,
            Register::X(0),
            Register::X(1),
            Immediate::Number(2047)
        )]
    );

    let large = context(arm64::Opcode::Add, vec![reg(x(0)), reg(x(1)), imm(2048)]);
    assert!(!large.iflag);
    assert_eq!(large.imm_temp_rsg, Some(t0()));
    assert_eq!(
        large.riscv_inst,
        vec![Instruction::new_i(Opcode::Lui, t0(), zero(), Immediate::Number(2048))]
    );
    let mut res = Vec::new();
    large.add(&mut res);
    assert_eq!(
        res,
        vec![
            Instruction::new_i(Opcode::Lui, t0(), zero(), Immediate::Number(2048)),
            Instruction::new_r(Opcode::Add, Register::X(0), Register::X(1), t0()),
        ]
    );
}

#[test]
fn add_shifted_register() {
    let shifted = Operand::Reg(Regoperand::ShiftReg(x(2), (3, Shift::Lsl)));
    let t = context(arm64::Opcode::Add, vec![reg(x(0)), reg(x(1)), shifted]);
    let mut res = Vec::new();
    t.add(&mut res);
    assert_eq!(
        res,
        vec![
            Instruction::new_i(Opcode::Slli, Register::X(2), Register::X(2), Immediate::Number(3)),
            Instruction::new_r(Opcode::Add, Register::X(0), Register::X(1), Register::X(2)),
        ]
    );
}

#[test]
fn add_word_registers() {
    let t = context(arm64::Opcode::Add, vec![reg(w(3)), reg(w(4)), reg(w(5))]);
    assert!(t.wflag);
    assert!(!t.fp_wflag);
    let mut res = Vec::new();
    t.add(&mut res);
    assert_eq!(
        res,
        vec![Instruction::new_r(Opcode::Addw, Register::X(3), Register::X(4), Register::X(5))]
    );
}

#[test]
fn add_word_registers_with_immediate() {
    let t = context(arm64::Opcode::Add, vec![reg(w(3)), reg(w(4)), imm(7)]);
    assert!(t.iflag);
    assert!(t.wflag);
    let mut res = Vec::new();
    t.add(&mut res);
    assert_eq!(
        res,
        vec![Instruction::new_i(Opcode::Addiw, Register::X(3), Register::X(4), Immediate::Number(7))]
    );
}

#[test]
fn adds_appends_three_flag_instructions() {
    let plain = context(arm64::Opcode::Add, vec![reg(x(0)), reg(x(1)), reg(x(2))]);
    let setting = context(arm64::Opcode::Adds, vec![reg(x(0)), reg(x(1)), reg(x(2))]);
    let mut core = Vec::new();
    plain.add(&mut core);
    let mut res = Vec::new();
    setting.add(&mut res);
    assert_eq!(res.len(), core.len() + 3);
    assert_eq!(res[..core.len()], core[..]);
    assert_eq!(res[core.len()..], flags(Register::X(0), Register::X(1))[..]);
}

#[test]
fn adds_with_immediate_sets_flags() {
    let t = context(arm64::Opcode::Adds, vec![reg(x(0)), reg(x(1)), imm(9)]);
    let mut res = Vec::new();
    t.add(&mut res);
    let mut expected =
        vec![Instruction::new_i(Opcode::Addi, Register::X(0), Register::X(1), Immediate::Number(9))];
    expected.extend(flags(Register::X(0), Register::X(1)));
    assert_eq!(res, expected);
}

#[test]
fn subs_word_registers() {
    let t = context(arm64::Opcode::Subs, vec![reg(w(0)), reg(w(1)), reg(w(2))]);
    let mut res = Vec::new();
    t.sub(&mut res);
    let mut expected =
        vec![Instruction::new_r(Opcode::Subw, Register::X(0), Register::X(1), Register::X(2))];
    expected.extend(flags(Register::X(0), Register::X(1)));
    expected.push(carry_complement());
    assert_eq!(res, expected);
    assert_eq!(res.len(), 1 + 4);
}

#[test]
fn subs_with_immediate_sets_flags() {
    let t = context(arm64::Opcode::Subs, vec![reg(x(0)), reg(x(1)), imm(4)]);
    let mut res = Vec::new();
    t.sub(&mut res);
    let mut expected = vec![Instruction::new_i(
        Opcode::Addi,
        Register::X(0),
        Register::X(1),
        Immediate::Number(-4),
    )];
    expected.extend(flags(Register::X(0), Register::X(1)));
    expected.push(carry_complement());
    assert_eq!(res, expected);
}

#[test]
fn sub_immediate_is_add_of_negation() {
    let t = context(arm64::Opcode::Sub, vec![reg(x(7)), reg(x(8)), imm(100)]);
    let mut res = Vec::new();
    t.sub(&mut res);
    assert_eq!(
        res,
        vec![Instruction::new_i(
            Opcode::Addi,
            Register::X(7),
            Register::X(8),
            Immediate::Number(-100)
        )]
    );
}

#[test]
fn sub_large_immediate_uses_scratch() {
    let third = Operand::Imm { imm: 0x2000, shift: Some((12, Shift::Lsl)) };
    let t = context(arm64::Opcode::Sub, vec![reg(x(0)), reg(x(1)), third]);
    assert_eq!(
        t.riscv_inst,
        vec![
            Instruction::new_i(Opcode::Lui, t0(), zero(), Immediate::Number(0x2000)),
            Instruction::new_i(Opcode::Slli, t0(), t0(), Immediate::Number(12)),
        ]
    );
    let mut res = Vec::new();
    t.sub(&mut res);
    assert_eq!(
        res,
        vec![
            Instruction::new_i(Opcode::Lui, t0(), zero(), Immediate::Number(0x2000)),
            Instruction::new_i(Opcode::Slli, t0(), t0(), Immediate::Number(12)),
            Instruction::new_r(Opcode::Sub, Register::X(0), Register::X(1), t0()),
        ]
    );
}

#[test]
fn subs_large_immediate_sets_flags_after_the_subtraction() {
    let t = context(arm64::Opcode::Subs, vec![reg(x(0)), reg(x(1)), imm(2048)]);
    let mut res = Vec::new();
    t.sub(&mut res);
    let mut expected = vec![
        Instruction::new_i(Opcode::Lui, t0(), zero(), Immediate::Number(2048)),
        Instruction::new_r(Opcode::Sub, Register::X(0), Register::X(1), t0()),
    ];
    expected.extend(flags(Register::X(0), Register::X(1)));
    expected.push(carry_complement());
    assert_eq!(res, expected);
}

#[test]
fn translating_twice_gives_the_same_output() {
    let operands = || {
        vec![reg(x(0)), reg(x(1)), Operand::Reg(Regoperand::ExtendReg(w(2), (2, Extend::Sxtw)))]
    };
    let first = context(arm64::Opcode::Subs, operands());
    let second = context(arm64::Opcode::Subs, operands());
    let mut a = Vec::new();
    first.sub(&mut a);
    let mut b = Vec::new();
    second.sub(&mut b);
    assert_eq!(a, b);
    let mut again = Vec::new();
    first.sub(&mut again);
    assert_eq!(a, again);

    let large = || vec![reg(x(0)), reg(x(1)), Operand::Imm { imm: 9000, shift: Some((1, Shift::Lsl)) }];
    let first = context(arm64::Opcode::Add, large());
    let second = context(arm64::Opcode::Add, large());
    let mut a = Vec::new();
    first.add(&mut a);
    let mut b = Vec::new();
    second.add(&mut b);
    assert_eq!(a, b);
    assert_eq!(a.len(), 3);
}

#[test]
fn rules_append_after_what_is_there() {
    let t = context(arm64::Opcode::Mul, vec![reg(x(0)), reg(x(1)), reg(x(2))]);
    let mut res = vec![Instruction::new_nop()];
    t.mul(&mut res);
    assert_eq!(
        res,
        vec![
            Instruction::new_nop(),
            Instruction::new_r(Opcode::Mul, Register::X(0), Register::X(1), Register::X(2)),
        ]
    );
}

#[test]
fn mov_from_label() {
    let t = context(
        arm64::Opcode::Mov,
        vec![reg(x(0)), Operand::Label(String::from("my_label"))],
    );
    let mut res = Vec::new();
    t.mov(&mut res);
    assert_eq!(
        res,
        vec![Instruction::new_i(
            Opcode::Lui,
            Register::X(0),
            zero(),
            Immediate::Label(String::from("my_label"))
        )]
    );
}

#[test]
fn mov_from_register_and_immediate() {
    let t = context(arm64::Opcode::Mov, vec![reg(x(3)), reg(x(4))]);
    let mut res = Vec::new();
    t.mov(&mut res);
    assert_eq!(res, vec![Instruction::new_r(Opcode::Add, Register::X(3), zero(), Register::X(4))]);

    let t = context(arm64::Opcode::Mov, vec![reg(x(3)), imm(42)]);
    let mut res = Vec::new();
    t.mov(&mut res);
    assert_eq!(res, vec![Instruction::new_i(Opcode::Addi, Register::X(3), zero(), Immediate::Number(42))]);
}

#[test]
fn mov_immediate_keeps_the_bit_pattern() {
    let t = context(arm64::Opcode::Mov, vec![reg(x(3)), imm(0xFFFF)]);
    let mut res = Vec::new();
    t.mov(&mut res);
    assert_eq!(res, vec![Instruction::new_i(Opcode::Addi, Register::X(3), zero(), Immediate::Number(-1))]);

    let t = context(arm64::Opcode::Mov, vec![reg(x(3)), imm(0x8000)]);
    let mut res = Vec::new();
    t.mov(&mut res);
    assert_eq!(
        res,
        vec![Instruction::new_i(Opcode::Addi, Register::X(3), zero(), Immediate::Number(i16::MIN))]
    );
}

#[test]
fn mov_from_extended_register() {
    let source = Operand::Reg(Regoperand::ExtendReg(w(4), (2, Extend::Uxtw)));
    let t = context(arm64::Opcode::Mov, vec![reg(x(3)), source]);
    let mut res = Vec::new();
    t.mov(&mut res);
    assert_eq!(
        res,
        vec![
            Instruction::new_i(Opcode::Andi, Register::X(4), Register::X(4), Immediate::Number(0xff)),
            Instruction::new_i(Opcode::Slli, Register::X(4), Register::X(4), Immediate::Number(2)),
            Instruction::new_r(Opcode::Add, Register::X(3), zero(), Register::X(4)),
        ]
    );
}

#[test]
fn mov_not_complements_the_destination() {
    let t = context(arm64::Opcode::Mvn, vec![reg(x(3)), reg(x(4))]);
    let mut res = Vec::new();
    t.mov_not(&mut res);
    assert_eq!(
        res,
        vec![
            Instruction::new_r(Opcode::Add, Register::X(3), zero(), Register::X(4)),
            Instruction::new_i(Opcode::Xori, Register::X(3), Register::X(3), Immediate::Number(-1)),
        ]
    );
}

#[test]
fn mov_zero_is_the_plain_move() {
    let t = context(arm64::Opcode::Mov, vec![reg(x(3)), imm(1)]);
    let mut plain = Vec::new();
    t.mov(&mut plain);
    let mut res = Vec::new();
    t.mov_zero(&mut res);
    assert_eq!(res, plain);
}

#[test]
fn multiply_and_divide() {
    let t = context(arm64::Opcode::Mul, vec![reg(x(0)), reg(x(1)), reg(x(2)), reg(x(3))]);
    let mut res = Vec::new();
    t.mul(&mut res);
    t.sdiv(&mut res);
    t.udiv(&mut res);
    t.madd(&mut res);
    assert_eq!(
        res,
        vec![
            Instruction::new_r(Opcode::Mul, Register::X(0), Register::X(1), Register::X(2)),
            Instruction::new_r(Opcode::Div, Register::X(0), Register::X(1), Register::X(2)),
            Instruction::new_r(Opcode::Divu, Register::X(0), Register::X(1), Register::X(2)),
            Instruction::new_r(Opcode::Mul, Register::X(0), Register::X(1), Register::X(2)),
            Instruction::new_r(Opcode::Add, Register::X(0), Register::X(0), Register::X(3)),
        ]
    );
}

#[test]
fn branch_jumps_to_the_label() {
    let t = context(arm64::Opcode::B, vec![Operand::Label(String::from("loop_head"))]);
    assert_eq!(t.label, Some(String::from("loop_head")));
    assert_eq!(t.rd, None);
    let mut res = Vec::new();
    t.branch(&mut res);
    assert_eq!(
        res,
        vec![Instruction::new_u(Opcode::Jal, zero(), Immediate::Label(String::from("loop_head")))]
    );
}

#[test]
fn shift_by_immediate_and_by_register() {
    let t = context(arm64::Opcode::Lsl, vec![reg(x(0)), reg(x(1)), imm(4)]);
    let mut res = Vec::new();
    t.shift(&mut res);
    assert_eq!(res, vec![Instruction::new_i(Opcode::Slli, Register::X(0), Register::X(1), Immediate::Number(4))]);

    let t = context(arm64::Opcode::Lsr, vec![reg(x(0)), reg(x(1)), reg(x(2))]);
    let mut res = Vec::new();
    t.shift(&mut res);
    assert_eq!(res, vec![Instruction::new_r(Opcode::Srl, Register::X(0), Register::X(1), Register::X(2))]);

    let t = context(arm64::Opcode::Asr, vec![reg(x(0)), reg(x(1)), imm(63)]);
    let mut res = Vec::new();
    t.shift(&mut res);
    assert_eq!(res, vec![Instruction::new_i(Opcode::Srai, Register::X(0), Register::X(1), Immediate::Number(63))]);
}

#[test]
fn context_splits_operands_by_position() {
    let t = context(arm64::Opcode::Umaddl, vec![reg(x(0)), reg(w(1)), reg(w(2)), reg(x(3))]);
    assert_eq!(t.opcode, arm64::Opcode::Umaddl);
    assert_eq!(t.rd, Some(Regoperand::Reg(x(0))));
    assert_eq!(t.rs1, Some(reg(w(1))));
    assert_eq!(t.rs2, Some(reg(w(2))));
    assert_eq!(t.rs3, Some(reg(x(3))));
    assert_eq!(t.label, None);
    assert!(!t.iflag);
    assert!(!t.wflag);
    assert_eq!(t.inst.operand.len(), 4);
}

#[test]
fn context_of_no_operands() {
    let t = context(arm64::Opcode::Nop, vec![]);
    assert_eq!(t.rd, None);
    assert_eq!(t.rs1, None);
    assert_eq!(t.rs2, None);
    assert_eq!(t.rs3, None);
    assert!(!t.iflag);
    assert!(t.wflag);
    assert!(t.fp_wflag);
}

#[test]
fn single_precision_flag() {
    let s = |n: u8| reg(arm64::Register::General { ty: General::S, n });
    let t = context(arm64::Opcode::Fadd, vec![s(0), s(1), s(2)]);
    assert!(t.fp_wflag);
    assert!(!t.wflag);
    let d = reg(arm64::Register::General { ty: General::D, n: 2 });
    let t = context(arm64::Opcode::Fadd, vec![s(0), s(1), d]);
    assert!(!t.fp_wflag);
}

#[test]
fn register_map_covers_the_supported_registers() {
    for n in 0..=31u8 {
        assert_eq!(basic_arm2riscv_reg_map(&x(n)), Register::X(n));
        assert_eq!(basic_arm2riscv_reg_map(&w(n)), Register::X(n));
        let s = arm64::Register::General { ty: General::S, n };
        let d = arm64::Register::General { ty: General::D, n };
        assert_eq!(basic_arm2riscv_reg_map(&s), Register::F(n));
        assert_eq!(basic_arm2riscv_reg_map(&d), Register::F(n));
    }
    assert_eq!(basic_arm2riscv_reg_map(&arm64::Register::Special(Special::Xzr)), Register::X(0));
    assert_eq!(basic_arm2riscv_reg_map(&arm64::Register::Special(Special::Wzr)), Register::X(0));
    assert_eq!(basic_arm2riscv_reg_map(&arm64::Register::Special(Special::SP)), Register::X(8));
    assert_eq!(basic_arm2riscv_reg_map(&arm64::Register::Special(Special::LR)), Register::X(1));
}

#[test]
fn check_imm_leaves_a_small_immediate() {
    let mut res = vec![Instruction::new_nop()];
    assert_eq!(check_imm(&mut res, 0, None), None);
    assert_eq!(check_imm(&mut res, 2047, Some((3, Shift::Lsl))), None);
    assert_eq!(res, vec![Instruction::new_nop()]);
}

#[test]
fn check_imm_loads_a_large_immediate() {
    let mut res = Vec::new();
    assert_eq!(check_imm(&mut res, 2048, None), Some(t0()));
    assert_eq!(res, vec![Instruction::new_i(Opcode::Lui, t0(), zero(), Immediate::Number(2048))]);

    let mut res = Vec::new();
    assert_eq!(check_imm(&mut res, 4096, None), Some(t0()));
    assert_eq!(res, vec![Instruction::new_i(Opcode::Lui, t0(), zero(), Immediate::Number(4096))]);

    let mut res = Vec::new();
    assert_eq!(check_imm(&mut res, 0xFFFF, Some((1, Shift::Asr))), Some(t0()));
    assert_eq!(
        res,
        vec![
            Instruction::new_i(Opcode::Lui, t0(), zero(), Immediate::Number(-1)),
            Instruction::new_i(Opcode::Srai, t0(), t0(), Immediate::Number(1)),
        ]
    );
}

#[test]
fn shift_kinds() {
    let r = Register::X(9);
    let mut res = Vec::new();
    emit_shift_reg(&mut res, r, (1, Shift::Lsl));
    emit_shift_reg(&mut res, r, (2, Shift::Lsr));
    emit_shift_reg(&mut res, r, (3, Shift::Asr));
    emit_shift_reg(&mut res, r, (255, Shift::Uxtb));
    assert_eq!(
        res,
        vec![
            Instruction::new_i(Opcode::Slli, r, r, Immediate::Number(1)),
            Instruction::new_i(Opcode::Srli, r, r, Immediate::Number(2)),
            Instruction::new_i(Opcode::Srai, r, r, Immediate::Number(3)),
            Instruction::new_i(Opcode::Andi, r, r, Immediate::Number(255)),
        ]
    );
}

#[test]
fn extend_kinds() {
    let r = Register::X(9);
    let unsigned = [Extend::Uxtb, Extend::Uxth, Extend::Uxtw, Extend::Lsl, Extend::Uxtx];
    for kind in unsigned {
        let mut res = Vec::new();
        emit_extend_reg(&mut res, r, (4, kind));
        assert_eq!(
            res,
            vec![
                Instruction::new_i(Opcode::Andi, r, r, Immediate::Number(0xff)),
                Instruction::new_i(Opcode::Slli, r, r, Immediate::Number(4)),
            ]
        );
    }
    let signed = [Extend::Sxtb, Extend::Sxth, Extend::Sxtw, Extend::Sxtx];
    for kind in signed {
        let mut res = Vec::new();
        emit_extend_reg(&mut res, r, (0, kind));
        assert_eq!(
            res,
            vec![
                Instruction::new_i(Opcode::Addiw, r, r, Immediate::Number(0)),
                Instruction::new_i(Opcode::Slli, r, r, Immediate::Number(0)),
            ]
        );
    }
}

#[test]
fn bare_register_needs_no_instruction() {
    let mut res = Vec::new();
    let out = emit_shift_or_extend(&mut res, &Regoperand::Reg(w(11)));
    assert_eq!(out, Register::X(11));
    assert!(res.is_empty());
    let out = emit_shift_or_extend(&mut res, &Regoperand::ShiftReg(x(12), (5, Shift::Lsr)));
    assert_eq!(out, Register::X(12));
    assert_eq!(
        res,
        vec![Instruction::new_i(Opcode::Srli, Register::X(12), Register::X(12), Immediate::Number(5))]
    );
}

#[test]
fn flag_instructions_in_order() {
    let rd = Register::X(10);
    let rs1 = Register::X(11);
    let mut res = Vec::new();
    emit_set_nz_flag(&mut res, rd);
    assert_eq!(res, flags(rd, rs1)[..2].to_vec());

    let mut res = Vec::new();
    emit_set_flag(&mut res, rd, rs1, Either::Left(Register::X(12)));
    assert_eq!(res, flags(rd, rs1));

    let mut other = Vec::new();
    emit_set_flag(&mut other, rd, rs1, Either::Right(Immediate::Number(3)));
    assert_eq!(other, res);
}

#[test]
fn vector_registers_have_no_counterpart() {
    for ty in [General::B, General::H, General::Q] {
        for n in [0u8, 7, 31] {
            assert_eq!(checked_reg_map(&arm64::Register::General { ty, n }), None);
        }
    }
    for n in 0..=31u8 {
        assert_eq!(checked_reg_map(&x(n)), Some(Register::X(n)));
        let d = arm64::Register::General { ty: General::D, n };
        assert_eq!(checked_reg_map(&d), Some(Register::F(n)));
        assert!(checked_reg_map(&d).unwrap().abi_name().starts_with('f'));
    }
    let q = arm64::Register::General { ty: General::Q, n: 1 };
    assert!(!operand_supported(&Regoperand::Reg(q)));
    assert!(!operand_supported(&Regoperand::ExtendReg(q, (0, Extend::Uxtb))));
    assert!(operand_supported(&Regoperand::ExtendReg(x(1), (0, Extend::Uxtb))));
}

#[test]
fn rotate_is_not_supported() {
    assert_eq!(checked_shift_opcode(Shift::Ror), None);
    assert_eq!(checked_shift_opcode(Shift::Lsl), Some(Opcode::Slli));
    assert_eq!(checked_shift_opcode(Shift::Lsr), Some(Opcode::Srli));
    assert_eq!(checked_shift_opcode(Shift::Asr), Some(Opcode::Srai));
    assert_eq!(checked_shift_opcode(Shift::Uxtb), Some(Opcode::Andi));
    assert!(!operand_supported(&Regoperand::ShiftReg(x(1), (1, Shift::Ror))));
    assert!(operand_supported(&Regoperand::ShiftReg(x(1), (1, Shift::Lsl))));
    assert!(!imm_supported(2048, Some((1, Shift::Ror))));
    assert!(imm_supported(2047, Some((1, Shift::Ror))));
    assert!(imm_supported(2048, Some((1, Shift::Asr))));
    assert!(imm_supported(0xFFFF, None));

    let rotated = Operand::Imm { imm: 2048, shift: Some((1, Shift::Ror)) };
    let inst = arm64::Instruction {
        opcode: arm64::Opcode::Add,
        operand: vec![reg(x(0)), reg(x(1)), rotated.clone()],
    };
    assert!(!instruction_supported(&inst));
    let elsewhere =
        arm64::Instruction { opcode: arm64::Opcode::Add, operand: vec![reg(x(0)), rotated] };
    assert!(instruction_supported(&elsewhere));

    let t = context(
        arm64::Opcode::Add,
        vec![reg(x(0)), reg(x(1)), Operand::Reg(Regoperand::ShiftReg(x(2), (1, Shift::Ror)))],
    );
    assert!(!t.rs2_in_reg());
    assert!(!t.arith_ready());
    assert!(!t.sub_ready());
    assert!(!t.shift_ready());
}

#[test]
fn rules_ask_for_their_operands() {
    let none = context(arm64::Opcode::Add, vec![]);
    assert!(!none.arith_ready());
    assert!(!none.sub_ready());
    assert!(!none.three_regs_ready());
    assert!(!none.madd_ready());
    assert!(!none.mov_ready());
    assert!(!none.shift_ready());
    assert_eq!(none.label, None);

    let two = context(arm64::Opcode::Add, vec![reg(x(0)), reg(x(1))]);
    assert!(!two.arith_ready());
    assert!(!two.three_regs_ready());
    assert!(two.mov_ready());

    let three = context(arm64::Opcode::Add, vec![reg(x(0)), reg(x(1)), reg(x(2))]);
    assert!(three.arith_ready());
    assert!(three.sub_ready());
    assert!(three.three_regs_ready());
    assert!(!three.madd_ready());
    assert!(!three.shift_ready());

    let four = context(arm64::Opcode::Lsl, vec![reg(x(0)), reg(x(1)), reg(x(2)), reg(x(3))]);
    assert!(four.madd_ready());
    assert!(four.shift_ready());

    let vector = reg(arm64::Register::General { ty: General::H, n: 0 });
    let t = context(arm64::Opcode::Lsl, vec![vector.clone(), reg(x(1)), reg(x(2))]);
    assert!(!t.arith_ready() && !t.three_regs_ready() && !t.mov_ready() && !t.shift_ready());
    let t = context(arm64::Opcode::Lsl, vec![reg(x(1)), vector.clone(), reg(x(2))]);
    assert!(!t.arith_ready() && !t.three_regs_ready() && !t.mov_ready() && !t.shift_ready());
    let t = context(arm64::Opcode::Lsl, vec![reg(x(1)), reg(x(2)), vector]);
    assert!(!t.arith_ready() && !t.three_regs_ready() && t.mov_ready() && !t.shift_ready());

    let shifted_destination = Operand::Reg(Regoperand::ShiftReg(x(0), (1, Shift::Lsl)));
    let t = context(arm64::Opcode::Add, vec![shifted_destination, reg(x(1)), reg(x(2))]);
    assert!(!t.arith_ready() && !t.mov_ready());

    let memory = Operand::Addressing(arm64::Addressing::BaseRegister(x(1)));
    let t = context(arm64::Opcode::Mov, vec![reg(x(0)), memory.clone(), memory]);
    assert!(!t.mov_ready() && !t.arith_ready() && !t.shift_ready());
}

#[test]
fn immediate_elsewhere_than_third_is_not_an_add() {
    let t = context(arm64::Opcode::Add, vec![reg(x(0)), reg(x(1)), reg(x(2)), imm(1)]);
    assert!(t.iflag);
    assert!(!t.arith_ready());
    assert!(t.three_regs_ready());
}

#[test]
fn subtracting_the_least_number() {
    let mut t = context(arm64::Opcode::Sub, vec![reg(x(0)), reg(x(1)), imm(1)]);
    assert!(t.sub_ready());
    t.rs2 = Some(imm(0x8000));
    assert!(t.arith_ready());
    assert!(!t.sub_ready());
    t.rs2 = Some(imm(0x8001));
    assert!(t.sub_ready());
    let mut res = Vec::new();
    t.sub(&mut res);
    assert_eq!(
        res,
        vec![Instruction::new_i(
            Opcode::Addi,
            Register::X(0),
            Register::X(1),
            Immediate::Number(i16::MAX)
        )]
    );
}

#[test]
fn shift_needs_a_shift_opcode() {
    for opcode in [arm64::Opcode::Add, arm64::Opcode::Mov, arm64::Opcode::Nop] {
        let t = context(opcode, vec![reg(x(0)), reg(x(1)), imm(4)]);
        assert!(!t.shift_ready());
    }
    for opcode in [arm64::Opcode::Lsl, arm64::Opcode::Lsr, arm64::Opcode::Asr] {
        let t = context(opcode, vec![reg(x(0)), reg(x(1)), imm(4)]);
        assert!(t.shift_ready());
    }
}
