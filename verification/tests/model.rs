use arm2riscv::arm64;
use arm2riscv::arm64::{Extend, General, Regoperand, Shift, Special};
use arm2riscv::inst::Immediate;
use arm2riscv::riscv;
use arm2riscv::riscv::{Instruction, Opcode, Operands, Register};

#[test]
fn abi_names_of_integer_registers() {
    let names = [
        "zero", "ra", "sp", "gp", "tp", "t0", "t1", "t2", "s0", "s1", "a0", "a1", "a2", "a3", "a4",
        "a5", "a6", "a7", "s2", "s3", "s4", "s5", "s6", "s7", "s8", "s9", "s10", "s11", "t3", "t4",
        "t5", "t6",
    ];
    for (n, name) in names.iter().enumerate() {
        assert_eq!(Register::X(n as u8).abi_name(), *name);
    }
}

#[test]
fn abi_names_of_float_registers() {
    let names = [
        "ft0", "ft1", "ft2", "ft3", "ft4", "ft5", "ft6", "ft7", "fs0", "fs1", "fa0", "fa1", "fa2",
        "fa3", "fa4", "fa5", "fa6", "fa7", "fs2", "fs3", "fs4", "fs5", "fs6", "fs7", "fs8", "fs9",
        "fs10", "fs11", "ft8", "ft9", "ft10", "ft11",
    ];
    for (n, name) in names.iter().enumerate() {
        assert_eq!(Register::F(n as u8).abi_name(), *name);
    }
    assert_eq!(Register::PC.abi_name(), "pc");
}

#[test]
fn named_register_indices() {
    assert_eq!(Register::X(riscv::ZERO).abi_name(), "zero");
    assert_eq!(Register::X(riscv::RA).abi_name(), "ra");
    assert_eq!(Register::X(riscv::FP).abi_name(), "s0");
    assert_eq!(Register::X(riscv::T0).abi_name(), "t0");
    assert_eq!(Register::X(riscv::T1).abi_name(), "t1");
    assert_eq!(Register::X(riscv::T2).abi_name(), "t2");
    assert_eq!(Register::X(riscv::T3).abi_name(), "t3");
    assert_eq!(Register::X(riscv::T4).abi_name(), "t4");
    assert_eq!(Register::X(riscv::T5).abi_name(), "t5");
    assert_eq!(Register::X(riscv::T6).abi_name(), "t6");
}

#[test]
fn immediate_forms_of_opcodes() {
    let pairs = [
        (Opcode::Add, Opcode::Addi),
        (Opcode::Addw, Opcode::Addiw),
        (Opcode::Xor, Opcode::Xori),
        (Opcode::And, Opcode::Andi),
        (Opcode::Or, Opcode::Ori),
        (Opcode::Slt, Opcode::Slti),
        (Opcode::Sltu, Opcode::Sltiu),
        (Opcode::Sra, Opcode::Srai),
        (Opcode::Srl, Opcode::Srli),
        (Opcode::Sll, Opcode::Slli),
        (Opcode::Sraw, Opcode::Sraiw),
        (Opcode::Srlw, Opcode::Srliw),
        (Opcode::Sllw, Opcode::Slliw),
    ];
    for (register_form, immediate_form) in pairs {
        assert_eq!(register_form.to_imm(), immediate_form);
        assert_eq!(immediate_form.to_imm(), immediate_form);
    }
    assert_eq!(Opcode::Sub.to_imm(), Opcode::Sub);
    assert_eq!(Opcode::Mul.to_imm(), Opcode::Mul);
    assert_eq!(Opcode::Jal.to_imm(), Opcode::Jal);
}

#[test]
fn constructors_pick_the_operand_shape() {
    let a = Register::X(1);
    let b = Register::X(2);
    let c = Register::F(3);
    let five = || riscv::Immediate::Number(5);
    assert_eq!(
        Instruction::new_r(Opcode::Add, a, b, c),
        Instruction { opcode: Opcode::Add, operands: Operands::R { rd: a, rs1: b, rs2: c } }
    );
    assert_eq!(
        Instruction::new_i(Opcode::Addi, a, b, five()),
        Instruction { opcode: Opcode::Addi, operands: Operands::I { rd: a, rs1: b, imm: five() } }
    );
    assert_eq!(
        Instruction::new_s(Opcode::Sd, a, b, five()),
        Instruction { opcode: Opcode::Sd, operands: Operands::S { rs1: a, rs2: b, imm: five() } }
    );
    assert_eq!(
        Instruction::new_u(Opcode::Lui, a, five()),
        Instruction { opcode: Opcode::Lui, operands: Operands::U { rd: a, imm: five() } }
    );
    assert_eq!(
        Instruction::new_ret(),
        Instruction { opcode: Opcode::Ret, operands: Operands::Nop }
    );
    assert_eq!(
        Instruction::new_nop(),
        Instruction { opcode: Opcode::Nop, operands: Operands::Nop }
    );
    assert_eq!(
        Instruction::new_label(Opcode::J, String::from("end")),
        Instruction { opcode: Opcode::J, operands: Operands::Label(String::from("end")) }
    );
}

#[test]
fn clones_are_equal() {
    let inst = Instruction::new_i(
        Opcode::Lui,
        Register::X(3),
        Register::X(0),
        riscv::Immediate::Label(String::from("target")),
    );
    assert_eq!(inst.clone(), inst);
    let operand = arm64::Operand::Label(String::from("target"));
    assert_eq!(operand.clone(), operand);
    let operand = arm64::Operand::Imm { imm: 7, shift: Some((1, Shift::Ror)) };
    assert_eq!(operand.clone(), operand);
}

#[test]
fn word_and_single_precision_registers() {
    let of = |ty: General| arm64::Register::General { ty, n: 3 };
    assert!(of(General::W).is_word());
    assert!(!of(General::W).is_fword());
    assert!(of(General::S).is_fword());
    assert!(!of(General::S).is_word());
    for ty in [General::X, General::B, General::H, General::D, General::Q] {
        assert!(!of(ty).is_word());
        assert!(!of(ty).is_fword());
    }
    for special in [Special::Xzr, Special::Wzr, Special::SP, Special::LR] {
        assert!(!arm64::Register::Special(special).is_word());
        assert!(!arm64::Register::Special(special).is_fword());
    }
}

#[test]
fn register_operands_go_by_their_register() {
    let word = arm64::Register::General { ty: General::W, n: 1 };
    let single = arm64::Register::General { ty: General::S, n: 1 };
    assert!(Regoperand::Reg(word).is_word());
    assert!(Regoperand::ShiftReg(word, (2, Shift::Lsl)).is_word());
    assert!(Regoperand::ExtendReg(word, (2, Extend::Uxtw)).is_word());
    assert!(!Regoperand::Reg(single).is_word());
    assert!(Regoperand::Reg(single).is_fword());
    assert!(Regoperand::ShiftReg(single, (2, Shift::Lsl)).is_fword());
    assert!(Regoperand::ExtendReg(single, (2, Extend::Uxtw)).is_fword());
    assert!(!Regoperand::ExtendReg(word, (2, Extend::Uxtw)).is_fword());
}

#[test]
fn neutral_immediate_holds_its_value() {
    let imm = Immediate::new(u64::MAX);
    assert_eq!(format!("{:?}", imm), format!("Immediate({})", u64::MAX));
}
