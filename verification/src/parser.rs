//! The syntax tree of a line of ARM64 assembly, and the grammar rules that
//! read its parts from text.
//!
//! A rule reads from the start of its text and stops where the part ends:
//! what follows is not its concern. Between two tokens of a rule any number
//! of blanks may stand.

use crate::error::ArmParserError;
use crate::opcode::Opcode;
use crate::register::{lemma_register_grows, parse_register, register_at, Register};
use crate::text::{blank_end, char_at, chars_of, has_char, lemma_blank_end_bounds, skip_blank};
use crate::text::{has_literal, hex_digit_at, is_digit, is_hex_digit, literal_at, digit_at};
use crate::text::{name_end, number_end, number_value, scan_name, scan_number, MAX_MAGNITUDE};
use vstd::prelude::*;

verus! {

#[derive(Debug, Clone, Copy, PartialEq, Eq, Structural)]
pub enum ShiftType {
    /// Logical shift left.
    LSL,
    /// Logical shift right.
    LSR,
    /// Arithmetic shift right.
    ASR,
    /// Rotate right.
    ROR,
    /// Rotate right with extend.
    RRX,
}

#[derive(Debug, Clone, Copy, PartialEq, Eq, Structural)]
pub struct Immediate(pub i64);

#[derive(Debug, Clone, Copy, PartialEq, Eq)]
pub enum ShiftAmount {
    Immediate(Immediate),
    Register(Register),
}

#[derive(Debug, Clone, Copy, PartialEq, Eq)]
pub struct ShiftedRegister {
    pub reg: Register,
    pub shift_type: ShiftType,
    /// By how much to shift: a constant or the content of a register.
    pub shift_amount: Option<ShiftAmount>,
}

#[derive(Debug, Clone, PartialEq)]
pub struct RegisterList {
    pub regs: Vec<Register>,
}

#[derive(Debug, Clone, Copy, PartialEq, Eq, Structural)]
pub struct RegisterRange {
    pub start: Register,
    pub end: Register,
}

/// A load through the procedure linkage: `:mode:target`.
#[derive(Debug, Clone, PartialEq)]
pub struct ProcLoad {
    pub mode: String,
    pub target: String,
}

#[derive(Debug, Clone, PartialEq)]
pub enum Offset {
    Immediate(Immediate),
    Register(Register),
    ShiftedRegister(ShiftedRegister),
    ProcLoad(ProcLoad),
}

/// A memory operand `[base, offset]`, with `!` for write-back.
#[derive(Debug, Clone, PartialEq)]
pub struct Indirect {
    pub base: Register,
    pub offset: Option<Offset>,
    pub writeback: bool,
}

#[derive(Debug, Clone, PartialEq)]
pub enum Operand {
    Register(Register),
    Immediate(Immediate),
    Address(Immediate),
    LabelTarget(String),
    Indirect(Indirect),
    RegisterList(RegisterList),
    ShiftedRegister(ShiftedRegister),
    ProcLoad(ProcLoad),
}

#[derive(Debug, Clone, PartialEq)]
pub struct Instruction {
    pub opcode: Opcode,
    pub operands: Vec<Operand>,
}

#[derive(Debug, Clone, PartialEq)]
pub enum Line {
    Label(String),
    Directive(String),
    Instruction(Instruction),
}

/// The registers of the type of `start`, numbered from `start` up to `end`.
/// None if `end` has the lower number.
pub open spec fn range_regs(start: Register, end: Register) -> Seq<Register> {
    Seq::new(
        if start.reg_num <= end.reg_num {
            (end.reg_num - start.reg_num + 1) as nat
        } else {
            0
        },
        |i: int| Register { reg_type: start.reg_type, reg_num: (start.reg_num + i) as u8 },
    )
}

impl RegisterRange {
    /// The registers of the range, lowest first. The two ends must be of
    /// one type.
    pub open spec fn spec_to_reg_list(&self) -> Result<Seq<Register>, ArmParserError> {
        if self.start.reg_type != self.end.reg_type {
            Err(ArmParserError::InvalidRegisterRange)
        } else {
            Ok(range_regs(self.start, self.end))
        }
    }

    /// Lists the registers of the range, lowest first.
    pub fn to_reg_list(&self) -> (res: Result<RegisterList, ArmParserError>)
        ensures
            match res {
                Ok(list) => self.spec_to_reg_list() == Ok::<_, ArmParserError>(list.regs@),
                Err(e) => self.spec_to_reg_list() == Err::<Seq<Register>, _>(e),
            },
    {
        if self.start.reg_type != self.end.reg_type {
            return Err(ArmParserError::InvalidRegisterRange);
        }
        let reg_type = self.start.reg_type;
        let mut registers: Vec<Register> = Vec::new();
        if self.start.reg_num <= self.end.reg_num {
            let mut i = self.start.reg_num;
            registers.push(Register::new(reg_type, i));
            while i < self.end.reg_num
                invariant
                    self.start.reg_num <= i <= self.end.reg_num,
                    reg_type == self.start.reg_type,
                    registers@.len() == i - self.start.reg_num + 1,
                    forall|j: int|
                        0 <= j < registers@.len() ==> registers@[j] == (Register {
                            reg_type,
                            reg_num: (self.start.reg_num + j) as u8,
                        }),
                decreases self.end.reg_num - i,
            {
                i += 1;
                registers.push(Register::new(reg_type, i));
            }
        }
        assert(registers@ =~= range_regs(self.start, self.end));
        Ok(RegisterList { regs: registers })
    }
}

/// A register range `start - end` at `pos`, with where it ends.
pub open spec fn range_at(s: Seq<char>, pos: int) -> Option<(RegisterRange, int)> {
    match register_at(s, pos) {
        Some((start, p)) => {
            let dash = blank_end(s, p);
            if has_char(s, dash, '-') {
                match register_at(s, blank_end(s, dash + 1)) {
                    Some((end, q)) => Some((RegisterRange { start, end }, q)),
                    None => None,
                }
            } else {
                None
            }
        },
        None => None,
    }
}

/// The range that a text starts with.
pub open spec fn range_of(s: Seq<char>) -> Result<RegisterRange, ArmParserError> {
    match range_at(s, 0) {
        Some((range, _)) => Ok(range),
        None => Err(ArmParserError::Syntax),
    }
}

pub(crate) fn parse_range(s: &[char], pos: usize) -> (res: Option<(RegisterRange, usize)>)
    requires
        pos <= s.len(),
    ensures
        match res {
            Some((range, end)) => range_at(s@, pos as int) == Some((range, end as int)) && pos < end
                <= s.len(),
            None => range_at(s@, pos as int) is None,
        },
{
    match parse_register(s, pos) {
        Some((start, p)) => {
            let dash = skip_blank(s, p);
            if char_at(s, dash, '-') {
                match parse_register(s, skip_blank(s, dash + 1)) {
                    Some((end, q)) => Some((RegisterRange { start, end }, q)),
                    None => None,
                }
            } else {
                None
            }
        },
        None => None,
    }
}

/// One item of a register list at `pos`: a range, which stands for its
/// registers, or a single register.
pub open spec fn reg_item_at(s: Seq<char>, pos: int) -> Result<(Seq<Register>, int), ArmParserError> {
    match range_at(s, pos) {
        Some((range, end)) => match range.spec_to_reg_list() {
            Ok(regs) => Ok((regs, end)),
            Err(e) => Err(e),
        },
        None => match register_at(s, pos) {
            Some((reg, end)) => Ok((seq![reg], end)),
            None => Err(ArmParserError::Syntax),
        },
    }
}

/// The rest of a register list after an item that ended at `pos`: the
/// closing brace, or a comma, one more item and the rest. `acc` holds the
/// registers read so far.
pub open spec fn reg_items_at(s: Seq<char>, pos: int, acc: Seq<Register>) -> Result<
    (Seq<Register>, int),
    ArmParserError,
>
    decreases s.len() - pos,
{
    let p = blank_end(s, pos);
    if has_char(s, p, '}') {
        Ok((acc, p + 1))
    } else if has_char(s, p, ',') && pos >= 0 {
        match reg_item_at(s, blank_end(s, p + 1)) {
            Ok((regs, end)) => {
                proof {
                    lemma_blank_end_bounds(s, pos);
                    lemma_blank_end_bounds(s, p + 1);
                    lemma_reg_item_grows(s, blank_end(s, p + 1));
                }
                reg_items_at(s, end, acc + regs)
            },
            Err(e) => Err(e),
        }
    } else {
        Err(ArmParserError::Syntax)
    }
}

/// A register list `{ item, item, ... }` at `pos`, with where it ends.
pub open spec fn reg_list_at(s: Seq<char>, pos: int) -> Result<(Seq<Register>, int), ArmParserError> {
    if has_char(s, pos, '{') {
        match reg_item_at(s, blank_end(s, pos + 1)) {
            Ok((regs, end)) => reg_items_at(s, end, regs),
            Err(e) => Err(e),
        }
    } else {
        Err(ArmParserError::Syntax)
    }
}

/// The registers of the list that a text starts with.
pub open spec fn reg_list_of(s: Seq<char>) -> Result<Seq<Register>, ArmParserError> {
    match reg_list_at(s, 0) {
        Ok((regs, _)) => Ok(regs),
        Err(e) => Err(e),
    }
}

pub proof fn lemma_reg_item_grows(s: Seq<char>, pos: int)
    requires
        0 <= pos <= s.len(),
    ensures
        reg_item_at(s, pos) matches Ok((_, end)) ==> pos < end <= s.len(),
{
    lemma_register_grows(s, pos);
    if let Some((_, p)) = register_at(s, pos) {
        let dash = blank_end(s, p);
        lemma_blank_end_bounds(s, p);
        if dash + 1 <= s.len() {
            lemma_blank_end_bounds(s, dash + 1);
            lemma_register_grows(s, blank_end(s, dash + 1));
        }
    }
}

pub(crate) fn parse_reg_item(s: &[char], pos: usize) -> (res: Result<
    (Vec<Register>, usize),
    ArmParserError,
>)
    requires
        pos <= s.len(),
    ensures
        match res {
            Ok((regs, end)) => reg_item_at(s@, pos as int) == Ok::<_, ArmParserError>(
                (regs@, end as int),
            ) && pos < end <= s.len(),
            Err(e) => reg_item_at(s@, pos as int) == Err::<(Seq<Register>, int), _>(e),
        },
{
    match parse_range(s, pos) {
        Some((range, end)) => match range.to_reg_list() {
            Ok(list) => Ok((list.regs, end)),
            Err(e) => Err(e),
        },
        None => match parse_register(s, pos) {
            Some((reg, end)) => {
                let mut regs: Vec<Register> = Vec::new();
                regs.push(reg);
                assert(regs@ =~= seq![reg]);
                Ok((regs, end))
            },
            None => Err(ArmParserError::Syntax),
        },
    }
}

pub(crate) fn parse_reg_list(s: &[char], pos: usize) -> (res: Result<
    (Vec<Register>, usize),
    ArmParserError,
>)
    requires
        pos <= s.len(),
    ensures
        match res {
            Ok((regs, end)) => reg_list_at(s@, pos as int) == Ok::<_, ArmParserError>(
                (regs@, end as int),
            ) && pos < end <= s.len(),
            Err(e) => reg_list_at(s@, pos as int) == Err::<(Seq<Register>, int), _>(e),
        },
{
    if !char_at(s, pos, '{') {
        return Err(ArmParserError::Syntax);
    }
    let (mut regs, mut p) = match parse_reg_item(s, skip_blank(s, pos + 1)) {
        Ok(first) => first,
        Err(e) => {
            return Err(e);
        },
    };
    loop
        invariant
            pos < p <= s.len(),
            reg_list_at(s@, pos as int) == reg_items_at(s@, p as int, regs@),
        decreases s.len() - p,
    {
        let q = skip_blank(s, p);
        if char_at(s, q, '}') {
            return Ok((regs, q + 1));
        }
        if !char_at(s, q, ',') {
            return Err(ArmParserError::Syntax);
        }
        match parse_reg_item(s, skip_blank(s, q + 1)) {
            Ok((mut more, end)) => {
                regs.append(&mut more);
                p = end;
            },
            Err(e) => {
                return Err(e);
            },
        }
    }
}

impl RegisterRange {
    /// Reads the register range that the text starts with.
    pub fn parse(input: &str) -> (res: Result<Self, ArmParserError>)
        ensures
            res == range_of(input@),
    {
        let s = chars_of(input);
        match parse_range(s.as_slice(), 0) {
            Some((range, _)) => Ok(range),
            None => Err(ArmParserError::Syntax),
        }
    }
}

impl RegisterList {
    /// Reads the register list that the text starts with. A range in the
    /// list stands for its registers.
    pub fn parse(input: &str) -> (res: Result<Self, ArmParserError>)
        ensures
            match res {
                Ok(list) => reg_list_of(input@) == Ok::<_, ArmParserError>(list.regs@),
                Err(e) => reg_list_of(input@) == Err::<Seq<Register>, _>(e),
            },
    {
        let s = chars_of(input);
        match parse_reg_list(s.as_slice(), 0) {
            Ok((regs, _)) => Ok(RegisterList { regs }),
            Err(e) => Err(e),
        }
    }
}

/// An immediate at `pos`, with where it ends: an optional `#`, then `0x`
/// and hexadecimal digits, or an optional `-` and decimal digits. The
/// number must fit in 64 bits.
pub open spec fn immediate_at(s: Seq<char>, pos: int) -> Result<(Immediate, int), ArmParserError> {
    let p = if has_char(s, pos, '#') {
        pos + 1
    } else {
        pos
    };
    if has_literal(s, p, "0x"@) && p + 2 < s.len() && is_hex_digit(s[p + 2]) {
        let end = number_end(s, p + 2, 16);
        let number = number_value(s.subrange(p + 2, end), 16);
        if number <= i64::MAX {
            Ok((Immediate(number as i64), end))
        } else {
            Err(ArmParserError::ParseIntError)
        }
    } else {
        let d = if has_char(s, p, '-') {
            p + 1
        } else {
            p
        };
        if 0 <= d < s.len() && is_digit(s[d]) {
            let end = number_end(s, d, 10);
            let number = number_value(s.subrange(d, end), 10);
            let value = if d > p {
                -number
            } else {
                number as int
            };
            if i64::MIN <= value <= i64::MAX {
                Ok((Immediate(value as i64), end))
            } else {
                Err(ArmParserError::ParseIntError)
            }
        } else {
            Err(ArmParserError::Syntax)
        }
    }
}

/// The immediate that a text starts with.
pub open spec fn immediate_of(s: Seq<char>) -> Result<Immediate, ArmParserError> {
    match immediate_at(s, 0) {
        Ok((imm, _)) => Ok(imm),
        Err(e) => Err(e),
    }
}

pub(crate) fn parse_immediate(s: &[char], pos: usize) -> (res: Result<
    (Immediate, usize),
    ArmParserError,
>)
    requires
        pos <= s.len(),
    ensures
        match res {
            Ok((imm, end)) => immediate_at(s@, pos as int) == Ok::<_, ArmParserError>(
                (imm, end as int),
            ) && pos < end <= s.len(),
            Err(e) => immediate_at(s@, pos as int) == Err::<(Immediate, int), _>(e),
        },
{
    proof {
        reveal_strlit("0x");
    }
    let p = if char_at(s, pos, '#') {
        pos + 1
    } else {
        pos
    };
    if literal_at(s, p, "0x") && hex_digit_at(s, p + 2) {
        let (end, number) = scan_number(s, p + 2, true);
        match number {
            Some(v) => if v < MAX_MAGNITUDE {
                Ok((Immediate(v as i64), end))
            } else {
                Err(ArmParserError::ParseIntError)
            },
            None => Err(ArmParserError::ParseIntError),
        }
    } else {
        let negative = char_at(s, p, '-');
        let d = if negative {
            p + 1
        } else {
            p
        };
        if digit_at(s, d) {
            let (end, number) = scan_number(s, d, false);
            match number {
                Some(v) => if v < MAX_MAGNITUDE {
                    if negative {
                        Ok((Immediate(-(v as i64)), end))
                    } else {
                        Ok((Immediate(v as i64), end))
                    }
                } else if negative {
                    Ok((Immediate(i64::MIN), end))
                } else {
                    Err(ArmParserError::ParseIntError)
                },
                None => Err(ArmParserError::ParseIntError),
            }
        } else {
            Err(ArmParserError::Syntax)
        }
    }
}

impl Immediate {
    /// Reads the immediate that the text starts with.
    pub fn parse(input: &str) -> (res: Result<Self, ArmParserError>)
        ensures
            res == immediate_of(input@),
    {
        let s = chars_of(input);
        match parse_immediate(s.as_slice(), 0) {
            Ok((imm, _)) => Ok(imm),
            Err(e) => Err(e),
        }
    }
}

/// A shift type at `pos`, with where it ends: one of `lsl`, `lsr`, `asr`,
/// `ror` and `rrx`.
pub open spec fn shift_type_at(s: Seq<char>, pos: int) -> Option<(ShiftType, int)> {
    if has_literal(s, pos, "lsl"@) {
        Some((ShiftType::LSL, pos + 3))
    } else if has_literal(s, pos, "lsr"@) {
        Some((ShiftType::LSR, pos + 3))
    } else if has_literal(s, pos, "asr"@) {
        Some((ShiftType::ASR, pos + 3))
    } else if has_literal(s, pos, "ror"@) {
        Some((ShiftType::ROR, pos + 3))
    } else if has_literal(s, pos, "rrx"@) {
        Some((ShiftType::RRX, pos + 3))
    } else {
        None
    }
}

/// The shift type that a text starts with.
pub open spec fn shift_type_of(s: Seq<char>) -> Result<ShiftType, ArmParserError> {
    match shift_type_at(s, 0) {
        Some((shift_type, _)) => Ok(shift_type),
        None => Err(ArmParserError::Syntax),
    }
}

pub(crate) fn parse_shift_type(s: &[char], pos: usize) -> (res: Option<(ShiftType, usize)>)
    requires
        pos <= s.len(),
    ensures
        match res {
            Some((shift_type, end)) => shift_type_at(s@, pos as int) == Some(
                (shift_type, end as int),
            ) && pos < end <= s.len(),
            None => shift_type_at(s@, pos as int) is None,
        },
{
    proof {
        reveal_strlit("lsl");
        reveal_strlit("lsr");
        reveal_strlit("asr");
        reveal_strlit("ror");
        reveal_strlit("rrx");
    }
    if literal_at(s, pos, "lsl") {
        Some((ShiftType::LSL, pos + 3))
    } else if literal_at(s, pos, "lsr") {
        Some((ShiftType::LSR, pos + 3))
    } else if literal_at(s, pos, "asr") {
        Some((ShiftType::ASR, pos + 3))
    } else if literal_at(s, pos, "ror") {
        Some((ShiftType::ROR, pos + 3))
    } else if literal_at(s, pos, "rrx") {
        Some((ShiftType::RRX, pos + 3))
    } else {
        None
    }
}

impl ShiftType {
    /// Reads the shift type that the text starts with.
    pub fn parse(input: &str) -> (res: Result<Self, ArmParserError>)
        ensures
            res == shift_type_of(input@),
    {
        let s = chars_of(input);
        match parse_shift_type(s.as_slice(), 0) {
            Some((shift_type, _)) => Ok(shift_type),
            None => Err(ArmParserError::Syntax),
        }
    }
}

/// The amount of a shift at `pos`, if one stands there: an immediate or a
/// register.
pub open spec fn shift_amount_at(s: Seq<char>, pos: int) -> Result<
    Option<(ShiftAmount, int)>,
    ArmParserError,
> {
    match immediate_at(s, pos) {
        Ok((imm, end)) => Ok(Some((ShiftAmount::Immediate(imm), end))),
        Err(ArmParserError::Syntax) => match register_at(s, pos) {
            Some((reg, end)) => Ok(Some((ShiftAmount::Register(reg), end))),
            None => Ok(None),
        },
        Err(e) => Err(e),
    }
}

/// A shifted register at `pos`, with where it ends: a register, a shift
/// type and, if one follows, the amount.
pub open spec fn shifted_register_at(s: Seq<char>, pos: int) -> Result<
    (ShiftedRegister, int),
    ArmParserError,
> {
    match register_at(s, pos) {
        None => Err(ArmParserError::Syntax),
        Some((reg, p)) => match shift_type_at(s, blank_end(s, p)) {
            None => Err(ArmParserError::Syntax),
            Some((shift_type, q)) => match shift_amount_at(s, blank_end(s, q)) {
                Err(e) => Err(e),
                Ok(Some((amount, end))) => Ok(
                    (ShiftedRegister { reg, shift_type, shift_amount: Some(amount) }, end),
                ),
                Ok(None) => Ok((ShiftedRegister { reg, shift_type, shift_amount: None }, q)),
            },
        },
    }
}

/// The shifted register that a text starts with.
pub open spec fn shifted_register_of(s: Seq<char>) -> Result<ShiftedRegister, ArmParserError> {
    match shifted_register_at(s, 0) {
        Ok((reg, _)) => Ok(reg),
        Err(e) => Err(e),
    }
}

pub(crate) fn parse_shift_amount(s: &[char], pos: usize) -> (res: Result<
    Option<(ShiftAmount, usize)>,
    ArmParserError,
>)
    requires
        pos <= s.len(),
    ensures
        match res {
            Ok(Some((amount, end))) => shift_amount_at(s@, pos as int) == Ok::<_, ArmParserError>(
                Some((amount, end as int)),
            ) && pos < end <= s.len(),
            Ok(None) => shift_amount_at(s@, pos as int) == Ok::<_, ArmParserError>(
                None::<(ShiftAmount, int)>,
            ),
            Err(e) => shift_amount_at(s@, pos as int) == Err::<Option<(ShiftAmount, int)>, _>(e),
        },
{
    match parse_immediate(s, pos) {
        Ok((imm, end)) => Ok(Some((ShiftAmount::Immediate(imm), end))),
        Err(ArmParserError::Syntax) => match parse_register(s, pos) {
            Some((reg, end)) => Ok(Some((ShiftAmount::Register(reg), end))),
            None => Ok(None),
        },
        Err(e) => Err(e),
    }
}

pub(crate) fn parse_shifted_register(s: &[char], pos: usize) -> (res: Result<
    (ShiftedRegister, usize),
    ArmParserError,
>)
    requires
        pos <= s.len(),
    ensures
        match res {
            Ok((reg, end)) => shifted_register_at(s@, pos as int) == Ok::<_, ArmParserError>(
                (reg, end as int),
            ) && pos < end <= s.len(),
            Err(e) => shifted_register_at(s@, pos as int) == Err::<(ShiftedRegister, int), _>(e),
        },
{
    match parse_register(s, pos) {
        None => Err(ArmParserError::Syntax),
        Some((reg, p)) => match parse_shift_type(s, skip_blank(s, p)) {
            None => Err(ArmParserError::Syntax),
            Some((shift_type, q)) => match parse_shift_amount(s, skip_blank(s, q)) {
                Err(e) => Err(e),
                Ok(Some((amount, end))) => Ok(
                    (ShiftedRegister { reg, shift_type, shift_amount: Some(amount) }, end),
                ),
                Ok(None) => Ok((ShiftedRegister { reg, shift_type, shift_amount: None }, q)),
            },
        },
    }
}

impl ShiftedRegister {
    /// Reads the shifted register that the text starts with.
    pub fn parse(input: &str) -> (res: Result<Self, ArmParserError>)
        ensures
            res == shifted_register_of(input@),
    {
        let s = chars_of(input);
        match parse_shifted_register(s.as_slice(), 0) {
            Ok((reg, _)) => Ok(reg),
            Err(e) => Err(e),
        }
    }
}

/// What a `ProcLoad` holds, as text.
pub struct ProcLoadView {
    pub mode: Seq<char>,
    pub target: Seq<char>,
}

impl View for ProcLoad {
    type V = ProcLoadView;

    open spec fn view(&self) -> ProcLoadView {
        ProcLoadView { mode: self.mode@, target: self.target@ }
    }
}

/// What an `Offset` holds, its text as text.
pub enum OffsetView {
    Immediate(Immediate),
    Register(Register),
    ShiftedRegister(ShiftedRegister),
    ProcLoad(ProcLoadView),
}

impl View for Offset {
    type V = OffsetView;

    open spec fn view(&self) -> OffsetView {
        match *self {
            Offset::Immediate(imm) => OffsetView::Immediate(imm),
            Offset::Register(reg) => OffsetView::Register(reg),
            Offset::ShiftedRegister(reg) => OffsetView::ShiftedRegister(reg),
            Offset::ProcLoad(load) => OffsetView::ProcLoad(load@),
        }
    }
}

/// What an `Indirect` holds, its text as text.
pub struct IndirectView {
    pub base: Register,
    pub offset: Option<OffsetView>,
    pub writeback: bool,
}

impl View for Indirect {
    type V = IndirectView;

    open spec fn view(&self) -> IndirectView {
        IndirectView {
            base: self.base,
            offset: match self.offset {
                Some(offset) => Some(offset@),
                None => None,
            },
            writeback: self.writeback,
        }
    }
}

/// A procedure load `:mode:target` at `pos`, with where it ends. The mode
/// is a name, the target a symbol, and neither is empty.
pub open spec fn proc_load_at(s: Seq<char>, pos: int) -> Option<(ProcLoadView, int)> {
    let mode_end = name_end(s, pos + 1, false);
    let target_end = name_end(s, mode_end + 1, true);
    if has_char(s, pos, ':') && pos + 1 < mode_end && has_char(s, mode_end, ':') && mode_end + 1
        < target_end {
        Some(
            (
                ProcLoadView {
                    mode: s.subrange(pos + 1, mode_end),
                    target: s.subrange(mode_end + 1, target_end),
                },
                target_end,
            ),
        )
    } else {
        None
    }
}

/// The procedure load that a text starts with.
pub open spec fn proc_load_of(s: Seq<char>) -> Result<ProcLoadView, ArmParserError> {
    match proc_load_at(s, 0) {
        Some((load, _)) => Ok(load),
        None => Err(ArmParserError::Syntax),
    }
}

pub(crate) fn parse_proc_load(s: &[char], pos: usize) -> (res: Option<(ProcLoad, usize)>)
    requires
        pos <= s.len(),
    ensures
        match res {
            Some((load, end)) => proc_load_at(s@, pos as int) == Some((load@, end as int)) && pos
                < end <= s.len(),
            None => proc_load_at(s@, pos as int) is None,
        },
{
    if !char_at(s, pos, ':') {
        return None;
    }
    let (mode, mode_end) = scan_name(s, pos + 1, false);
    if mode_end == pos + 1 || !char_at(s, mode_end, ':') {
        return None;
    }
    let (target, target_end) = scan_name(s, mode_end + 1, true);
    if target_end == mode_end + 1 {
        return None;
    }
    Some((ProcLoad { mode, target }, target_end))
}

impl ProcLoad {
    /// Reads the procedure load that the text starts with.
    pub fn parse(input: &str) -> (res: Result<Self, ArmParserError>)
        ensures
            match res {
                Ok(load) => proc_load_of(input@) == Ok::<_, ArmParserError>(load@),
                Err(e) => proc_load_of(input@) == Err::<ProcLoadView, _>(e),
            },
    {
        let s = chars_of(input);
        match parse_proc_load(s.as_slice(), 0) {
            Some((load, _)) => Ok(load),
            None => Err(ArmParserError::Syntax),
        }
    }
}

/// An offset at `pos`, with where it ends: an immediate, a shifted
/// register, a register or a procedure load, whichever is found first in
/// that order. A register that no shift type follows is a register.
pub open spec fn offset_at(s: Seq<char>, pos: int) -> Result<(OffsetView, int), ArmParserError> {
    match immediate_at(s, pos) {
        Ok((imm, end)) => Ok((OffsetView::Immediate(imm), end)),
        Err(ArmParserError::Syntax) => match register_at(s, pos) {
            Some((reg, end)) => match shifted_register_at(s, pos) {
                Ok((shifted, shifted_end)) => Ok((OffsetView::ShiftedRegister(shifted), shifted_end)),
                Err(ArmParserError::Syntax) => Ok((OffsetView::Register(reg), end)),
                Err(e) => Err(e),
            },
            None => match proc_load_at(s, pos) {
                Some((load, end)) => Ok((OffsetView::ProcLoad(load), end)),
                None => Err(ArmParserError::Syntax),
            },
        },
        Err(e) => Err(e),
    }
}

/// The offset that a text starts with.
pub open spec fn offset_of(s: Seq<char>) -> Result<OffsetView, ArmParserError> {
    match offset_at(s, 0) {
        Ok((offset, _)) => Ok(offset),
        Err(e) => Err(e),
    }
}

pub(crate) fn parse_offset(s: &[char], pos: usize) -> (res: Result<(Offset, usize), ArmParserError>)
    requires
        pos <= s.len(),
    ensures
        match res {
            Ok((offset, end)) => offset_at(s@, pos as int) == Ok::<_, ArmParserError>(
                (offset@, end as int),
            ) && pos < end <= s.len(),
            Err(e) => offset_at(s@, pos as int) == Err::<(OffsetView, int), _>(e),
        },
{
    match parse_immediate(s, pos) {
        Ok((imm, end)) => Ok((Offset::Immediate(imm), end)),
        Err(ArmParserError::Syntax) => match parse_register(s, pos) {
            Some((reg, end)) => match parse_shifted_register(s, pos) {
                Ok((shifted, shifted_end)) => Ok((Offset::ShiftedRegister(shifted), shifted_end)),
                Err(ArmParserError::Syntax) => Ok((Offset::Register(reg), end)),
                Err(e) => Err(e),
            },
            None => match parse_proc_load(s, pos) {
                Some((load, end)) => Ok((Offset::ProcLoad(load), end)),
                None => Err(ArmParserError::Syntax),
            },
        },
        Err(e) => Err(e),
    }
}

impl Offset {
    /// Reads the offset that the text starts with.
    pub fn parse(input: &str) -> (res: Result<Self, ArmParserError>)
        ensures
            match res {
                Ok(offset) => offset_of(input@) == Ok::<_, ArmParserError>(offset@),
                Err(e) => offset_of(input@) == Err::<OffsetView, _>(e),
            },
    {
        let s = chars_of(input);
        match parse_offset(s.as_slice(), 0) {
            Ok((offset, _)) => Ok(offset),
            Err(e) => Err(e),
        }
    }
}

/// The end of a memory operand at `pos`: the closing bracket and, if it
/// follows, the `!` of write-back.
pub open spec fn indirect_close_at(
    s: Seq<char>,
    pos: int,
    base: Register,
    offset: Option<OffsetView>,
) -> Result<(IndirectView, int), ArmParserError> {
    if has_char(s, pos, ']') {
        let mark = blank_end(s, pos + 1);
        if has_char(s, mark, '!') {
            Ok((IndirectView { base, offset, writeback: true }, mark + 1))
        } else {
            Ok((IndirectView { base, offset, writeback: false }, pos + 1))
        }
    } else {
        Err(ArmParserError::Syntax)
    }
}

/// A memory operand at `pos`, with where it ends: `[base]` or
/// `[base, offset]`, and `!` behind it for write-back.
pub open spec fn indirect_at(s: Seq<char>, pos: int) -> Result<(IndirectView, int), ArmParserError> {
    if has_char(s, pos, '[') {
        match register_at(s, blank_end(s, pos + 1)) {
            None => Err(ArmParserError::Syntax),
            Some((base, p)) => {
                let q = blank_end(s, p);
                if has_char(s, q, ',') {
                    match offset_at(s, blank_end(s, q + 1)) {
                        Ok((offset, r)) => indirect_close_at(s, blank_end(s, r), base, Some(offset)),
                        Err(e) => Err(e),
                    }
                } else {
                    indirect_close_at(s, q, base, None)
                }
            },
        }
    } else {
        Err(ArmParserError::Syntax)
    }
}

/// The memory operand that a text starts with.
pub open spec fn indirect_of(s: Seq<char>) -> Result<IndirectView, ArmParserError> {
    match indirect_at(s, 0) {
        Ok((indirect, _)) => Ok(indirect),
        Err(e) => Err(e),
    }
}

fn parse_indirect_close(s: &[char], pos: usize, base: Register, offset: Option<Offset>) -> (res:
    Result<(Indirect, usize), ArmParserError>)
    requires
        pos <= s.len(),
    ensures
        ({
            let view = match offset {
                Some(o) => Some(o@),
                None => None,
            };
            match res {
                Ok((indirect, end)) => indirect_close_at(s@, pos as int, base, view) == Ok::<
                    _,
                    ArmParserError,
                >((indirect@, end as int)) && pos < end <= s.len(),
                Err(e) => indirect_close_at(s@, pos as int, base, view) == Err::<
                    (IndirectView, int),
                    _,
                >(e),
            }
        }),
{
    if char_at(s, pos, ']') {
        let mark = skip_blank(s, pos + 1);
        if char_at(s, mark, '!') {
            Ok((Indirect { base, offset, writeback: true }, mark + 1))
        } else {
            Ok((Indirect { base, offset, writeback: false }, pos + 1))
        }
    } else {
        Err(ArmParserError::Syntax)
    }
}

pub(crate) fn parse_indirect(s: &[char], pos: usize) -> (res: Result<
    (Indirect, usize),
    ArmParserError,
>)
    requires
        pos <= s.len(),
    ensures
        match res {
            Ok((indirect, end)) => indirect_at(s@, pos as int) == Ok::<_, ArmParserError>(
                (indirect@, end as int),
            ) && pos < end <= s.len(),
            Err(e) => indirect_at(s@, pos as int) == Err::<(IndirectView, int), _>(e),
        },
{
    if !char_at(s, pos, '[') {
        return Err(ArmParserError::Syntax);
    }
    match parse_register(s, skip_blank(s, pos + 1)) {
        None => Err(ArmParserError::Syntax),
        Some((base, p)) => {
            let q = skip_blank(s, p);
            if char_at(s, q, ',') {
                match parse_offset(s, skip_blank(s, q + 1)) {
                    Ok((offset, r)) => parse_indirect_close(s, skip_blank(s, r), base, Some(offset)),
                    Err(e) => Err(e),
                }
            } else {
                parse_indirect_close(s, q, base, None)
            }
        },
    }
}

impl Indirect {
    /// Reads the memory operand that the text starts with.
    pub fn parse(input: &str) -> (res: Result<Self, ArmParserError>)
        ensures
            match res {
                Ok(indirect) => indirect_of(input@) == Ok::<_, ArmParserError>(indirect@),
                Err(e) => indirect_of(input@) == Err::<IndirectView, _>(e),
            },
    {
        let s = chars_of(input);
        match parse_indirect(s.as_slice(), 0) {
            Ok((indirect, _)) => Ok(indirect),
            Err(e) => Err(e),
        }
    }
}

} // verus!
