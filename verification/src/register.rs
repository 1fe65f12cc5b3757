//! Registers as the assembly text names them.

use crate::text::{digit_at, has_literal, is_digit, literal_at, value_of_digit};
use crate::text::{chars_of, digit_value};
use crate::error::ArmParserError;
use vstd::prelude::*;

verus! {

#[derive(Debug, Clone, Copy, PartialEq, Eq, Structural)]
pub enum RegisterType {
    /// `w`: the lower half of a general purpose register.
    Half,
    /// `x`: a general purpose register.
    Full,
    /// `h`: half precision.
    HalfFloat,
    /// `s`: single precision.
    SingleFloat,
    /// `d`: double precision.
    DoubleFloat,
    StackPointer,
    XZR,
    WZR,
}

#[derive(Debug, Clone, Copy, PartialEq, Eq, Structural)]
pub struct Register {
    pub reg_type: RegisterType,
    pub reg_num: u8,
}

/// The highest register number.
pub const MAX_REG_NUM: u8 = 31;

/// The register type that a letter stands for in a numbered register.
pub open spec fn class_of(c: char) -> Option<RegisterType> {
    if c == 'x' {
        Some(RegisterType::Full)
    } else if c == 'w' {
        Some(RegisterType::Half)
    } else if c == 'h' {
        Some(RegisterType::HalfFloat)
    } else if c == 's' {
        Some(RegisterType::SingleFloat)
    } else if c == 'd' {
        Some(RegisterType::DoubleFloat)
    } else {
        None
    }
}

/// A register number at `pos`: one or two decimal digits, not followed by a
/// third, that write a number up to 31. Gives the number and where it ends.
pub open spec fn reg_num_at(s: Seq<char>, pos: int) -> Option<(u8, int)> {
    if !(0 <= pos < s.len() && is_digit(s[pos])) {
        None
    } else if !(pos + 1 < s.len() && is_digit(s[pos + 1])) {
        Some((digit_value(s[pos]) as u8, pos + 1))
    } else if pos + 2 < s.len() && is_digit(s[pos + 2]) {
        None
    } else {
        let n = digit_value(s[pos]) * 10 + digit_value(s[pos + 1]);
        if n <= MAX_REG_NUM {
            Some((n as u8, pos + 2))
        } else {
            None
        }
    }
}

/// A register at `pos`, with where it ends. The names `xzr`, `sp`, `fp`,
/// `lr` and `wzr` come first; then a class letter and a register number.
/// The zero register is also read under the spelling `zxr`.
pub open spec fn register_at(s: Seq<char>, pos: int) -> Option<(Register, int)> {
    if has_literal(s, pos, "xzr"@) || has_literal(s, pos, "zxr"@) {
        Some((Register::xzr(), pos + 3))
    } else if has_literal(s, pos, "wzr"@) {
        Some((Register::wzr(), pos + 3))
    } else if has_literal(s, pos, "sp"@) {
        Some((Register::sp(), pos + 2))
    } else if has_literal(s, pos, "fp"@) {
        Some((Register::fp(), pos + 2))
    } else if has_literal(s, pos, "lr"@) {
        Some((Register::lr(), pos + 2))
    } else if 0 <= pos < s.len() && class_of(s[pos]) is Some {
        match reg_num_at(s, pos + 1) {
            Some((n, end)) => Some((Register { reg_type: class_of(s[pos])->0, reg_num: n }, end)),
            None => None,
        }
    } else {
        None
    }
}

/// The register that a text starts with.
pub open spec fn register_of(s: Seq<char>) -> Result<Register, ArmParserError> {
    match register_at(s, 0) {
        Some((reg, _)) => Ok(reg),
        None => Err(ArmParserError::Syntax),
    }
}

/// A register takes at least one character and ends within the text.
pub proof fn lemma_register_grows(s: Seq<char>, pos: int)
    requires
        0 <= pos <= s.len(),
    ensures
        register_at(s, pos) matches Some((_, end)) ==> pos < end <= s.len(),
{
    reveal_strlit("xzr");
    reveal_strlit("zxr");
    reveal_strlit("wzr");
    reveal_strlit("sp");
    reveal_strlit("fp");
    reveal_strlit("lr");
}

pub(crate) fn parse_reg_num(s: &[char], pos: usize) -> (res: Option<(u8, usize)>)
    requires
        pos <= s.len(),
    ensures
        match res {
            Some((n, end)) => reg_num_at(s@, pos as int) == Some((n, end as int)) && pos < end
                <= s.len(),
            None => reg_num_at(s@, pos as int) is None,
        },
{
    if !digit_at(s, pos) {
        None
    } else if !digit_at(s, pos + 1) {
        Some((value_of_digit(s[pos]), pos + 1))
    } else if pos + 2 < s.len() && digit_at(s, pos + 2) {
        None
    } else {
        let n = value_of_digit(s[pos]) * 10 + value_of_digit(s[pos + 1]);
        if n <= MAX_REG_NUM {
            Some((n, pos + 2))
        } else {
            None
        }
    }
}

pub(crate) fn class_letter(c: char) -> (res: Option<RegisterType>)
    ensures
        res == class_of(c),
{
    if c == 'x' {
        Some(RegisterType::Full)
    } else if c == 'w' {
        Some(RegisterType::Half)
    } else if c == 'h' {
        Some(RegisterType::HalfFloat)
    } else if c == 's' {
        Some(RegisterType::SingleFloat)
    } else if c == 'd' {
        Some(RegisterType::DoubleFloat)
    } else {
        None
    }
}

pub(crate) fn parse_register(s: &[char], pos: usize) -> (res: Option<(Register, usize)>)
    requires
        pos <= s.len(),
    ensures
        match res {
            Some((reg, end)) => register_at(s@, pos as int) == Some((reg, end as int)) && pos < end
                <= s.len(),
            None => register_at(s@, pos as int) is None,
        },
{
    proof {
        reveal_strlit("xzr");
        reveal_strlit("zxr");
        reveal_strlit("wzr");
        reveal_strlit("sp");
        reveal_strlit("fp");
        reveal_strlit("lr");
    }
    if literal_at(s, pos, "xzr") || literal_at(s, pos, "zxr") {
        Some((Register::xzr(), pos + 3))
    } else if literal_at(s, pos, "wzr") {
        Some((Register::wzr(), pos + 3))
    } else if literal_at(s, pos, "sp") {
        Some((Register::sp(), pos + 2))
    } else if literal_at(s, pos, "fp") {
        Some((Register::fp(), pos + 2))
    } else if literal_at(s, pos, "lr") {
        Some((Register::lr(), pos + 2))
    } else if pos < s.len() {
        match class_letter(s[pos]) {
            Some(reg_type) => match parse_reg_num(s, pos + 1) {
                Some((n, end)) => Some((Register::new(reg_type, n), end)),
                None => None,
            },
            None => None,
        }
    } else {
        None
    }
}

impl Register {
    /// The frame pointer, `x29`.
    pub open spec fn spec_fp() -> Register {
        Register { reg_type: RegisterType::Full, reg_num: 29 }
    }

    /// The link register, `x30`.
    pub open spec fn spec_lr() -> Register {
        Register { reg_type: RegisterType::Full, reg_num: 30 }
    }

    /// The stack pointer.
    pub open spec fn spec_sp() -> Register {
        Register { reg_type: RegisterType::StackPointer, reg_num: 31 }
    }

    /// The 32-bit zero register.
    pub open spec fn spec_wzr() -> Register {
        Register { reg_type: RegisterType::WZR, reg_num: 31 }
    }

    /// The 64-bit zero register.
    pub open spec fn spec_xzr() -> Register {
        Register { reg_type: RegisterType::XZR, reg_num: 31 }
    }

    pub fn new(reg_type: RegisterType, reg_num: u8) -> (res: Self)
        ensures
            res == (Register { reg_type, reg_num }),
    {
        Self { reg_type, reg_num }
    }

    #[verifier::when_used_as_spec(spec_fp)]
    pub fn fp() -> (res: Self)
        ensures
            res == Self::spec_fp(),
    {
        Register::new(RegisterType::Full, 29)
    }

    #[verifier::when_used_as_spec(spec_lr)]
    pub fn lr() -> (res: Self)
        ensures
            res == Self::spec_lr(),
    {
        Register::new(RegisterType::Full, 30)
    }

    #[verifier::when_used_as_spec(spec_sp)]
    pub fn sp() -> (res: Self)
        ensures
            res == Self::spec_sp(),
    {
        Register::new(RegisterType::StackPointer, 31)
    }

    #[verifier::when_used_as_spec(spec_wzr)]
    pub fn wzr() -> (res: Self)
        ensures
            res == Self::spec_wzr(),
    {
        Register::new(RegisterType::WZR, 31)
    }

    #[verifier::when_used_as_spec(spec_xzr)]
    pub fn xzr() -> (res: Self)
        ensures
            res == Self::spec_xzr(),
    {
        Register::new(RegisterType::XZR, 31)
    }

    /// Reads the register that the text starts with.
    pub fn parse(input: &str) -> (res: Result<Self, ArmParserError>)
        ensures
            res == register_of(input@),
    {
        let s = chars_of(input);
        match parse_register(s.as_slice(), 0) {
            Some((reg, _)) => Ok(reg),
            None => Err(ArmParserError::Syntax),
        }
    }
}

} // verus!
