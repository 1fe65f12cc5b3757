//! The mnemonics that the front end knows.

use crate::error::ArmParserError;
use crate::text::{chars_of, is_digit, word_is};
use vstd::prelude::*;

verus! {

/// An opcode, held as its mnemonic.
#[derive(Debug, Clone, Copy, PartialEq, Eq)]
pub struct Opcode(pub &'static str);

/// The opcode table: the opcode of a mnemonic, if it is a known one. The
/// mnemonics are case-sensitive.
pub open spec fn opcode_named(name: Seq<char>) -> Option<Opcode> {
    if name == "add"@ {
        Some(Opcode("add"))
    } else if name == "sub"@ {
        Some(Opcode("sub"))
    } else if name == "mul"@ {
        Some(Opcode("mul"))
    } else if name == "div"@ {
        Some(Opcode("div"))
    } else if name == "mov"@ {
        Some(Opcode("mov"))
    } else if name == "load"@ {
        Some(Opcode("load"))
    } else if name == "store"@ {
        Some(Opcode("store"))
    } else if name == "jmp"@ {
        Some(Opcode("jmp"))
    } else if name == "stp"@ {
        Some(Opcode("stp"))
    } else if name == "b"@ {
        Some(Opcode("b"))
    } else if name == "bl"@ {
        Some(Opcode("bl"))
    } else if name == "li"@ {
        Some(Opcode("li"))
    } else if name == "ldr"@ {
        Some(Opcode("ldr"))
    } else if name == "str"@ {
        Some(Opcode("str"))
    } else if name == "ldp"@ {
        Some(Opcode("ldp"))
    } else {
        None
    }
}

/// A character of a mnemonic: an ASCII letter, a digit or a dot.
pub open spec fn is_mnemonic_char(c: char) -> bool {
    ||| 'a' <= c <= 'z'
    ||| 'A' <= c <= 'Z'
    ||| is_digit(c)
    ||| c == '.'
}

/// Where the run of mnemonic characters that starts at `pos` ends.
pub open spec fn mnemonic_end(s: Seq<char>, pos: int) -> int
    decreases s.len() - pos,
{
    if 0 <= pos < s.len() && is_mnemonic_char(s[pos]) {
        mnemonic_end(s, pos + 1)
    } else {
        pos
    }
}

/// The opcode at `pos`, with where it ends: the run of mnemonic characters
/// there must be a mnemonic of the table.
pub open spec fn opcode_at(s: Seq<char>, pos: int) -> Result<(Opcode, int), ArmParserError> {
    let end = mnemonic_end(s, pos);
    if end <= pos {
        Err(ArmParserError::Syntax)
    } else {
        match opcode_named(s.subrange(pos, end)) {
            Some(opcode) => Ok((opcode, end)),
            None => Err(ArmParserError::InvalidOpcode),
        }
    }
}

/// The opcode that a text starts with.
pub open spec fn opcode_of(s: Seq<char>) -> Result<Opcode, ArmParserError> {
    match opcode_at(s, 0) {
        Ok((opcode, _)) => Ok(opcode),
        Err(e) => Err(e),
    }
}

fn lookup(s: &[char], pos: usize, end: usize) -> (res: Option<Opcode>)
    requires
        pos <= end <= s.len(),
    ensures
        res == opcode_named(s@.subrange(pos as int, end as int)),
{
    if word_is(s, pos, end, "add") {
        Some(Opcode("add"))
    } else if word_is(s, pos, end, "sub") {
        Some(Opcode("sub"))
    } else if word_is(s, pos, end, "mul") {
        Some(Opcode("mul"))
    } else if word_is(s, pos, end, "div") {
        Some(Opcode("div"))
    } else if word_is(s, pos, end, "mov") {
        Some(Opcode("mov"))
    } else if word_is(s, pos, end, "load") {
        Some(Opcode("load"))
    } else if word_is(s, pos, end, "store") {
        Some(Opcode("store"))
    } else if word_is(s, pos, end, "jmp") {
        Some(Opcode("jmp"))
    } else if word_is(s, pos, end, "stp") {
        Some(Opcode("stp"))
    } else if word_is(s, pos, end, "b") {
        Some(Opcode("b"))
    } else if word_is(s, pos, end, "bl") {
        Some(Opcode("bl"))
    } else if word_is(s, pos, end, "li") {
        Some(Opcode("li"))
    } else if word_is(s, pos, end, "ldr") {
        Some(Opcode("ldr"))
    } else if word_is(s, pos, end, "str") {
        Some(Opcode("str"))
    } else if word_is(s, pos, end, "ldp") {
        Some(Opcode("ldp"))
    } else {
        None
    }
}

fn skip_mnemonic(s: &[char], pos: usize) -> (end: usize)
    requires
        pos <= s.len(),
    ensures
        end == mnemonic_end(s@, pos as int),
        pos <= end <= s.len(),
{
    let mut i = pos;
    while i < s.len() && ((s[i] >= 'a' && s[i] <= 'z') || (s[i] >= 'A' && s[i] <= 'Z') || (s[i]
        >= '0' && s[i] <= '9') || s[i] == '.')
        invariant
            pos <= i <= s.len(),
            mnemonic_end(s@, pos as int) == mnemonic_end(s@, i as int),
        decreases s.len() - i,
    {
        i += 1;
    }
    i
}

pub(crate) fn parse_opcode(s: &[char], pos: usize) -> (res: Result<(Opcode, usize), ArmParserError>)
    requires
        pos <= s.len(),
    ensures
        match res {
            Ok((opcode, end)) => opcode_at(s@, pos as int) == Ok::<_, ArmParserError>(
                (opcode, end as int),
            ) && pos < end <= s.len(),
            Err(e) => opcode_at(s@, pos as int) == Err::<(Opcode, int), _>(e),
        },
{
    let end = skip_mnemonic(s, pos);
    if end <= pos {
        Err(ArmParserError::Syntax)
    } else {
        match lookup(s, pos, end) {
            Some(opcode) => Ok((opcode, end)),
            None => Err(ArmParserError::InvalidOpcode),
        }
    }
}

impl Opcode {
    pub fn name(&self) -> (res: &'static str)
        ensures
            res == self.0,
    {
        self.0
    }

    /// Reads the opcode that the text starts with.
    pub fn parse(input: &str) -> (res: Result<Self, ArmParserError>)
        ensures
            res == opcode_of(input@),
    {
        let s = chars_of(input);
        match parse_opcode(s.as_slice(), 0) {
            Ok((opcode, _)) => Ok(opcode),
            Err(e) => Err(e),
        }
    }
}

} // verus!
