//! Reading characters: the text of a line as a sequence of characters, and
//! the small scanners that the grammar rules share.

use vstd::prelude::*;
use vstd::std_specs::iter::IteratorSpec;
use vstd::string::StrSliceExecFns;

verus! {

/// The characters of a string, in order.
pub fn chars_of(s: &str) -> (v: Vec<char>)
    ensures
        v@ == s@,
{
    let mut v: Vec<char> = Vec::new();
    for c in it: s.chars()
        invariant
            it.seq() == s@,
            v@ == s@.take(it.index() as int),
    {
        v.push(c);
        assert(v@ =~= s@.take(it.index() + 1));
    }
    assert(v@ =~= s@);
    v
}

/// Whether the text holds the character `c` at `pos`.
pub open spec fn has_char(s: Seq<char>, pos: int, c: char) -> bool {
    0 <= pos < s.len() && s[pos] == c
}

/// Whether the text holds `lit` from `pos` on.
pub open spec fn has_literal(s: Seq<char>, pos: int, lit: Seq<char>) -> bool {
    &&& 0 <= pos
    &&& pos + lit.len() <= s.len()
    &&& s.subrange(pos, pos + lit.len()) == lit
}

pub(crate) fn char_at(s: &[char], pos: usize, c: char) -> (b: bool)
    ensures
        b == has_char(s@, pos as int, c),
{
    pos < s.len() && s[pos] == c
}

pub(crate) fn literal_at(s: &[char], pos: usize, lit: &str) -> (b: bool)
    ensures
        b == has_literal(s@, pos as int, lit@),
{
    let n = lit.unicode_len();
    if pos > s.len() || n > s.len() - pos {
        return false;
    }
    let mut i: usize = 0;
    while i < n
        invariant
            i <= n,
            n == lit@.len(),
            pos + n <= s.len(),
            s@.subrange(pos as int, pos + i) == lit@.subrange(0, i as int),
        decreases n - i,
    {
        if s[pos + i] != lit.get_char(i) {
            assert(s@.subrange(pos as int, pos + n)[i as int] != lit@[i as int]);
            return false;
        }
        assert(s@.subrange(pos as int, pos + i + 1) =~= s@.subrange(pos as int, pos + i).push(
            s@[pos + i],
        ));
        assert(lit@.subrange(0, i + 1) =~= lit@.subrange(0, i as int).push(lit@[i as int]));
        i += 1;
    }
    assert(lit@.subrange(0, n as int) =~= lit@);
    true
}

/// Whether the characters from `pos` up to `end` are those of `lit`.
pub(crate) fn word_is(s: &[char], pos: usize, end: usize, lit: &str) -> (b: bool)
    requires
        pos <= end <= s.len(),
    ensures
        b == (s@.subrange(pos as int, end as int) == lit@),
{
    if end - pos != lit.unicode_len() {
        return false;
    }
    literal_at(s, pos, lit)
}

/// A space or a tab: what may stand between two tokens of a line.
pub open spec fn is_blank(c: char) -> bool {
    c == ' ' || c == '\t'
}

/// Where the run of blanks that starts at `pos` ends.
pub open spec fn blank_end(s: Seq<char>, pos: int) -> int
    decreases s.len() - pos,
{
    if 0 <= pos < s.len() && is_blank(s[pos]) {
        blank_end(s, pos + 1)
    } else {
        pos
    }
}

pub proof fn lemma_blank_end_bounds(s: Seq<char>, pos: int)
    requires
        0 <= pos <= s.len(),
    ensures
        pos <= blank_end(s, pos) <= s.len(),
    decreases s.len() - pos,
{
    if pos < s.len() && is_blank(s[pos]) {
        lemma_blank_end_bounds(s, pos + 1);
    }
}

/// Skips the blanks at `pos`.
pub(crate) fn skip_blank(s: &[char], pos: usize) -> (end: usize)
    requires
        pos <= s.len(),
    ensures
        end == blank_end(s@, pos as int),
        pos <= end <= s.len(),
{
    let mut i = pos;
    while i < s.len() && (s[i] == ' ' || s[i] == '\t')
        invariant
            pos <= i <= s.len(),
            blank_end(s@, pos as int) == blank_end(s@, i as int),
        decreases s.len() - i,
    {
        i += 1;
    }
    i
}

pub open spec fn is_digit(c: char) -> bool {
    '0' <= c <= '9'
}

pub open spec fn is_hex_digit(c: char) -> bool {
    ||| '0' <= c <= '9'
    ||| 'a' <= c <= 'f'
    ||| 'A' <= c <= 'F'
}

/// The value of a decimal or hexadecimal digit.
pub open spec fn digit_value(c: char) -> nat
    recommends
        is_hex_digit(c),
{
    if '0' <= c <= '9' {
        (c as int - '0' as int) as nat
    } else if 'a' <= c <= 'f' {
        (c as int - 'a' as int + 10) as nat
    } else {
        (c as int - 'A' as int + 10) as nat
    }
}

pub(crate) fn digit_at(s: &[char], pos: usize) -> (b: bool)
    ensures
        b == (0 <= pos < s.len() && is_digit(s@[pos as int])),
{
    pos < s.len() && s[pos] >= '0' && s[pos] <= '9'
}

pub(crate) fn hex_digit_at(s: &[char], pos: usize) -> (b: bool)
    ensures
        b == (0 <= pos < s.len() && is_hex_digit(s@[pos as int])),
{
    pos < s.len() && ((s[pos] >= '0' && s[pos] <= '9') || (s[pos] >= 'a' && s[pos] <= 'f') || (
    s[pos] >= 'A' && s[pos] <= 'F'))
}

pub(crate) fn value_of_digit(c: char) -> (v: u8)
    requires
        is_hex_digit(c),
    ensures
        v == digit_value(c),
        v < 16,
        is_digit(c) ==> v < 10,
{
    if c >= '0' && c <= '9' {
        (c as u32 - '0' as u32) as u8
    } else if c >= 'a' && c <= 'f' {
        (c as u32 - 'a' as u32 + 10) as u8
    } else {
        (c as u32 - 'A' as u32 + 10) as u8
    }
}

/// Whether `c` is a digit of the base, which is 16 or, if not, 10.
pub open spec fn in_base(c: char, base: nat) -> bool {
    if base == 16 {
        is_hex_digit(c)
    } else {
        is_digit(c)
    }
}

/// Where the run of digits of the base that starts at `pos` ends.
pub open spec fn number_end(s: Seq<char>, pos: int, base: nat) -> int
    decreases s.len() - pos,
{
    if 0 <= pos < s.len() && in_base(s[pos], base) {
        number_end(s, pos + 1, base)
    } else {
        pos
    }
}

/// The number that a string of digits writes in the given base.
pub open spec fn number_value(digits: Seq<char>, base: nat) -> nat
    decreases digits.len(),
{
    if digits.len() == 0 {
        0
    } else {
        number_value(digits.drop_last(), base) * base + digit_value(digits.last())
    }
}

fn base_digit_at(s: &[char], pos: usize, hex: bool) -> (b: bool)
    ensures
        b == (0 <= pos < s.len() && in_base(s@[pos as int], if hex {
            16
        } else {
            10
        })),
{
    if hex {
        hex_digit_at(s, pos)
    } else {
        digit_at(s, pos)
    }
}

/// The largest magnitude of a 64-bit number: that of the least one.
pub const MAX_MAGNITUDE: u64 = 0x8000_0000_0000_0000;

/// Reads the run of digits at `pos` in base 10 or 16. Gives where the run
/// ends and the number it writes, if that is no more than `MAX_MAGNITUDE`.
pub(crate) fn scan_number(s: &[char], pos: usize, hex: bool) -> (res: (usize, Option<u64>))
    requires
        pos <= s.len(),
    ensures
        ({
            let base: nat = if hex {
                16
            } else {
                10
            };
            let (end, value) = res;
            let number = number_value(s@.subrange(pos as int, end as int), base);
            &&& pos <= end <= s.len()
            &&& end == number_end(s@, pos as int, base)
            &&& pos < s.len() && in_base(s@[pos as int], base) ==> pos < end
            &&& match value {
                Some(v) => v == number && v <= MAX_MAGNITUDE,
                None => number > MAX_MAGNITUDE,
            }
        }),
{
    let ghost base: nat = if hex {
        16
    } else {
        10
    };
    let mut i = pos;
    let mut acc: Option<u64> = Some(0);
    assert(s@.subrange(pos as int, pos as int) =~= Seq::<char>::empty());
    while base_digit_at(s, i, hex)
        invariant
            pos <= i <= s.len(),
            base == if hex {
                16nat
            } else {
                10nat
            },
            number_end(s@, pos as int, base) == number_end(s@, i as int, base),
            match acc {
                Some(v) => v == number_value(s@.subrange(pos as int, i as int), base) && v
                    <= MAX_MAGNITUDE,
                None => number_value(s@.subrange(pos as int, i as int), base) > MAX_MAGNITUDE,
            },
        decreases s.len() - i,
    {
        let d = value_of_digit(s[i]) as u128;
        proof {
            let next = s@.subrange(pos as int, i + 1);
            assert(next.drop_last() =~= s@.subrange(pos as int, i as int));
            assert(next.last() == s@[i as int]);
        }
        acc =
        match acc {
            Some(v) => {
                let n = if hex {
                    v as u128 * 16 + d
                } else {
                    v as u128 * 10 + d
                };
                if n > MAX_MAGNITUDE as u128 {
                    None
                } else {
                    Some(n as u64)
                }
            },
            None => None,
        };
        i += 1;
    }
    (i, acc)
}

/// A character of a name: an ASCII letter, a digit or an underscore.
pub open spec fn is_name_char(c: char) -> bool {
    ||| 'a' <= c <= 'z'
    ||| 'A' <= c <= 'Z'
    ||| is_digit(c)
    ||| c == '_'
}

/// A character of a symbol: a name character, a dot or a dollar sign.
pub open spec fn is_symbol_char(c: char) -> bool {
    is_name_char(c) || c == '.' || c == '$'
}

/// Where the run of name characters, or of symbol characters, that starts
/// at `pos` ends.
pub open spec fn name_end(s: Seq<char>, pos: int, symbol: bool) -> int
    decreases s.len() - pos,
{
    if 0 <= pos < s.len() && (is_name_char(s[pos]) || (symbol && is_symbol_char(s[pos]))) {
        name_end(s, pos + 1, symbol)
    } else {
        pos
    }
}

/// `String::push` of the standard library appends the character to the end
/// of the string and leaves the rest as it is.
pub assume_specification[ std::string::String::push ](s: &mut std::string::String, c: char)
    ensures
        final(s)@ == old(s)@.push(c),
;

/// Reads the run of name characters, or of symbol characters, at `pos`.
pub(crate) fn scan_name(s: &[char], pos: usize, symbol: bool) -> (res: (String, usize))
    requires
        pos <= s.len(),
    ensures
        pos <= res.1 <= s.len(),
        res.1 == name_end(s@, pos as int, symbol),
        res.0@ == s@.subrange(pos as int, res.1 as int),
{
    let mut i = pos;
    let mut name = String::new();
    while i < s.len() && ((s[i] >= 'a' && s[i] <= 'z') || (s[i] >= 'A' && s[i] <= 'Z') || (s[i]
        >= '0' && s[i] <= '9') || s[i] == '_' || (symbol && (s[i] == '.' || s[i] == '$')))
        invariant
            pos <= i <= s.len(),
            name_end(s@, pos as int, symbol) == name_end(s@, i as int, symbol),
            name@ =~= s@.subrange(pos as int, i as int),
        decreases s.len() - i,
    {
        name.push(s[i]);
        i += 1;
    }
    (name, i)
}

} // verus!
