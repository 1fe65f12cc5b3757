//! A tokenizer for assembly text. It splits a text into tokens without
//! gaps: every character belongs to exactly one token, and a token's length
//! is that of its text in UTF-8.

use crate::text::{is_digit, is_hex_digit};
use vstd::prelude::*;
use vstd::string::StrSliceExecFns;
use vstd::utf8::{encode_scalar, encode_utf8};

verus! {

#[derive(Debug, Clone, Copy, PartialEq, Eq, Structural)]
pub enum IntBase {
    Binary,
    Octal,
    Decimal,
    Hex,
}

#[derive(Debug, Clone, Copy, PartialEq, Eq, Structural)]
pub enum LiteralKind {
    Int(IntBase),
    Float,
    Char,
    String,
}

#[derive(Debug, Clone, Copy, PartialEq, Eq, Structural)]
pub enum TokenKind {
    Identifier,
    /// A number, a character or a string.
    Literal(LiteralKind),
    Dot,
    Comment,
    Comma,
    Colon,
    LParen,
    RParen,
    LBracket,
    RBracket,
    Plus,
    Minus,
    Star,
    Pound,
    Bang,
    Percent,
    Slash,
    Whitespace,
    /// A character that starts no token.
    Unknown,
    /// The end of the text.
    Eof,
}

#[derive(Debug, Clone, Copy, PartialEq, Eq, Structural)]
pub struct Token {
    pub kind: TokenKind,
    /// The length of the token's text in bytes.
    pub len: u32,
}

impl Token {
    pub fn new(kind: TokenKind, len: u32) -> (res: Self)
        ensures
            res == (Token { kind, len }),
    {
        Token { kind, len }
    }
}

/// The character that a cursor shows where the text has ended.
pub const EOF_CHAR: char = '\0';

/// The character of a text at a position, or `EOF_CHAR` behind its end.
pub open spec fn peek(s: Seq<char>, pos: int) -> char {
    if 0 <= pos < s.len() {
        s[pos]
    } else {
        EOF_CHAR
    }
}

/// The length of a text in bytes, encoded as UTF-8.
pub open spec fn byte_len(s: Seq<char>) -> nat {
    encode_utf8(s).len()
}

/// The byte length of a text is the sum of those of its two parts.
pub proof fn lemma_byte_len_concat(a: Seq<char>, b: Seq<char>)
    ensures
        byte_len(a + b) == byte_len(a) + byte_len(b),
    decreases a.len(),
{
    if a.len() == 0 {
        assert(a + b =~= b);
    } else {
        assert((a + b).drop_first() =~= a.drop_first() + b);
        lemma_byte_len_concat(a.drop_first(), b);
    }
}

/// One more character makes a text longer by that character's encoding.
pub proof fn lemma_byte_len_push(a: Seq<char>, c: char)
    ensures
        byte_len(a.push(c)) == byte_len(a) + encode_scalar(c as u32).len(),
{
    lemma_byte_len_concat(a, seq![c]);
    assert(a.push(c) =~= a + seq![c]);
    assert(seq![c].drop_first() =~= Seq::<char>::empty());
    assert(encode_utf8(seq![c]) =~= encode_scalar(c as u32) + encode_utf8(Seq::<char>::empty()));
}

/// The classes of characters that the tokenizer reads in runs.
#[derive(Debug, Clone, Copy, PartialEq, Eq, Structural)]
pub enum CharClass {
    /// The characters with the Unicode property `White_Space`.
    Whitespace,
    /// The decimal digits.
    Decimal,
    /// The hexadecimal digits, in either case.
    Hex,
    /// What may follow `0f`: decimal digits, `.`, `e`, `E`, `+` and `-`.
    FloatBody,
    /// What an identifier may hold behind its first character.
    IdContinue,
    /// Everything but the line feed.
    NotNewline,
}

pub open spec fn is_whitespace(c: char) -> bool {
    ||| '\u{9}' <= c <= '\u{D}'
    ||| c == ' '
    ||| c == '\u{85}'
    ||| c == '\u{A0}'
    ||| c == '\u{1680}'
    ||| '\u{2000}' <= c <= '\u{200A}'
    ||| c == '\u{2028}'
    ||| c == '\u{2029}'
    ||| c == '\u{202F}'
    ||| c == '\u{205F}'
    ||| c == '\u{3000}'
}

pub open spec fn is_ascii_alphabetic(c: char) -> bool {
    'a' <= c <= 'z' || 'A' <= c <= 'Z'
}

/// Whether an identifier may start with `c`: an ASCII letter or `_`.
pub open spec fn spec_is_id_start(c: char) -> bool {
    is_ascii_alphabetic(c) || c == '_'
}

/// Whether an identifier may go on with `c`: an ASCII letter, a digit, `_`
/// or `@`.
pub open spec fn spec_is_id_continue(c: char) -> bool {
    is_ascii_alphabetic(c) || is_digit(c) || c == '_' || c == '@'
}

impl CharClass {
    pub open spec fn spec_holds(self, c: char) -> bool {
        match self {
            CharClass::Whitespace => is_whitespace(c),
            CharClass::Decimal => is_digit(c),
            CharClass::Hex => is_hex_digit(c),
            CharClass::FloatBody => is_digit(c) || c == '.' || c == 'e' || c == 'E' || c == '+' || c
                == '-',
            CharClass::IdContinue => spec_is_id_continue(c),
            CharClass::NotNewline => c != '\n',
        }
    }

    /// Whether the character belongs to the class.
    #[verifier::when_used_as_spec(spec_holds)]
    pub fn holds(self, c: char) -> (b: bool)
        ensures
            b == self.spec_holds(c),
    {
        match self {
            CharClass::Whitespace => (c >= '\u{9}' && c <= '\u{D}') || c == ' ' || c == '\u{85}'
                || c == '\u{A0}' || c == '\u{1680}' || (c >= '\u{2000}' && c <= '\u{200A}') || c
                == '\u{2028}' || c == '\u{2029}' || c == '\u{202F}' || c == '\u{205F}' || c
                == '\u{3000}',
            CharClass::Decimal => c >= '0' && c <= '9',
            CharClass::Hex => (c >= '0' && c <= '9') || (c >= 'a' && c <= 'f') || (c >= 'A' && c
                <= 'F'),
            CharClass::FloatBody => (c >= '0' && c <= '9') || c == '.' || c == 'e' || c == 'E' || c
                == '+' || c == '-',
            CharClass::IdContinue => is_id_continue(c),
            CharClass::NotNewline => c != '\n',
        }
    }
}

#[verifier::when_used_as_spec(spec_is_id_continue)]
fn is_id_continue(c: char) -> (b: bool)
    ensures
        b == spec_is_id_continue(c),
{
    (c >= 'a' && c <= 'z') || (c >= 'A' && c <= 'Z') || (c >= '0' && c <= '9') || c == '_' || c
        == '@'
}

#[verifier::when_used_as_spec(spec_is_id_start)]
fn is_id_start(c: char) -> (b: bool)
    ensures
        b == spec_is_id_start(c),
{
    (c >= 'a' && c <= 'z') || (c >= 'A' && c <= 'Z') || c == '_'
}

/// Where the run of characters of a class that starts at `pos` ends. A run
/// also ends before `EOF_CHAR`.
pub open spec fn run_end(s: Seq<char>, pos: int, class: CharClass) -> int
    decreases s.len() - pos,
{
    if 0 <= pos < s.len() && s[pos] != EOF_CHAR && class.holds(s[pos]) {
        run_end(s, pos + 1, class)
    } else {
        pos
    }
}

/// Where the exponent of a number ends that starts at `pos`, behind the
/// `e`: an optional sign and a run of decimal digits.
pub open spec fn exponent_end(s: Seq<char>, pos: int) -> int {
    if peek(s, pos) == '-' || peek(s, pos) == '+' {
        run_end(s, pos + 1, CharClass::Decimal)
    } else {
        run_end(s, pos, CharClass::Decimal)
    }
}

/// A number in decimal notation whose first digit ends at `pos`: an
/// integer, or a float if a fraction or an exponent follows the digits.
pub open spec fn decimal_at(s: Seq<char>, pos: int) -> (TokenKind, int) {
    let p = run_end(s, pos, CharClass::Decimal);
    let c = peek(s, p);
    if c == '.' {
        let q = run_end(s, p + 1, CharClass::Decimal);
        if peek(s, q) == 'e' || peek(s, q) == 'E' {
            (TokenKind::Literal(LiteralKind::Float), exponent_end(s, q + 1))
        } else {
            (TokenKind::Literal(LiteralKind::Float), q)
        }
    } else if c == 'e' || c == 'E' {
        (TokenKind::Literal(LiteralKind::Float), exponent_end(s, p + 1))
    } else {
        (TokenKind::Literal(LiteralKind::Int(IntBase::Decimal)), p)
    }
}

/// A number whose first digit `first` ends at `pos`, with where it ends.
/// After a zero, `b`, `x` and `f` (in either case) announce a binary
/// integer, a hexadecimal integer and a float, and a digit from 1 to 8 an
/// octal integer. Every other number is in decimal notation.
pub open spec fn number_at(s: Seq<char>, pos: int, first: char) -> (TokenKind, int) {
    let c = peek(s, pos);
    if first == '0' && (c == 'b' || c == 'B') {
        (TokenKind::Literal(LiteralKind::Int(IntBase::Binary)), run_end(s, pos + 1, CharClass::Decimal))
    } else if first == '0' && (c == 'x' || c == 'X') {
        (TokenKind::Literal(LiteralKind::Int(IntBase::Hex)), run_end(s, pos + 1, CharClass::Hex))
    } else if first == '0' && (c == 'f' || c == 'F') {
        (TokenKind::Literal(LiteralKind::Float), run_end(s, pos + 1, CharClass::FloatBody))
    } else if first == '0' && '1' <= c <= '8' {
        (TokenKind::Literal(LiteralKind::Int(IntBase::Octal)), run_end(s, pos, CharClass::Decimal))
    } else {
        decimal_at(s, pos)
    }
}

/// Where a quoted text ends whose opening quote ends at `pos`: behind the
/// next quote that no backslash stands before, or with the text. A
/// backslash before a backslash or a quote takes that character with it.
pub open spec fn quoted_end(s: Seq<char>, pos: int, quote: char) -> int
    decreases s.len() - pos,
{
    if !(0 <= pos < s.len()) {
        pos
    } else if s[pos] == quote {
        pos + 1
    } else if s[pos] == '\\' && pos + 1 < s.len() && (s[pos + 1] == '\\' || s[pos + 1] == quote) {
        quoted_end(s, pos + 2, quote)
    } else {
        quoted_end(s, pos + 1, quote)
    }
}

/// Where a block comment ends whose body starts at `pos`: behind the next
/// `*/`, or before `EOF_CHAR`.
pub open spec fn block_end(s: Seq<char>, pos: int) -> int
    decreases s.len() - pos,
{
    if !(0 <= pos < s.len()) || s[pos] == EOF_CHAR {
        pos
    } else if s[pos] == '*' && peek(s, pos + 1) == '/' {
        pos + 2
    } else {
        block_end(s, pos + 1)
    }
}

/// The kind of a token of one character that is no start of a longer one.
pub open spec fn punctuation(c: char) -> TokenKind {
    if c == ',' {
        TokenKind::Comma
    } else if c == ':' {
        TokenKind::Colon
    } else if c == '(' {
        TokenKind::LParen
    } else if c == ')' {
        TokenKind::RParen
    } else if c == '[' {
        TokenKind::LBracket
    } else if c == ']' {
        TokenKind::RBracket
    } else if c == '+' {
        TokenKind::Plus
    } else if c == '-' {
        TokenKind::Minus
    } else if c == '*' {
        TokenKind::Star
    } else if c == '#' {
        TokenKind::Pound
    } else if c == '!' {
        TokenKind::Bang
    } else if c == '%' {
        TokenKind::Percent
    } else if c == '.' {
        TokenKind::Dot
    } else {
        TokenKind::Unknown
    }
}

/// The token that starts at `pos`, a position in the text: its kind and
/// where it ends.
pub open spec fn token_at(s: Seq<char>, pos: int) -> (TokenKind, int)
    recommends
        0 <= pos < s.len(),
{
    let c = s[pos];
    if c == '/' {
        if peek(s, pos + 1) == '/' {
            (TokenKind::Comment, run_end(s, pos + 1, CharClass::NotNewline))
        } else if peek(s, pos + 1) == '*' {
            (TokenKind::Comment, block_end(s, pos + 2))
        } else {
            (TokenKind::Slash, pos + 1)
        }
    } else if is_whitespace(c) {
        (TokenKind::Whitespace, run_end(s, pos + 1, CharClass::Whitespace))
    } else if is_digit(c) {
        number_at(s, pos + 1, c)
    } else if c == '"' {
        (TokenKind::Literal(LiteralKind::String), quoted_end(s, pos + 1, '"'))
    } else if c == '\'' {
        (TokenKind::Literal(LiteralKind::Char), quoted_end(s, pos + 1, '\''))
    } else if spec_is_id_start(c) {
        (TokenKind::Identifier, run_end(s, pos + 1, CharClass::IdContinue))
    } else {
        (punctuation(c), pos + 1)
    }
}

/// A run ends no earlier than it starts, and within the text.
pub proof fn lemma_run_bounds(s: Seq<char>, pos: int, class: CharClass)
    requires
        0 <= pos <= s.len(),
    ensures
        pos <= run_end(s, pos, class) <= s.len(),
    decreases s.len() - pos,
{
    if pos < s.len() && s[pos] != EOF_CHAR && class.holds(s[pos]) {
        lemma_run_bounds(s, pos + 1, class);
    }
}

/// A run is known by its characters: all of them are of the class and none
/// is `EOF_CHAR`, and the character behind it, if there is one, is not of
/// the class or is `EOF_CHAR`.
pub proof fn lemma_run_unique(s: Seq<char>, from: int, to: int, class: CharClass)
    requires
        0 <= from <= to <= s.len(),
        forall|i: int| from <= i < to ==> s[i] != EOF_CHAR && class.holds(#[trigger] s[i]),
        to < s.len() ==> s[to] == EOF_CHAR || !class.holds(s[to]),
    ensures
        run_end(s, from, class) == to,
    decreases to - from,
{
    if from < to {
        lemma_run_unique(s, from + 1, to, class);
    }
}

pub proof fn lemma_quoted_bounds(s: Seq<char>, pos: int, quote: char)
    requires
        0 <= pos <= s.len(),
    ensures
        pos <= quoted_end(s, pos, quote) <= s.len(),
    decreases s.len() - pos,
{
    if pos < s.len() && s[pos] != quote {
        if s[pos] == '\\' && pos + 1 < s.len() && (s[pos + 1] == '\\' || s[pos + 1] == quote) {
            lemma_quoted_bounds(s, pos + 2, quote);
        } else {
            lemma_quoted_bounds(s, pos + 1, quote);
        }
    }
}

pub proof fn lemma_block_bounds(s: Seq<char>, pos: int)
    requires
        0 <= pos <= s.len(),
    ensures
        pos <= block_end(s, pos) <= s.len(),
    decreases s.len() - pos,
{
    if pos < s.len() && s[pos] != EOF_CHAR && !(s[pos] == '*' && peek(s, pos + 1) == '/') {
        lemma_block_bounds(s, pos + 1);
    }
}

/// A token takes at least one character, ends within the text, and is of
/// a kind other than `Eof`.
pub proof fn lemma_token_grows(s: Seq<char>, pos: int)
    requires
        0 <= pos < s.len(),
    ensures
        pos < token_at(s, pos).1 <= s.len(),
        token_at(s, pos).0 != TokenKind::Eof,
{
    lemma_run_bounds(s, pos + 1, CharClass::NotNewline);
    lemma_run_bounds(s, pos + 1, CharClass::Whitespace);
    lemma_run_bounds(s, pos + 1, CharClass::IdContinue);
    lemma_quoted_bounds(s, pos + 1, '"');
    lemma_quoted_bounds(s, pos + 1, '\'');
    if pos + 2 <= s.len() {
        lemma_block_bounds(s, pos + 2);
    }
    lemma_number_bounds(s, pos + 1, s[pos]);
}

pub proof fn lemma_exponent_bounds(s: Seq<char>, pos: int)
    requires
        0 <= pos <= s.len(),
    ensures
        pos <= exponent_end(s, pos) <= s.len(),
{
    lemma_run_bounds(s, pos, CharClass::Decimal);
    if pos < s.len() {
        lemma_run_bounds(s, pos + 1, CharClass::Decimal);
    }
}

pub proof fn lemma_number_bounds(s: Seq<char>, pos: int, first: char)
    requires
        0 <= pos <= s.len(),
    ensures
        pos <= number_at(s, pos, first).1 <= s.len(),
        number_at(s, pos, first).0 is Literal,
{
    lemma_run_bounds(s, pos, CharClass::Decimal);
    if pos < s.len() {
        lemma_run_bounds(s, pos + 1, CharClass::Decimal);
        lemma_run_bounds(s, pos + 1, CharClass::Hex);
        lemma_run_bounds(s, pos + 1, CharClass::FloatBody);
    }
    let p = run_end(s, pos, CharClass::Decimal);
    if p < s.len() {
        lemma_exponent_bounds(s, p + 1);
        lemma_run_bounds(s, p + 1, CharClass::Decimal);
        let q = run_end(s, p + 1, CharClass::Decimal);
        if q < s.len() {
            lemma_exponent_bounds(s, q + 1);
        }
    }
}

/// The tokens of a text from `pos` on, in order, up to the end of the
/// text. Each token's length is that of its text in bytes, cut to 32 bits.
pub open spec fn tokens_from(s: Seq<char>, pos: int) -> Seq<Token>
    decreases s.len() - pos,
{
    if 0 <= pos < s.len() {
        let (kind, end) = token_at(s, pos);
        proof {
            lemma_token_grows(s, pos);
        }
        seq![Token { kind, len: byte_len(s.subrange(pos, end)) as u32 }] + tokens_from(s, end)
    } else {
        Seq::empty()
    }
}

/// The sum of the lengths of a sequence of tokens.
pub open spec fn total_len(tokens: Seq<Token>) -> nat
    decreases tokens.len(),
{
    if tokens.len() == 0 {
        0
    } else {
        tokens[0].len as nat + total_len(tokens.drop_first())
    }
}

/// The tokens of a text cover it without gaps: where the text takes no
/// more bytes than 32 bits can count, the lengths of the tokens from `pos`
/// on add up to the bytes of the text from `pos` on.
pub proof fn lemma_tokens_cover(s: Seq<char>, pos: int)
    requires
        0 <= pos <= s.len(),
        byte_len(s) <= u32::MAX,
    ensures
        total_len(tokens_from(s, pos)) == byte_len(s.skip(pos)),
    decreases s.len() - pos,
{
    if pos < s.len() {
        lemma_token_grows(s, pos);
        let (kind, end) = token_at(s, pos);
        lemma_tokens_cover(s, end);
        let token = Token { kind, len: byte_len(s.subrange(pos, end)) as u32 };
        let rest = tokens_from(s, end);
        assert((seq![token] + rest).drop_first() =~= rest);
        lemma_byte_len_concat(s.subrange(pos, end), s.skip(end));
        assert(s.skip(pos) =~= s.subrange(pos, end) + s.skip(end));
        lemma_byte_len_concat(s.take(pos), s.skip(pos));
        assert(s =~= s.take(pos) + s.skip(pos));
    } else {
        assert(s.skip(pos) =~= Seq::<char>::empty());
    }
}

fn utf8_width(c: char) -> (n: usize)
    ensures
        n == encode_scalar(c as u32).len(),
        1 <= n <= 4,
{
    let v = c as u32;
    if v < 0x80 {
        1
    } else if v < 0x800 {
        2
    } else if v < 0x1_0000 {
        3
    } else {
        4
    }
}

/// A place in a text: how many characters stand before it, and how many
/// bytes they take.
#[derive(Clone, Copy)]
struct Mark {
    chars: usize,
    bytes: usize,
}

/// A reader that walks a text one character at a time and keeps count of
/// the bytes it has read since the last token.
pub struct Cursor<'a> {
    input: &'a str,
    chars: Vec<char>,
    start: Mark,
    here: Mark,
}

impl<'a> Cursor<'a> {
    #[verifier::type_invariant]
    spec fn inv(self) -> bool {
        &&& self.chars@ == self.input@
        &&& self.start.chars <= self.here.chars <= self.chars.len()
        &&& self.start.bytes == byte_len(self.chars@.take(self.start.chars as int))
        &&& self.here.bytes == byte_len(self.chars@.take(self.here.chars as int))
        &&& byte_len(self.chars@) <= usize::MAX
    }

    /// The whole text.
    pub closed spec fn text(&self) -> Seq<char> {
        self.chars@
    }

    /// How many characters have been read.
    pub closed spec fn pos(&self) -> int {
        self.here.chars as int
    }

    /// Where the token that is being read starts.
    pub closed spec fn start(&self) -> int {
        self.start.chars as int
    }

    /// The text of the token that is being read.
    pub open spec fn token_text(&self) -> Seq<char> {
        self.text().subrange(self.start(), self.pos())
    }

    pub fn new(input: &'a str) -> (res: Self)
        ensures
            res.text() == input@,
            res.pos() == 0,
            res.start() == 0,
    {
        let chars = crate::text::chars_of(input);
        // The text's bytes are as many as a slice can hold.
        let _ = input.as_bytes().len();
        assert(chars@.take(0) =~= Seq::<char>::empty());
        let origin = Mark { chars: 0, bytes: 0 };
        Cursor { input, chars, start: origin, here: origin }
    }

    /// The text that has not been read.
    pub fn as_str(&self) -> (res: &'a str)
        ensures
            res@ == self.text().skip(self.pos()),
    {
        proof {
            use_type_invariant(self);
        }
        self.input.substring_char(self.here.chars, self.chars.len())
    }

    /// The next character, which stays unread.
    pub fn first(&self) -> (c: char)
        ensures
            c == peek(self.text(), self.pos()),
            0 <= self.start() <= self.pos() <= self.text().len(),
    {
        proof {
            use_type_invariant(self);
        }
        if self.here.chars < self.chars.len() {
            self.chars[self.here.chars]
        } else {
            EOF_CHAR
        }
    }

    /// The character after the next, which stays unread.
    pub fn second(&self) -> (c: char)
        ensures
            c == peek(self.text(), self.pos() + 1),
    {
        proof {
            use_type_invariant(self);
        }
        if self.here.chars < self.chars.len() && self.here.chars + 1 < self.chars.len() {
            self.chars[self.here.chars + 1]
        } else {
            EOF_CHAR
        }
    }

    /// Reads one character, if the text has not ended.
    pub fn bump(&mut self) -> (res: Option<char>)
        ensures
            final(self).text() == old(self).text(),
            final(self).start() == old(self).start(),
            0 <= final(self).start() <= final(self).pos() <= final(self).text().len(),
            old(self).pos() < old(self).text().len() ==> res == Some(
                old(self).text()[old(self).pos()],
            ) && final(self).pos() == old(self).pos() + 1,
            old(self).pos() >= old(self).text().len() ==> res is None && final(self).pos() == old(
                self,
            ).pos(),
    {
        proof {
            use_type_invariant(&*self);
        }
        if self.here.chars < self.chars.len() {
            let c = self.chars[self.here.chars];
            proof {
                let s = self.chars@;
                let read = s.take(self.here.chars as int);
                assert(s.take(self.here.chars + 1) =~= read.push(c));
                lemma_byte_len_push(read, c);
                lemma_byte_len_concat(read.push(c), s.skip(self.here.chars + 1));
                assert(s =~= read.push(c) + s.skip(self.here.chars + 1));
            }
            self.here = Mark { chars: self.here.chars + 1, bytes: self.here.bytes + utf8_width(c) };
            Some(c)
        } else {
            None
        }
    }

    /// Whether the next character is `EOF_CHAR`: the text has ended, or it
    /// holds that character here.
    pub fn is_eof(&self) -> (b: bool)
        ensures
            b == (peek(self.text(), self.pos()) == EOF_CHAR),
    {
        self.first() == EOF_CHAR
    }

    fn position(&self) -> (len: u32)
        ensures
            len == byte_len(self.token_text()) as u32,
    {
        proof {
            use_type_invariant(self);
            let s = self.chars@;
            lemma_byte_len_concat(s.take(self.start.chars as int), self.token_text());
            assert(s.take(self.here.chars as int) =~= s.take(self.start.chars as int)
                + self.token_text());
        }
        #[verifier::truncate]
        ((self.here.bytes - self.start.bytes) as u32)
    }

    fn reset_position(&mut self)
        ensures
            final(self).text() == old(self).text(),
            final(self).pos() == old(self).pos(),
            final(self).start() == old(self).pos(),
    {
        proof {
            use_type_invariant(&*self);
        }
        self.start = self.here;
    }

    /// Reads on while `f` holds of the next character and that character
    /// is not `EOF_CHAR`.
    pub fn eat_while<F: Fn(char) -> bool>(&mut self, f: F)
        requires
            forall|c: char| f.requires((c,)),
        ensures
            final(self).text() == old(self).text(),
            final(self).start() == old(self).start(),
            0 <= old(self).pos() <= final(self).pos() <= final(self).text().len(),
            forall|i: int|
                old(self).pos() <= i < final(self).pos() ==> old(self).text()[i] != EOF_CHAR
                    && f.ensures((#[trigger] old(self).text()[i],), true),
            final(self).pos() < final(self).text().len() ==> {
                let c = final(self).text()[final(self).pos()];
                c == EOF_CHAR || f.ensures((c,), false)
            },
    {
        proof {
            use_type_invariant(&*self);
        }
        loop
            invariant
                self.text() == old(self).text(),
                self.start() == old(self).start(),
                0 <= old(self).pos() <= self.pos() <= self.text().len(),
                forall|c: char| f.requires((c,)),
                forall|i: int|
                    old(self).pos() <= i < self.pos() ==> old(self).text()[i] != EOF_CHAR
                        && f.ensures((#[trigger] old(self).text()[i],), true),
            ensures
                self.pos() < self.text().len() ==> {
                    let c = self.text()[self.pos()];
                    c == EOF_CHAR || f.ensures((c,), false)
                },
            decreases self.text().len() - self.pos(),
        {
            let c = self.first();
            if !f(c) {
                break ;
            }
            if c == EOF_CHAR {
                break ;
            }
            self.bump();
        }
    }

    fn eat(&mut self, class: CharClass)
        ensures
            final(self).text() == old(self).text(),
            final(self).start() == old(self).start(),
            final(self).pos() == run_end(old(self).text(), old(self).pos(), class),
            0 <= old(self).pos() <= final(self).pos() <= final(self).text().len(),
    {
        let f = |c: char| -> (b: bool)
            ensures
                b == class.holds(c),
            { class.holds(c) };
        self.eat_while(f);
        proof {
            lemma_run_unique(self.text(), old(self).pos(), self.pos(), class);
        }
    }

    fn whitespace(&mut self)
        ensures
            final(self).text() == old(self).text(),
            final(self).start() == old(self).start(),
            final(self).pos() == run_end(old(self).text(), old(self).pos(), CharClass::Whitespace),
    {
        self.eat(CharClass::Whitespace);
    }

    fn eat_decimal(&mut self)
        ensures
            final(self).text() == old(self).text(),
            final(self).start() == old(self).start(),
            final(self).pos() == run_end(old(self).text(), old(self).pos(), CharClass::Decimal),
            0 <= old(self).pos() <= final(self).pos() <= final(self).text().len(),
    {
        self.eat(CharClass::Decimal);
    }

    fn eat_hex(&mut self)
        ensures
            final(self).text() == old(self).text(),
            final(self).start() == old(self).start(),
            final(self).pos() == run_end(old(self).text(), old(self).pos(), CharClass::Hex),
    {
        self.eat(CharClass::Hex);
    }

    fn eat_float_exponent(&mut self)
        ensures
            final(self).text() == old(self).text(),
            final(self).start() == old(self).start(),
            final(self).pos() == exponent_end(old(self).text(), old(self).pos()),
    {
        if self.first() == '-' || self.first() == '+' {
            self.bump();
        }
        self.eat_decimal();
    }

    fn identifier(&mut self)
        ensures
            final(self).text() == old(self).text(),
            final(self).start() == old(self).start(),
            final(self).pos() == run_end(old(self).text(), old(self).pos(), CharClass::IdContinue),
    {
        self.eat(CharClass::IdContinue);
    }

    fn line_comment(&mut self) -> (kind: TokenKind)
        ensures
            kind == TokenKind::Comment,
            final(self).text() == old(self).text(),
            final(self).start() == old(self).start(),
            final(self).pos() == run_end(old(self).text(), old(self).pos(), CharClass::NotNewline),
    {
        self.eat(CharClass::NotNewline);
        TokenKind::Comment
    }

    fn block_comment(&mut self) -> (kind: TokenKind)
        requires
            peek(old(self).text(), old(self).pos()) == '*',
        ensures
            kind == TokenKind::Comment,
            final(self).text() == old(self).text(),
            final(self).start() == old(self).start(),
            final(self).pos() == block_end(old(self).text(), old(self).pos() + 1),
    {
        self.bump();
        loop
            invariant_except_break
                block_end(self.text(), self.pos()) == block_end(
                    old(self).text(),
                    old(self).pos() + 1,
                ),
            invariant
                self.text() == old(self).text(),
                self.start() == old(self).start(),
                0 <= self.pos() <= self.text().len(),
            ensures
                self.pos() == block_end(old(self).text(), old(self).pos() + 1),
            decreases self.text().len() - self.pos(),
        {
            if self.is_eof() {
                break ;
            }
            if self.first() == '*' && self.second() == '/' {
                self.bump();
                self.bump();
                break ;
            }
            self.bump();
        }
        TokenKind::Comment
    }

    fn quoted(&mut self, quote: char)
        requires
            quote != '\\',
        ensures
            final(self).text() == old(self).text(),
            final(self).start() == old(self).start(),
            final(self).pos() == quoted_end(old(self).text(), old(self).pos(), quote),
    {
        proof {
            use_type_invariant(&*self);
        }
        loop
            invariant_except_break
                quoted_end(self.text(), self.pos(), quote) == quoted_end(
                    old(self).text(),
                    old(self).pos(),
                    quote,
                ),
            invariant
                self.text() == old(self).text(),
                self.start() == old(self).start(),
                0 <= self.pos() <= self.text().len(),
                quote != '\\',
            ensures
                self.pos() == quoted_end(old(self).text(), old(self).pos(), quote),
            decreases self.text().len() - self.pos(),
        {
            match self.bump() {
                None => {
                    break ;
                },
                Some(c) => {
                    if c == quote {
                        break ;
                    }
                    if c == '\\' && (self.first() == '\\' || self.first() == quote) {
                        self.bump();
                    }
                },
            }
        }
    }

    fn string_literal(&mut self)
        ensures
            final(self).text() == old(self).text(),
            final(self).start() == old(self).start(),
            final(self).pos() == quoted_end(old(self).text(), old(self).pos(), '"'),
    {
        self.quoted('"');
    }

    fn char_literal(&mut self)
        ensures
            final(self).text() == old(self).text(),
            final(self).start() == old(self).start(),
            final(self).pos() == quoted_end(old(self).text(), old(self).pos(), '\''),
    {
        self.quoted('\'');
    }

    fn number_literal(&mut self, first_char: char) -> (kind: TokenKind)
        ensures
            final(self).text() == old(self).text(),
            final(self).start() == old(self).start(),
            (kind, final(self).pos()) == number_at(old(self).text(), old(self).pos(), first_char),
    {
        if first_char == '0' {
            let c = self.first();
            if c == 'b' || c == 'B' {
                self.bump();
                self.eat_decimal();
                return TokenKind::Literal(LiteralKind::Int(IntBase::Binary));
            } else if c == 'x' || c == 'X' {
                self.bump();
                self.eat_hex();
                return TokenKind::Literal(LiteralKind::Int(IntBase::Hex));
            } else if c == 'f' || c == 'F' {
                self.bump();
                self.eat(CharClass::FloatBody);
                return TokenKind::Literal(LiteralKind::Float);
            } else if c >= '1' && c <= '8' {
                self.eat_decimal();
                return TokenKind::Literal(LiteralKind::Int(IntBase::Octal));
            }
        }
        self.eat_decimal();
        let c = self.first();
        if c == '.' {
            self.bump();
            self.eat_decimal();
            let e = self.first();
            if e == 'e' || e == 'E' {
                self.bump();
                self.eat_float_exponent();
            }
            TokenKind::Literal(LiteralKind::Float)
        } else if c == 'e' || c == 'E' {
            self.bump();
            self.eat_float_exponent();
            TokenKind::Literal(LiteralKind::Float)
        } else {
            TokenKind::Literal(LiteralKind::Int(IntBase::Decimal))
        }
    }

    /// Reads the next token. At the end of the text that is a token of
    /// kind `Eof` and length 0. The length of any other is that of the
    /// text read since the last token, in bytes and cut to 32 bits.
    pub fn advance_token(&mut self) -> (token: Token)
        ensures
            final(self).text() == old(self).text(),
            old(self).pos() >= old(self).text().len() ==> {
                &&& token == (Token { kind: TokenKind::Eof, len: 0 })
                &&& final(self).pos() == old(self).pos()
                &&& final(self).start() == old(self).start()
            },
            old(self).pos() < old(self).text().len() ==> {
                &&& (token.kind, final(self).pos()) == token_at(old(self).text(), old(self).pos())
                &&& final(self).start() == final(self).pos()
                &&& token.len == byte_len(
                    old(self).text().subrange(old(self).start(), final(self).pos()),
                ) as u32
            },
    {
        let first_char = match self.bump() {
            Some(c) => c,
            None => {
                return Token::new(TokenKind::Eof, 0);
            },
        };
        let token_kind = if first_char == '/' {
            let next = self.first();
            if next == '/' {
                self.line_comment()
            } else if next == '*' {
                self.block_comment()
            } else {
                TokenKind::Slash
            }
        } else if CharClass::Whitespace.holds(first_char) {
            self.whitespace();
            TokenKind::Whitespace
        } else if first_char >= '0' && first_char <= '9' {
            self.number_literal(first_char)
        } else if first_char == '"' {
            self.string_literal();
            TokenKind::Literal(LiteralKind::String)
        } else if first_char == '\'' {
            self.char_literal();
            TokenKind::Literal(LiteralKind::Char)
        } else if is_id_start(first_char) {
            self.identifier();
            TokenKind::Identifier
        } else if first_char == ',' {
            TokenKind::Comma
        } else if first_char == ':' {
            TokenKind::Colon
        } else if first_char == '(' {
            TokenKind::LParen
        } else if first_char == ')' {
            TokenKind::RParen
        } else if first_char == '[' {
            TokenKind::LBracket
        } else if first_char == ']' {
            TokenKind::RBracket
        } else if first_char == '+' {
            TokenKind::Plus
        } else if first_char == '-' {
            TokenKind::Minus
        } else if first_char == '*' {
            TokenKind::Star
        } else if first_char == '#' {
            TokenKind::Pound
        } else if first_char == '!' {
            TokenKind::Bang
        } else if first_char == '%' {
            TokenKind::Percent
        } else if first_char == '.' {
            TokenKind::Dot
        } else {
            TokenKind::Unknown
        };
        let len = self.position();
        let res = Token::new(token_kind, len);
        self.reset_position();
        res
    }
}

/// Splits a text into its tokens.
pub fn tokenize(input: &str) -> (tokens: Vec<Token>)
    ensures
        tokens@ == tokens_from(input@, 0),
{
    let mut cursor = Cursor::new(input);
    let mut tokens: Vec<Token> = Vec::new();
    loop
        invariant
            cursor.text() == input@,
            cursor.start() == cursor.pos(),
            0 <= cursor.pos() <= input@.len(),
            tokens@ + tokens_from(input@, cursor.pos()) == tokens_from(input@, 0),
        ensures
            tokens@ == tokens_from(input@, 0),
        decreases input@.len() - cursor.pos(),
    {
        let ghost pos = cursor.pos();
        proof {
            if pos < input@.len() {
                lemma_token_grows(input@, pos);
            }
        }
        let token = cursor.advance_token();
        if token.kind != TokenKind::Eof {
            proof {
                let rest = tokens_from(input@, cursor.pos());
                assert(tokens@.push(token) + rest =~= tokens@ + (seq![token] + rest));
            }
            tokens.push(token);
        } else {
            assert(tokens@ + Seq::<Token>::empty() =~= tokens@);
            break ;
        }
    }
    tokens
}

} // verus!
