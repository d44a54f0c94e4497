use vstd::prelude::*;

verus! {

/// The coarse lexical class of one character.
#[derive(Copy, Clone, Debug, PartialEq, Eq, Structural)]
pub enum CharState {
    Whitespace,
    Newline,
    Number,
    Operator,
    Quotation,
    SingleConsumable,
    Letter,
    Underscore,
    Escape,
    Comment,
    Eof,
}

/// An ASCII decimal digit.
pub open spec fn spec_is_digit(c: char) -> bool {
    '0' <= c <= '9'
}

/// An ASCII letter.
pub open spec fn spec_is_letter(c: char) -> bool {
    ('a' <= c <= 'z') || ('A' <= c <= 'Z')
}

/// A statement separator: a line feed or a semicolon.
pub open spec fn spec_is_newline(c: char) -> bool {
    c == '\n' || c == ';'
}

/// A character with Unicode's `White_Space` property.
pub open spec fn spec_is_whitespace(c: char) -> bool {
    let n = c as u32;
    (0x09 <= n <= 0x0D) || n == 0x20 || n == 0x85 || n == 0xA0 || n == 0x1680 || (0x2000 <= n
        <= 0x200A) || n == 0x2028 || n == 0x2029 || n == 0x202F || n == 0x205F || n == 0x3000
}

/// One of the characters that operators are made of.
pub open spec fn spec_is_operator(c: char) -> bool {
    c == '+' || c == '-' || c == '*' || c == '/' || c == '%' || c == '<' || c == '>' || c == '='
        || c == '!'
}

/// One of the punctuation characters that are a token by themselves.
pub open spec fn spec_is_punctuation(c: char) -> bool {
    c == ',' || c == '.' || c == '(' || c == ')' || c == '[' || c == ']' || c == '{' || c == '}'
        || c == ':'
}

/// A character that an identifier or keyword may hold.
pub open spec fn spec_is_identifier_char(c: char) -> bool {
    c == '_' || spec_is_digit(c) || spec_is_letter(c)
}

/// The class of a character, or the character itself where it belongs to none.
/// Earlier rules win: a line feed is a separator, not whitespace.
pub open spec fn spec_state(c: char) -> Result<CharState, char> {
    if spec_is_digit(c) {
        Ok(CharState::Number)
    } else if spec_is_newline(c) {
        Ok(CharState::Newline)
    } else if spec_is_whitespace(c) {
        Ok(CharState::Whitespace)
    } else if spec_is_letter(c) {
        Ok(CharState::Letter)
    } else if spec_is_operator(c) {
        Ok(CharState::Operator)
    } else if spec_is_punctuation(c) {
        Ok(CharState::SingleConsumable)
    } else if c == '"' {
        Ok(CharState::Quotation)
    } else if c == '\\' {
        Ok(CharState::Escape)
    } else if c == '#' {
        Ok(CharState::Comment)
    } else if c == '_' {
        Ok(CharState::Underscore)
    } else if c == '\0' {
        Ok(CharState::Eof)
    } else {
        Err(c)
    }
}

pub fn is_digit(c: char) -> (r: bool)
    ensures
        r == spec_is_digit(c),
{
    '0' <= c && c <= '9'
}

pub fn is_letter(c: char) -> (r: bool)
    ensures
        r == spec_is_letter(c),
{
    ('a' <= c && c <= 'z') || ('A' <= c && c <= 'Z')
}

pub fn is_newline(c: char) -> (r: bool)
    ensures
        r == spec_is_newline(c),
{
    c == '\n' || c == ';'
}

pub fn is_whitespace(c: char) -> (r: bool)
    ensures
        r == spec_is_whitespace(c),
{
    let n: u32 = c as u32;
    (0x09 <= n && n <= 0x0D) || n == 0x20 || n == 0x85 || n == 0xA0 || n == 0x1680 || (0x2000 <= n
        && n <= 0x200A) || n == 0x2028 || n == 0x2029 || n == 0x202F || n == 0x205F || n == 0x3000
}

pub fn is_operator(c: char) -> (r: bool)
    ensures
        r == spec_is_operator(c),
{
    c == '+' || c == '-' || c == '*' || c == '/' || c == '%' || c == '<' || c == '>' || c == '='
        || c == '!'
}

pub fn is_identifier_char(c: char) -> (r: bool)
    ensures
        r == spec_is_identifier_char(c),
{
    c == '_' || is_digit(c) || is_letter(c)
}

impl CharState {
    /// Whether the class is one of `other`.
    pub fn matches(&self, other: &[CharState]) -> (r: bool)
        ensures
            r == other@.contains(*self),
    {
        let mut i: usize = 0;
        while i < other.len()
            invariant
                i <= other.len(),
                forall|k: int| 0 <= k < i ==> other@[k] != *self,
            decreases other.len() - i,
        {
            if other[i] == *self {
                return true;
            }
            i += 1;
        }
        false
    }
}

/// Classifies one character.
pub fn state_from_char(current: char) -> (r: Result<CharState, char>)
    ensures
        r == spec_state(current),
{
    if is_digit(current) {
        Ok(CharState::Number)
    } else if is_newline(current) {
        Ok(CharState::Newline)
    } else if is_whitespace(current) {
        Ok(CharState::Whitespace)
    } else if is_letter(current) {
        Ok(CharState::Letter)
    } else if is_operator(current) {
        Ok(CharState::Operator)
    } else if current == ',' || current == '.' || current == '(' || current == ')' || current
        == '[' || current == ']' || current == '{' || current == '}' || current == ':' {
        Ok(CharState::SingleConsumable)
    } else if current == '"' {
        Ok(CharState::Quotation)
    } else if current == '\\' {
        Ok(CharState::Escape)
    } else if current == '#' {
        Ok(CharState::Comment)
    } else if current == '_' {
        Ok(CharState::Underscore)
    } else if current == '\0' {
        Ok(CharState::Eof)
    } else {
        Err(current)
    }
}

} // verus!
