use vstd::prelude::*;
use crate::lang::lexer::token::token_type::TokenType;
use crate::text::str_eq;

verus! {

/// The table from exact lexeme text to token kind: operators and keywords.
pub open spec fn spec_token(text: Seq<char>) -> Option<TokenType> {
    if text == "+"@ {
        Some(TokenType::Plus)
    } else if text == "-"@ {
        Some(TokenType::Minus)
    } else if text == "*"@ {
        Some(TokenType::Times)
    } else if text == "/"@ {
        Some(TokenType::Divide)
    } else if text == "="@ {
        Some(TokenType::Equal)
    } else if text == "%"@ {
        Some(TokenType::Mod)
    } else if text == "**"@ {
        Some(TokenType::Pow)
    } else if text == ">"@ {
        Some(TokenType::GreaterThan)
    } else if text == ">="@ {
        Some(TokenType::GreaterThanEqual)
    } else if text == "<"@ {
        Some(TokenType::LessThan)
    } else if text == "<="@ {
        Some(TokenType::LessThanEqual)
    } else if text == "=>"@ {
        Some(TokenType::Lambda)
    } else if text == "+="@ {
        Some(TokenType::PlusEquals)
    } else if text == "-="@ {
        Some(TokenType::MinusEquals)
    } else if text == "*="@ {
        Some(TokenType::TimesEquals)
    } else if text == "/="@ {
        Some(TokenType::DivideEquals)
    } else if text == "%="@ {
        Some(TokenType::ModEquals)
    } else if text == "=="@ {
        Some(TokenType::EqualEqual)
    } else if text == "**="@ {
        Some(TokenType::PowEquals)
    } else if text == "!="@ {
        Some(TokenType::NotEqual)
    } else if text == "void"@ {
        Some(TokenType::Void)
    } else if text == "print"@ {
        Some(TokenType::Print)
    } else if text == "println"@ {
        Some(TokenType::Println)
    } else if text == "true"@ {
        Some(TokenType::True)
    } else if text == "false"@ {
        Some(TokenType::False)
    } else if text == "func"@ {
        Some(TokenType::Func)
    } else if text == "end"@ {
        Some(TokenType::End)
    } else if text == "list"@ {
        Some(TokenType::List)
    } else if text == "dict"@ {
        Some(TokenType::Dict)
    } else if text == "function"@ {
        Some(TokenType::Function)
    } else if text == "in"@ {
        Some(TokenType::In)
    } else if text == "if"@ {
        Some(TokenType::If)
    } else if text == "is"@ {
        Some(TokenType::Is)
    } else if text == "bool"@ {
        Some(TokenType::Bool)
    } else if text == "num"@ {
        Some(TokenType::Num)
    } else if text == "or"@ {
        Some(TokenType::Or)
    } else if text == "not"@ {
        Some(TokenType::Not)
    } else if text == "str"@ {
        Some(TokenType::Str)
    } else if text == "typeof"@ {
        Some(TokenType::Typeof)
    } else {
        None
    }
}

/// Looks a lexeme up in the token table.
pub fn get_token(value: &str) -> (r: Option<TokenType>)
    ensures
        r == spec_token(value@),
{
    if str_eq(value, "+") {
        Some(TokenType::Plus)
    } else if str_eq(value, "-") {
        Some(TokenType::Minus)
    } else if str_eq(value, "*") {
        Some(TokenType::Times)
    } else if str_eq(value, "/") {
        Some(TokenType::Divide)
    } else if str_eq(value, "=") {
        Some(TokenType::Equal)
    } else if str_eq(value, "%") {
        Some(TokenType::Mod)
    } else if str_eq(value, "**") {
        Some(TokenType::Pow)
    } else if str_eq(value, ">") {
        Some(TokenType::GreaterThan)
    } else if str_eq(value, ">=") {
        Some(TokenType::GreaterThanEqual)
    } else if str_eq(value, "<") {
        Some(TokenType::LessThan)
    } else if str_eq(value, "<=") {
        Some(TokenType::LessThanEqual)
    } else if str_eq(value, "=>") {
        Some(TokenType::Lambda)
    } else if str_eq(value, "+=") {
        Some(TokenType::PlusEquals)
    } else if str_eq(value, "-=") {
        Some(TokenType::MinusEquals)
    } else if str_eq(value, "*=") {
        Some(TokenType::TimesEquals)
    } else if str_eq(value, "/=") {
        Some(TokenType::DivideEquals)
    } else if str_eq(value, "%=") {
        Some(TokenType::ModEquals)
    } else if str_eq(value, "==") {
        Some(TokenType::EqualEqual)
    } else if str_eq(value, "**=") {
        Some(TokenType::PowEquals)
    } else if str_eq(value, "!=") {
        Some(TokenType::NotEqual)
    } else if str_eq(value, "void") {
        Some(TokenType::Void)
    } else if str_eq(value, "print") {
        Some(TokenType::Print)
    } else if str_eq(value, "println") {
        Some(TokenType::Println)
    } else if str_eq(value, "true") {
        Some(TokenType::True)
    } else if str_eq(value, "false") {
        Some(TokenType::False)
    } else if str_eq(value, "func") {
        Some(TokenType::Func)
    } else if str_eq(value, "end") {
        Some(TokenType::End)
    } else if str_eq(value, "list") {
        Some(TokenType::List)
    } else if str_eq(value, "dict") {
        Some(TokenType::Dict)
    } else if str_eq(value, "function") {
        Some(TokenType::Function)
    } else if str_eq(value, "in") {
        Some(TokenType::In)
    } else if str_eq(value, "if") {
        Some(TokenType::If)
    } else if str_eq(value, "is") {
        Some(TokenType::Is)
    } else if str_eq(value, "bool") {
        Some(TokenType::Bool)
    } else if str_eq(value, "num") {
        Some(TokenType::Num)
    } else if str_eq(value, "or") {
        Some(TokenType::Or)
    } else if str_eq(value, "not") {
        Some(TokenType::Not)
    } else if str_eq(value, "str") {
        Some(TokenType::Str)
    } else if str_eq(value, "typeof") {
        Some(TokenType::Typeof)
    } else {
        None
    }
}

/// The escape table: the character that an escape letter stands for inside a string literal.
pub open spec fn spec_esc(value: char) -> Option<char> {
    if value == 'a' {
        Some('\x07')
    } else if value == 'b' {
        Some('\x08')
    } else if value == 'f' {
        Some('\x0C')
    } else if value == 'n' {
        Some('\n')
    } else if value == 't' {
        Some('\t')
    } else if value == 'r' {
        Some('\r')
    } else if value == '\'' || value == '"' || value == '\\' {
        Some(value)
    } else {
        None
    }
}

/// Resolves an escape letter.
pub fn get_esc(value: char) -> (r: Option<char>)
    ensures
        r == spec_esc(value),
{
    match value {
        'a' => Some('\x07'),
        'b' => Some('\x08'),
        'f' => Some('\x0C'),
        'n' => Some('\n'),
        't' => Some('\t'),
        'r' => Some('\r'),
        '\'' => Some('\''),
        '"' => Some('"'),
        '\\' => Some('\\'),
        _ => None,
    }
}

/// The punctuation table: the kind of a single-character token, and whether the character
/// opens (`Some(true)`) or closes (`Some(false)`) a bracketed group.
pub open spec fn spec_single(value: char) -> Option<(TokenType, Option<bool>)> {
    if value == '(' {
        Some((TokenType::Lparen, Some(true)))
    } else if value == ')' {
        Some((TokenType::Rparen, Some(false)))
    } else if value == '[' {
        Some((TokenType::Lbracket, Some(true)))
    } else if value == ']' {
        Some((TokenType::Rbracket, Some(false)))
    } else if value == '{' {
        Some((TokenType::Lbrace, Some(true)))
    } else if value == '}' {
        Some((TokenType::Rbrace, Some(false)))
    } else if value == ',' {
        Some((TokenType::Comma, None))
    } else if value == ':' {
        Some((TokenType::Colon, None))
    } else if value == '.' {
        Some((TokenType::Period, None))
    } else {
        None
    }
}

/// The kind of a single-character token.
pub open spec fn spec_single_kind(value: char) -> Option<TokenType> {
    match spec_single(value) {
        Some((kind, _)) => Some(kind),
        None => None,
    }
}

/// Looks a punctuation character up.
pub fn get_single(value: char) -> (r: Option<(TokenType, Option<bool>)>)
    ensures
        r == spec_single(value),
{
    match value {
        '(' => Some((TokenType::Lparen, Some(true))),
        ')' => Some((TokenType::Rparen, Some(false))),
        '[' => Some((TokenType::Lbracket, Some(true))),
        ']' => Some((TokenType::Rbracket, Some(false))),
        '{' => Some((TokenType::Lbrace, Some(true))),
        '}' => Some((TokenType::Rbrace, Some(false))),
        ',' => Some((TokenType::Comma, None)),
        ':' => Some((TokenType::Colon, None)),
        '.' => Some((TokenType::Period, None)),
        _ => None,
    }
}

/// Whether the character is in the punctuation table.
pub fn is_single(value: char) -> (r: bool)
    ensures
        r == spec_single(value).is_some(),
{
    get_single(value).is_some()
}

} // verus!
