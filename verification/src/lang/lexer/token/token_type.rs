use vstd::prelude::*;

verus! {

/// The closed set of token kinds that the lexer produces and the parser reads.
#[derive(Copy, Clone, Debug, PartialEq, Eq, Structural)]
pub enum TokenType {
    Plus,
    Minus,
    Times,
    Divide,
    Mod,
    Pow,
    PlusEquals,
    MinusEquals,
    TimesEquals,
    DivideEquals,
    ModEquals,
    PowEquals,
    Not,
    Or,
    GreaterThan,
    GreaterThanEqual,
    LessThan,
    LessThanEqual,
    EqualEqual,
    NotEqual,
    Equal,
    Lambda,
    Number,
    String,
    Identifier,
    True,
    False,
    Void,
    Period,
    Comma,
    Colon,
    Lparen,
    Rparen,
    Lbracket,
    Rbracket,
    Lbrace,
    Rbrace,
    Num,
    Str,
    Bool,
    List,
    Dict,
    Function,
    Func,
    If,
    In,
    Is,
    End,
    Print,
    Println,
    Typeof,
    Newline,
}

impl TokenType {
    /// The kind's name as text, used in diagnostics.
    pub open spec fn spec_name(self) -> Seq<char> {
        match self {
            TokenType::Plus => "Plus"@,
            TokenType::Minus => "Minus"@,
            TokenType::Times => "Times"@,
            TokenType::Divide => "Divide"@,
            TokenType::Mod => "Mod"@,
            TokenType::Pow => "Pow"@,
            TokenType::PlusEquals => "PlusEquals"@,
            TokenType::MinusEquals => "MinusEquals"@,
            TokenType::TimesEquals => "TimesEquals"@,
            TokenType::DivideEquals => "DivideEquals"@,
            TokenType::ModEquals => "ModEquals"@,
            TokenType::PowEquals => "PowEquals"@,
            TokenType::Not => "Not"@,
            TokenType::Or => "Or"@,
            TokenType::GreaterThan => "GreaterThan"@,
            TokenType::GreaterThanEqual => "GreaterThanEqual"@,
            TokenType::LessThan => "LessThan"@,
            TokenType::LessThanEqual => "LessThanEqual"@,
            TokenType::EqualEqual => "EqualEqual"@,
            TokenType::NotEqual => "NotEqual"@,
            TokenType::Equal => "Equal"@,
            TokenType::Lambda => "Lambda"@,
            TokenType::Number => "Number"@,
            TokenType::String => "String"@,
            TokenType::Identifier => "Identifier"@,
            TokenType::True => "True"@,
            TokenType::False => "False"@,
            TokenType::Void => "Void"@,
            TokenType::Period => "Period"@,
            TokenType::Comma => "Comma"@,
            TokenType::Colon => "Colon"@,
            TokenType::Lparen => "Lparen"@,
            TokenType::Rparen => "Rparen"@,
            TokenType::Lbracket => "Lbracket"@,
            TokenType::Rbracket => "Rbracket"@,
            TokenType::Lbrace => "Lbrace"@,
            TokenType::Rbrace => "Rbrace"@,
            TokenType::Num => "Num"@,
            TokenType::Str => "Str"@,
            TokenType::Bool => "Bool"@,
            TokenType::List => "List"@,
            TokenType::Dict => "Dict"@,
            TokenType::Function => "Function"@,
            TokenType::Func => "Func"@,
            TokenType::If => "If"@,
            TokenType::In => "In"@,
            TokenType::Is => "Is"@,
            TokenType::End => "End"@,
            TokenType::Print => "Print"@,
            TokenType::Println => "Println"@,
            TokenType::Typeof => "Typeof"@,
            TokenType::Newline => "Newline"@,
        }
    }

    /// The one lexeme that the kind is written as in source text, where it has one.
    /// Kinds with a payload (numbers, strings, identifiers) and the statement separator have none.
    pub open spec fn spec_lexeme(self) -> Option<Seq<char>> {
        match self {
            TokenType::Plus => Some("+"@),
            TokenType::Minus => Some("-"@),
            TokenType::Times => Some("*"@),
            TokenType::Divide => Some("/"@),
            TokenType::Mod => Some("%"@),
            TokenType::Pow => Some("**"@),
            TokenType::PlusEquals => Some("+="@),
            TokenType::MinusEquals => Some("-="@),
            TokenType::TimesEquals => Some("*="@),
            TokenType::DivideEquals => Some("/="@),
            TokenType::ModEquals => Some("%="@),
            TokenType::PowEquals => Some("**="@),
            TokenType::Not => Some("not"@),
            TokenType::Or => Some("or"@),
            TokenType::GreaterThan => Some(">"@),
            TokenType::GreaterThanEqual => Some(">="@),
            TokenType::LessThan => Some("<"@),
            TokenType::LessThanEqual => Some("<="@),
            TokenType::EqualEqual => Some("=="@),
            TokenType::NotEqual => Some("!="@),
            TokenType::Equal => Some("="@),
            TokenType::Lambda => Some("=>"@),
            TokenType::True => Some("true"@),
            TokenType::False => Some("false"@),
            TokenType::Void => Some("void"@),
            TokenType::Period => Some("."@),
            TokenType::Comma => Some(","@),
            TokenType::Colon => Some(":"@),
            TokenType::Lparen => Some("("@),
            TokenType::Rparen => Some(")"@),
            TokenType::Lbracket => Some("["@),
            TokenType::Rbracket => Some("]"@),
            TokenType::Lbrace => Some("{"@),
            TokenType::Rbrace => Some("}"@),
            TokenType::Num => Some("num"@),
            TokenType::Str => Some("str"@),
            TokenType::Bool => Some("bool"@),
            TokenType::List => Some("list"@),
            TokenType::Dict => Some("dict"@),
            TokenType::Function => Some("function"@),
            TokenType::Func => Some("func"@),
            TokenType::If => Some("if"@),
            TokenType::In => Some("in"@),
            TokenType::Is => Some("is"@),
            TokenType::End => Some("end"@),
            TokenType::Print => Some("print"@),
            TokenType::Println => Some("println"@),
            TokenType::Typeof => Some("typeof"@),
            _ => None,
        }
    }

    pub fn name(&self) -> (r: &'static str)
        ensures
            r@ == self.spec_name(),
    {
        match self {
            TokenType::Plus => "Plus",
            TokenType::Minus => "Minus",
            TokenType::Times => "Times",
            TokenType::Divide => "Divide",
            TokenType::Mod => "Mod",
            TokenType::Pow => "Pow",
            TokenType::PlusEquals => "PlusEquals",
            TokenType::MinusEquals => "MinusEquals",
            TokenType::TimesEquals => "TimesEquals",
            TokenType::DivideEquals => "DivideEquals",
            TokenType::ModEquals => "ModEquals",
            TokenType::PowEquals => "PowEquals",
            TokenType::Not => "Not",
            TokenType::Or => "Or",
            TokenType::GreaterThan => "GreaterThan",
            TokenType::GreaterThanEqual => "GreaterThanEqual",
            TokenType::LessThan => "LessThan",
            TokenType::LessThanEqual => "LessThanEqual",
            TokenType::EqualEqual => "EqualEqual",
            TokenType::NotEqual => "NotEqual",
            TokenType::Equal => "Equal",
            TokenType::Lambda => "Lambda",
            TokenType::Number => "Number",
            TokenType::String => "String",
            TokenType::Identifier => "Identifier",
            TokenType::True => "True",
            TokenType::False => "False",
            TokenType::Void => "Void",
            TokenType::Period => "Period",
            TokenType::Comma => "Comma",
            TokenType::Colon => "Colon",
            TokenType::Lparen => "Lparen",
            TokenType::Rparen => "Rparen",
            TokenType::Lbracket => "Lbracket",
            TokenType::Rbracket => "Rbracket",
            TokenType::Lbrace => "Lbrace",
            TokenType::Rbrace => "Rbrace",
            TokenType::Num => "Num",
            TokenType::Str => "Str",
            TokenType::Bool => "Bool",
            TokenType::List => "List",
            TokenType::Dict => "Dict",
            TokenType::Function => "Function",
            TokenType::Func => "Func",
            TokenType::If => "If",
            TokenType::In => "In",
            TokenType::Is => "Is",
            TokenType::End => "End",
            TokenType::Print => "Print",
            TokenType::Println => "Println",
            TokenType::Typeof => "Typeof",
            TokenType::Newline => "Newline",
        }
    }

    pub fn lexeme(&self) -> (r: Option<&'static str>)
        ensures
            r is Some <==> self.spec_lexeme() is Some,
            r is Some ==> r->0@ == self.spec_lexeme()->0,
    {
        match self {
            TokenType::Plus => Some("+"),
            TokenType::Minus => Some("-"),
            TokenType::Times => Some("*"),
            TokenType::Divide => Some("/"),
            TokenType::Mod => Some("%"),
            TokenType::Pow => Some("**"),
            TokenType::PlusEquals => Some("+="),
            TokenType::MinusEquals => Some("-="),
            TokenType::TimesEquals => Some("*="),
            TokenType::DivideEquals => Some("/="),
            TokenType::ModEquals => Some("%="),
            TokenType::PowEquals => Some("**="),
            TokenType::Not => Some("not"),
            TokenType::Or => Some("or"),
            TokenType::GreaterThan => Some(">"),
            TokenType::GreaterThanEqual => Some(">="),
            TokenType::LessThan => Some("<"),
            TokenType::LessThanEqual => Some("<="),
            TokenType::EqualEqual => Some("=="),
            TokenType::NotEqual => Some("!="),
            TokenType::Equal => Some("="),
            TokenType::Lambda => Some("=>"),
            TokenType::True => Some("true"),
            TokenType::False => Some("false"),
            TokenType::Void => Some("void"),
            TokenType::Period => Some("."),
            TokenType::Comma => Some(","),
            TokenType::Colon => Some(":"),
            TokenType::Lparen => Some("("),
            TokenType::Rparen => Some(")"),
            TokenType::Lbracket => Some("["),
            TokenType::Rbracket => Some("]"),
            TokenType::Lbrace => Some("{"),
            TokenType::Rbrace => Some("}"),
            TokenType::Num => Some("num"),
            TokenType::Str => Some("str"),
            TokenType::Bool => Some("bool"),
            TokenType::List => Some("list"),
            TokenType::Dict => Some("dict"),
            TokenType::Function => Some("function"),
            TokenType::Func => Some("func"),
            TokenType::If => Some("if"),
            TokenType::In => Some("in"),
            TokenType::Is => Some("is"),
            TokenType::End => Some("end"),
            TokenType::Print => Some("print"),
            TokenType::Println => Some("println"),
            TokenType::Typeof => Some("typeof"),
            _ => None,
        }
    }
}

} // verus!
