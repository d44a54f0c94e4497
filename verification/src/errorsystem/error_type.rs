use vstd::prelude::*;
use crate::lang::lexer::token::token_type::TokenType;
use crate::text::{
    push_char,
    push_decimal,
    push_indented,
    spec_decimal,
    spec_indent,
    spec_without_trailing_whitespace,
};

verus! {

/// The closed set of diagnostics, each with the values that its message shows.
#[derive(Debug, PartialEq, Eq)]
pub enum ErrorType<'a> {
    GenericError(&'a str),
    DoubleDecimal,
    DecimalEnding,
    UnknownFile(&'a str),
    DivisionByZero,
    UnknownChar(char),
    UnclosedString,
    UnknownEscapeSequence(char),
    UnexpectedExpression(TokenType, TokenType),
    InvalidInversion(&'a str),
    InvalidOperator(String),
    NoOperatorDefinition(&'a str),
    InvalidIndex(usize),
    NoDefiningScope(&'a str),
    OutOfBounds(usize, usize),
    UnexpectedType(&'a str, &'a str),
    InvalidCall(&'a str),
    UnexpectedArgCount(usize, usize),
    InvalidIteration(&'a str),
    UnknownKeyword(&'a str),
    EmptyFile(&'a str),
    ReachedEndOfFile,
    /// A crash, with the text of the stack trace where one was taken.
    Fatal(String, Option<String>),
}

/// What an `ErrorType` stands for.
pub ghost enum ErrorView {
    GenericError(Seq<char>),
    DoubleDecimal,
    DecimalEnding,
    UnknownFile(Seq<char>),
    DivisionByZero,
    UnknownChar(char),
    UnclosedString,
    UnknownEscapeSequence(char),
    UnexpectedExpression(TokenType, TokenType),
    InvalidInversion(Seq<char>),
    InvalidOperator(Seq<char>),
    NoOperatorDefinition(Seq<char>),
    InvalidIndex(nat),
    NoDefiningScope(Seq<char>),
    OutOfBounds(nat, nat),
    UnexpectedType(Seq<char>, Seq<char>),
    InvalidCall(Seq<char>),
    UnexpectedArgCount(nat, nat),
    InvalidIteration(Seq<char>),
    UnknownKeyword(Seq<char>),
    EmptyFile(Seq<char>),
    ReachedEndOfFile,
    Fatal(Seq<char>, Option<Seq<char>>),
}

/// The message of a diagnostic: its template, with the diagnostic's values put in where the
/// template has a place for one, in the order in which the diagnostic holds them.
pub open spec fn spec_message(e: ErrorView) -> Seq<char> {
    match e {
        ErrorView::GenericError(a1) => "Unknown error occurred during the '"@ + a1 + "' process"@,
        ErrorView::DoubleDecimal => "Cannot have two decimals in a number"@,
        ErrorView::DecimalEnding => "Number cannot end in a decimal"@,
        ErrorView::UnknownFile(a1) => "File or directory '"@ + a1 + "' was unable to be found"@,
        ErrorView::DivisionByZero => "Cannot divide by zero"@,
        ErrorView::UnknownChar(a1) => "Unknown character '"@ + seq![a1] + "' encountered"@,
        ErrorView::UnclosedString => "Unclosed string starting"@,
        ErrorView::UnknownEscapeSequence(a1) => "Escape sequence '"@ + seq![a1] + "' unknown"@,
        ErrorView::UnexpectedExpression(a1, a2) => "Expected "@ + a1.spec_name() + " but got "@ + a2.spec_name(),
        ErrorView::InvalidInversion(a1) => "Type '"@ + a1 + "' cannot be inverted"@,
        ErrorView::InvalidOperator(a1) => "Operator '"@ + a1 + "' is invalid"@,
        ErrorView::NoOperatorDefinition(a1) => "Cannot use operator '"@ + a1 + "' on this type"@,
        ErrorView::InvalidIndex(a1) => "Invalid index '"@ + spec_decimal(a1) + "'"@,
        ErrorView::NoDefiningScope(a1) => "Variable '"@ + a1 + "' undefined"@,
        ErrorView::OutOfBounds(a1, a2) => "Index "@ + spec_decimal(a1) + " out of bounds for range "@ + spec_decimal(a2),
        ErrorView::UnexpectedType(a1, a2) => "Expected type '"@ + a1 + "' but got '"@ + a2 + "' instead"@,
        ErrorView::InvalidCall(a1) => "Type '"@ + a1 + "' cannot be called"@,
        ErrorView::UnexpectedArgCount(a1, a2) => "Expected "@ + spec_decimal(a1) + " args but got "@ + spec_decimal(a2),
        ErrorView::InvalidIteration(a1) => "Type '"@ + a1 + "' is not iterable"@,
        ErrorView::UnknownKeyword(a1) => "Keyword '"@ + a1 + "' unknown"@,
        ErrorView::EmptyFile(a1) => "File '"@ + a1 + "' is empty"@,
        ErrorView::ReachedEndOfFile => "Unexpectedly reached end of file while parsing"@,
        ErrorView::Fatal(a1, a2) => "Glass fatal error: '"@ + a1
            + "' ->\n\t\tPlease report this crash at https://github.com/sb2bg/RustGlass/issues/new?template=glass-crash.md"@
            + match a2 {
            Some(trace) => "\n\n\tStack trace ->\n\t"@ + spec_indent(
                spec_without_trailing_whitespace(trace),
            ),
            None => Seq::empty(),
        },
    }
}

impl<'a> View for ErrorType<'a> {
    type V = ErrorView;

    open spec fn view(&self) -> ErrorView {
        match self {
            ErrorType::GenericError(a1) => ErrorView::GenericError(a1@),
            ErrorType::DoubleDecimal => ErrorView::DoubleDecimal,
            ErrorType::DecimalEnding => ErrorView::DecimalEnding,
            ErrorType::UnknownFile(a1) => ErrorView::UnknownFile(a1@),
            ErrorType::DivisionByZero => ErrorView::DivisionByZero,
            ErrorType::UnknownChar(a1) => ErrorView::UnknownChar(*a1),
            ErrorType::UnclosedString => ErrorView::UnclosedString,
            ErrorType::UnknownEscapeSequence(a1) => ErrorView::UnknownEscapeSequence(*a1),
            ErrorType::UnexpectedExpression(a1, a2) => ErrorView::UnexpectedExpression(*a1, *a2),
            ErrorType::InvalidInversion(a1) => ErrorView::InvalidInversion(a1@),
            ErrorType::InvalidOperator(a1) => ErrorView::InvalidOperator(a1@),
            ErrorType::NoOperatorDefinition(a1) => ErrorView::NoOperatorDefinition(a1@),
            ErrorType::InvalidIndex(a1) => ErrorView::InvalidIndex(*a1 as nat),
            ErrorType::NoDefiningScope(a1) => ErrorView::NoDefiningScope(a1@),
            ErrorType::OutOfBounds(a1, a2) => ErrorView::OutOfBounds(*a1 as nat, *a2 as nat),
            ErrorType::UnexpectedType(a1, a2) => ErrorView::UnexpectedType(a1@, a2@),
            ErrorType::InvalidCall(a1) => ErrorView::InvalidCall(a1@),
            ErrorType::UnexpectedArgCount(a1, a2) => ErrorView::UnexpectedArgCount(*a1 as nat, *a2 as nat),
            ErrorType::InvalidIteration(a1) => ErrorView::InvalidIteration(a1@),
            ErrorType::UnknownKeyword(a1) => ErrorView::UnknownKeyword(a1@),
            ErrorType::EmptyFile(a1) => ErrorView::EmptyFile(a1@),
            ErrorType::ReachedEndOfFile => ErrorView::ReachedEndOfFile,
            ErrorType::Fatal(a1, a2) => ErrorView::Fatal(
                a1@,
                match a2 {
                    Some(trace) => Some(trace@),
                    None => None,
                },
            ),
        }
    }
}

impl<'a> ErrorType<'a> {
    /// The diagnostic's message.
    pub fn message(&self) -> (r: String)
        ensures
            r@ == spec_message(self@),
    {
        let mut out = String::new();
        match self {
            ErrorType::GenericError(a1) => {
                out.append("Unknown error occurred during the '");
                out.append(a1);
                out.append("' process");
            },
            ErrorType::DoubleDecimal => {
                out.append("Cannot have two decimals in a number");
            },
            ErrorType::DecimalEnding => {
                out.append("Number cannot end in a decimal");
            },
            ErrorType::UnknownFile(a1) => {
                out.append("File or directory '");
                out.append(a1);
                out.append("' was unable to be found");
            },
            ErrorType::DivisionByZero => {
                out.append("Cannot divide by zero");
            },
            ErrorType::UnknownChar(a1) => {
                out.append("Unknown character '");
                push_char(&mut out, *a1);
                out.append("' encountered");
            },
            ErrorType::UnclosedString => {
                out.append("Unclosed string starting");
            },
            ErrorType::UnknownEscapeSequence(a1) => {
                out.append("Escape sequence '");
                push_char(&mut out, *a1);
                out.append("' unknown");
            },
            ErrorType::UnexpectedExpression(a1, a2) => {
                out.append("Expected ");
                out.append(a1.name());
                out.append(" but got ");
                out.append(a2.name());
            },
            ErrorType::InvalidInversion(a1) => {
                out.append("Type '");
                out.append(a1);
                out.append("' cannot be inverted");
            },
            ErrorType::InvalidOperator(a1) => {
                out.append("Operator '");
                out.append(a1.as_str());
                out.append("' is invalid");
            },
            ErrorType::NoOperatorDefinition(a1) => {
                out.append("Cannot use operator '");
                out.append(a1);
                out.append("' on this type");
            },
            ErrorType::InvalidIndex(a1) => {
                out.append("Invalid index '");
                push_decimal(&mut out, *a1);
                out.append("'");
            },
            ErrorType::NoDefiningScope(a1) => {
                out.append("Variable '");
                out.append(a1);
                out.append("' undefined");
            },
            ErrorType::OutOfBounds(a1, a2) => {
                out.append("Index ");
                push_decimal(&mut out, *a1);
                out.append(" out of bounds for range ");
                push_decimal(&mut out, *a2);
            },
            ErrorType::UnexpectedType(a1, a2) => {
                out.append("Expected type '");
                out.append(a1);
                out.append("' but got '");
                out.append(a2);
                out.append("' instead");
            },
            ErrorType::InvalidCall(a1) => {
                out.append("Type '");
                out.append(a1);
                out.append("' cannot be called");
            },
            ErrorType::UnexpectedArgCount(a1, a2) => {
                out.append("Expected ");
                push_decimal(&mut out, *a1);
                out.append(" args but got ");
                push_decimal(&mut out, *a2);
            },
            ErrorType::InvalidIteration(a1) => {
                out.append("Type '");
                out.append(a1);
                out.append("' is not iterable");
            },
            ErrorType::UnknownKeyword(a1) => {
                out.append("Keyword '");
                out.append(a1);
                out.append("' unknown");
            },
            ErrorType::EmptyFile(a1) => {
                out.append("File '");
                out.append(a1);
                out.append("' is empty");
            },
            ErrorType::ReachedEndOfFile => {
                out.append("Unexpectedly reached end of file while parsing");
            },
            ErrorType::Fatal(a1, a2) => {
                out.append("Glass fatal error: '");
                out.append(a1.as_str());
                out.append(
                    "' ->\n\t\tPlease report this crash at https://github.com/sb2bg/RustGlass/issues/new?template=glass-crash.md",
                );
                match a2 {
                    Some(trace) => {
                        out.append("\n\n\tStack trace ->\n\t");
                        push_indented(&mut out, trace.as_str());
                    },
                    None => {},
                }
            },
        }
        assert(out@ =~= spec_message(self@));
        out
    }
}

} // verus!
