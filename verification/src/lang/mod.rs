use vstd::prelude::*;
use crate::errorsystem::{Diagnostic, DiagnosticView};
use crate::lang::lexer::scan::spec_lex;
use crate::lang::lexer::token::Token;
use crate::lang::lexer::{spec_tokens, Lexer};
use crate::lang::parser::grammar::spec_parse;
use crate::lang::parser::node::{Node, NodeView};
use crate::lang::parser::Parser;
use crate::text::{spec_trim, trim};

pub mod lexer;
pub mod parser;

verus! {

/// The name under which lines that were typed in are reported.
pub const REPL_FILENAME: &'static str = "REPL";

/// The front end as a whole: the tree of the expression that a source text begins with, or
/// the diagnostic of the lexer or, where the text lexes, of the parser.
pub open spec fn spec_front_end(filename: Seq<char>, source: Seq<char>) -> Result<
    NodeView,
    DiagnosticView,
> {
    match spec_lex(filename, source) {
        Err(e) => Err(e),
        Ok(tokens) => match spec_parse(filename, tokens, 0) {
            Err(e) => Err(e),
            Ok(parsed) => Ok(parsed.node),
        },
    }
}

/// Lexes a whole source text.
pub fn tokenize<'a>(filename: &'a str, source: &'a str) -> (r: Result<
    Vec<Token<'a>>,
    Diagnostic<'a>,
>)
    requires
        source@.len() < usize::MAX,
    ensures
        match spec_lex(filename@, source@) {
            Ok(tokens) => r is Ok && spec_tokens(r->Ok_0@) == tokens,
            Err(e) => r is Err && r->Err_0@ == e,
        },
{
    let mut lexer = Lexer::new(filename, source);
    lexer.lex()
}

/// Lexes a source text and parses the expression that it begins with.
pub fn parse_source<'a>(filename: &'a str, source: &'a str) -> (r: Result<Node, Diagnostic<'a>>)
    requires
        source@.len() < usize::MAX,
    ensures
        match spec_front_end(filename@, source@) {
            Ok(node) => r is Ok && r->Ok_0@ == node,
            Err(e) => r is Err && r->Err_0@ == e,
        },
{
    match tokenize(filename, source) {
        Err(e) => Err(e),
        Ok(tokens) => {
            let mut parser = Parser::for_file(filename, tokens);
            parser.parse()
        },
    }
}

/// The loop that reads lines and answers them, without its input and output: each line is
/// trimmed, lexed and parsed on its own.
pub struct REPL {}

impl REPL {
    pub fn new() -> (r: Self) {
        REPL {  }
    }

    /// Reads one line: the tree of the expression that the trimmed line begins with, or the
    /// diagnostic.
    pub fn read<'a>(&self, input: &'a str) -> (r: Result<Node, Diagnostic<'a>>)
        requires
            input@.len() < usize::MAX,
        ensures
            match spec_front_end(REPL_FILENAME@, spec_trim(input@)) {
                Ok(node) => r is Ok && r->Ok_0@ == node,
                Err(e) => r is Err && r->Err_0@ == e,
            },
    {
        let line = trim(input);
        parse_source(REPL_FILENAME, line)
    }
}

} // verus!
