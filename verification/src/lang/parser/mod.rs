use vstd::prelude::*;
use crate::errorsystem::error_type::ErrorType;
use crate::errorsystem::{Diagnostic, DiagnosticView};
use crate::lang::lexer::char_state::is_digit;
use crate::lang::lexer::spec_tokens;
use crate::lang::lexer::token::token_type::TokenType;
use crate::lang::lexer::token::{Token, TokenView};
use crate::lang::lexer::scan::{spec_all_digits, spec_is_decimal_point_of, spec_is_number_literal};
use crate::lang::parser::grammar::{
    spec_chain,
    spec_end_of_file,
    spec_expect,
    spec_expression,
    spec_is_operator_of,
    spec_is_prefix,
    spec_join,
    spec_operand,
    spec_parse,
    spec_primary,
    spec_rank,
    spec_shift,
    spec_tail,
    spec_unary,
    Level,
    Parsed,
};
use crate::lang::parser::node::{
    BinOpNode,
    BoolNode,
    Node,
    NumberNode,
    StringNode,
    UnaryNode,
    VoidNode,
};
use crate::text::chars_of;

pub mod grammar;
pub mod laws;
pub mod node;

verus! {

/// A parser over a token sequence: the tokens, the cursor, and the name of the file that
/// the tokens were read from.
pub struct Parser<'a> {
    tokens: Vec<Token<'a>>,
    index: usize,
    filename: &'a str,
}

/// What a `Parser` stands for.
pub ghost struct ParserView {
    pub filename: Seq<char>,
    pub tokens: Seq<TokenView>,
    pub index: nat,
}

/// What a parsing call has to return and leave behind, given what the grammar says: the
/// tokens stay, the cursor never goes back nor leaves the tokens, and on success the cursor
/// is behind the tokens that the expression was read from.
pub open spec fn spec_parsed(
    before: ParserView,
    after: ParserView,
    r: Result<Node, Diagnostic>,
    expected: Result<Parsed, DiagnosticView>,
) -> bool {
    &&& after.filename == before.filename
    &&& after.tokens == before.tokens
    &&& before.index <= after.index
    &&& before.index <= before.tokens.len() ==> after.index <= after.tokens.len()
    &&& match expected {
        Ok(p) => r is Ok && r->Ok_0@ == p.node && after.index == before.index + p.used,
        Err(e) => r is Err && r->Err_0@ == e,
    }
}

/// Whether `text` has the form of a number literal.
pub fn is_number_literal(text: &str) -> (r: bool)
    ensures
        r == spec_is_number_literal(text@),
{
    let chars = chars_of(text);
    let n = chars.len();
    let mut i: usize = 0;
    while i < n && is_digit(chars[i])
        invariant
            i <= n,
            n == chars.len(),
            spec_all_digits(chars@, 0, i as int),
        decreases n - i,
    {
        i += 1;
    }
    if i == n {
        return n > 0;
    }
    if chars[i] != '.' || i == 0 || i + 1 >= n {
        assert(!spec_is_number_literal(chars@)) by {
            assert(!spec_all_digits(chars@, 0, n as int));
            assert forall|dot: int| !spec_is_decimal_point_of(chars@, dot) by {
                if dot != i {
                    assert(!crate::lang::lexer::char_state::spec_is_digit(chars@[i as int]));
                }
            }
        }
        return false;
    }
    let mut j: usize = i + 1;
    while j < n && is_digit(chars[j])
        invariant
            i < j <= n,
            n == chars.len(),
            spec_all_digits(chars@, i + 1, j as int),
        decreases n - j,
    {
        j += 1;
    }
    if j == n {
        assert(spec_is_decimal_point_of(chars@, i as int));
        return true;
    }
    assert(!spec_is_number_literal(chars@)) by {
        assert(!spec_all_digits(chars@, 0, n as int));
        assert forall|dot: int| !spec_is_decimal_point_of(chars@, dot) by {
            if dot != i {
                assert(!crate::lang::lexer::char_state::spec_is_digit(chars@[i as int]));
            } else {
                assert(!crate::lang::lexer::char_state::spec_is_digit(chars@[j as int]));
            }
        }
    }
    false
}

/// Whether `kind` is an operator of `level`.
pub fn is_operator_of(level: Level, kind: TokenType) -> (r: bool)
    ensures
        r == spec_is_operator_of(level, kind),
{
    match level {
        Level::Equality => kind == TokenType::EqualEqual || kind == TokenType::NotEqual,
        Level::Comparison => kind == TokenType::EqualEqual || kind == TokenType::NotEqual || kind
            == TokenType::LessThan || kind == TokenType::LessThanEqual || kind
            == TokenType::GreaterThan || kind == TokenType::GreaterThanEqual,
        Level::Term => kind == TokenType::Plus || kind == TokenType::Minus,
        Level::Factor => kind == TokenType::Times || kind == TokenType::Divide || kind
            == TokenType::Mod,
    }
}

impl<'a> View for Parser<'a> {
    type V = ParserView;

    closed spec fn view(&self) -> ParserView {
        ParserView {
            filename: self.filename@,
            tokens: spec_tokens(self.tokens@),
            index: self.index as nat,
        }
    }
}

impl<'a> Parser<'a> {
    /// A parser at the first of `tokens`, for a file without a name.
    pub fn new(tokens: Vec<Token<'a>>) -> (r: Parser<'a>)
        ensures
            r@ == (ParserView { filename: ""@, tokens: spec_tokens(tokens@), index: 0 }),
    {
        Parser { tokens, index: 0, filename: "" }
    }

    /// A parser at the first of `tokens`, which were read from the file named `filename`.
    pub fn for_file(filename: &'a str, tokens: Vec<Token<'a>>) -> (r: Parser<'a>)
        ensures
            r@ == (ParserView { filename: filename@, tokens: spec_tokens(tokens@), index: 0 }),
    {
        Parser { tokens, index: 0, filename }
    }

    /// Parses one expression from the cursor on. The result is the expression's tree, with
    /// the cursor behind its last token, or the diagnostic of the first rule that fails.
    /// Tokens that follow the expression are left where they are.
    pub fn parse(&mut self) -> (r: Result<Node, Diagnostic<'a>>)
        ensures
            spec_parsed(
                old(self)@,
                final(self)@,
                r,
                spec_parse(old(self)@.filename, old(self)@.tokens, old(self)@.index),
            ),
    {
        if self.tokens.len() == 0 {
            return Err(Diagnostic { kind: ErrorType::EmptyFile(self.filename), pos: None });
        }
        self.parse_expression()
    }

    /// The offset of the token under the cursor.
    pub fn position(&self) -> (r: usize)
        ensures
            r == self@.index,
    {
        self.index
    }

    fn parse_expression(&mut self) -> (r: Result<Node, Diagnostic<'a>>)
        ensures
            spec_parsed(
                old(self)@,
                final(self)@,
                r,
                spec_expression(old(self)@.tokens, old(self)@.index),
            ),
        decreases old(self).tokens.len() - old(self).index, 14nat,
    {
        self.parse_equality()
    }

    fn parse_equality(&mut self) -> (r: Result<Node, Diagnostic<'a>>)
        ensures
            spec_parsed(
                old(self)@,
                final(self)@,
                r,
                spec_chain(old(self)@.tokens, old(self)@.index, Level::Equality, None),
            ),
        decreases old(self).tokens.len() - old(self).index, 13nat,
    {
        self.parse_chain(Level::Equality)
    }

    fn parse_comparison(&mut self) -> (r: Result<Node, Diagnostic<'a>>)
        ensures
            spec_parsed(
                old(self)@,
                final(self)@,
                r,
                spec_chain(old(self)@.tokens, old(self)@.index, Level::Comparison, None),
            ),
        decreases old(self).tokens.len() - old(self).index, 10nat,
    {
        self.parse_chain(Level::Comparison)
    }

    fn parse_term(&mut self) -> (r: Result<Node, Diagnostic<'a>>)
        ensures
            spec_parsed(
                old(self)@,
                final(self)@,
                r,
                spec_chain(old(self)@.tokens, old(self)@.index, Level::Term, None),
            ),
        decreases old(self).tokens.len() - old(self).index, 7nat,
    {
        self.parse_chain(Level::Term)
    }

    fn parse_factor(&mut self) -> (r: Result<Node, Diagnostic<'a>>)
        ensures
            spec_parsed(
                old(self)@,
                final(self)@,
                r,
                spec_chain(old(self)@.tokens, old(self)@.index, Level::Factor, None),
            ),
        decreases old(self).tokens.len() - old(self).index, 4nat,
    {
        self.parse_chain(Level::Factor)
    }

    /// An operand of a level: a chain of the next tighter level, or a unary expression.
    fn parse_operand(&mut self, level: Level) -> (r: Result<Node, Diagnostic<'a>>)
        ensures
            spec_parsed(
                old(self)@,
                final(self)@,
                r,
                spec_operand(old(self)@.tokens, old(self)@.index, level),
            ),
        decreases old(self).tokens.len() - old(self).index, (spec_rank(level) - 1) as nat,
    {
        match level {
            Level::Equality => self.parse_comparison(),
            Level::Comparison => self.parse_term(),
            Level::Term => self.parse_factor(),
            Level::Factor => self.parse_unary(),
        }
    }

    /// The operands and operators of one level, joined from left to right.
    fn parse_chain(&mut self, level: Level) -> (r: Result<Node, Diagnostic<'a>>)
        ensures
            spec_parsed(
                old(self)@,
                final(self)@,
                r,
                spec_chain(old(self)@.tokens, old(self)@.index, level, None),
            ),
        decreases old(self).tokens.len() - old(self).index, spec_rank(level),
    {
        if self.at_end() {
            return Err(Diagnostic { kind: ErrorType::ReachedEndOfFile, pos: None });
        }
        let ghost start = self.index as nat;
        let ghost tokens = self@.tokens;
        let mut left = match self.parse_operand(level) {
            Ok(node) => node,
            Err(e) => {
                return Err(e);
            },
        };
        loop
            invariant
                self@.tokens == tokens,
                self@.filename == old(self)@.filename,
                tokens == old(self)@.tokens,
                start == old(self)@.index,
                start < tokens.len(),
                start <= self.index <= tokens.len(),
                spec_chain(tokens, start, level, None) == spec_shift(
                    spec_tail(tokens, self.index as nat, level, left@, self.index as nat),
                    (self.index - start) as nat,
                ),
            decreases tokens.len() - self.index,
        {
            if self.at_end() || !is_operator_of(level, self.peek().get_type()) {
                return Ok(left);
            }
            let ghost at = self.index as nat;
            let ghost acc = left@;
            let op = match self.next_token() {
                Ok(token) => token.get_type(),
                Err(e) => {
                    return Err(e);
                },
            };
            if self.at_end() {
                return Err(Diagnostic { kind: ErrorType::ReachedEndOfFile, pos: None });
            }
            let right = match self.parse_operand(level) {
                Ok(node) => node,
                Err(e) => {
                    return Err(e);
                },
            };
            left = Node::BinOp(BinOpNode::new(op, Box::new(left), Box::new(right)));
            proof {
                let operand = spec_operand(tokens, at + 1, level)->Ok_0;
                assert(left@ == spec_join(Some((op, acc)), operand.node));
                assert(spec_tail(tokens, self.index as nat, level, left@, self.index as nat)
                    == spec_tail(tokens, self.index as nat, level, left@, at + 1));
            }
        }
    }

    fn parse_unary(&mut self) -> (r: Result<Node, Diagnostic<'a>>)
        ensures
            spec_parsed(
                old(self)@,
                final(self)@,
                r,
                spec_unary(old(self)@.tokens, old(self)@.index),
            ),
        decreases old(self).tokens.len() - old(self).index, 1nat,
    {
        if !self.at_end() && is_prefix(self.peek().get_type()) {
            let op = match self.next_token() {
                Ok(token) => token.get_type(),
                Err(e) => {
                    return Err(e);
                },
            };
            match self.parse_unary() {
                Ok(operand) => Ok(Node::Unary(UnaryNode::new(op, Box::new(operand)))),
                Err(e) => Err(e),
            }
        } else {
            self.parse_primary()
        }
    }

    fn parse_primary(&mut self) -> (r: Result<Node, Diagnostic<'a>>)
        ensures
            spec_parsed(
                old(self)@,
                final(self)@,
                r,
                spec_primary(old(self)@.tokens, old(self)@.index),
            ),
        decreases old(self).tokens.len() - old(self).index, 0nat,
    {
        let primary = match self.next_token() {
            Ok(token) => token,
            Err(e) => {
                return Err(e);
            },
        };
        match primary.get_type() {
            TokenType::True => Ok(Node::Bool(BoolNode::new(true))),
            TokenType::False => Ok(Node::Bool(BoolNode::new(false))),
            TokenType::Void => Ok(Node::Void(VoidNode::new())),
            TokenType::String => Ok(Node::String(StringNode::new(primary.get_value().clone()))),
            TokenType::Lparen => {
                let expr = match self.parse_expression() {
                    Ok(node) => node,
                    Err(e) => {
                        return Err(e);
                    },
                };
                match self.expect(TokenType::Rparen) {
                    Ok(_) => Ok(expr),
                    Err(e) => Err(e),
                }
            },
            TokenType::Number => {
                if is_number_literal(primary.get_value().as_str()) {
                    Ok(Node::Number(NumberNode::new(primary.get_value().clone())))
                } else {
                    Err(
                        Diagnostic {
                            kind: ErrorType::GenericError(
                                "GlassLang failed to parse the lexed number. Please report this error to GitHub",
                            ),
                            pos: Some(primary.take_pos()),
                        },
                    )
                }
            },
            other => Err(
                Diagnostic {
                    kind: ErrorType::UnexpectedExpression(TokenType::Lparen, other),
                    pos: Some(primary.take_pos()),
                },
            ),
        }
    }

    /// The token under the cursor, which stays where it is.
    fn peek(&self) -> (r: &Token<'a>)
        requires
            self@.index < self@.tokens.len(),
        ensures
            r@ == self@.tokens[self@.index as int],
    {
        &self.tokens[self.index]
    }

    /// Takes the token under the cursor and moves the cursor behind it. Behind the last token
    /// there is nothing to take.
    fn next_token(&mut self) -> (r: Result<&Token<'a>, Diagnostic<'a>>)
        ensures
            final(self)@.filename == old(self)@.filename,
            final(self)@.tokens == old(self)@.tokens,
            old(self)@.index < old(self)@.tokens.len() ==> r is Ok && r->Ok_0@ == old(
                self,
            )@.tokens[old(self)@.index as int] && final(self)@.index == old(self)@.index + 1,
            old(self)@.index >= old(self)@.tokens.len() ==> r is Err && r->Err_0@
                == spec_end_of_file() && final(self)@.index == old(self)@.index,
    {
        if self.at_end() {
            return Err(Diagnostic { kind: ErrorType::ReachedEndOfFile, pos: None });
        }
        let at = self.index;
        self.index += 1;
        Ok(&self.tokens[at])
    }

    /// Whether the cursor is behind the last token.
    fn at_end(&self) -> (r: bool)
        ensures
            r == (self@.index >= self@.tokens.len()),
            r == (self.index >= self.tokens.len()),
    {
        self.index >= self.tokens.len()
    }

    /// Takes one token, which has to be of the kind `token_type`.
    fn expect(&mut self, token_type: TokenType) -> (r: Result<(), Diagnostic<'a>>)
        ensures
            final(self)@.filename == old(self)@.filename,
            final(self)@.tokens == old(self)@.tokens,
            old(self)@.index <= final(self)@.index,
            old(self)@.index <= old(self)@.tokens.len() ==> final(self)@.index
                <= old(self)@.tokens.len(),
            match spec_expect(old(self)@.tokens, old(self)@.index, token_type) {
                Ok(_) => r is Ok && final(self)@.index == old(self)@.index + 1,
                Err(e) => r is Err && r->Err_0@ == e,
            },
    {
        let current = match self.next_token() {
            Ok(token) => token,
            Err(e) => {
                return Err(e);
            },
        };
        if current.get_type() != token_type {
            return Err(
                Diagnostic {
                    kind: ErrorType::UnexpectedExpression(token_type, current.get_type()),
                    pos: Some(current.take_pos()),
                },
            );
        }
        Ok(())
    }
}

/// Whether `kind` is a prefix operator.
pub fn is_prefix(kind: TokenType) -> (r: bool)
    ensures
        r == spec_is_prefix(kind),
{
    kind == TokenType::Plus || kind == TokenType::Minus
}

} // verus!
