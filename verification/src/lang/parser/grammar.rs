use vstd::prelude::*;
use crate::errorsystem::error_type::ErrorView;
use crate::errorsystem::DiagnosticView;
use crate::lang::lexer::scan::spec_is_number_literal;
use crate::lang::lexer::token::token_type::TokenType;
use crate::lang::lexer::token::TokenView;
use crate::lang::parser::node::NodeView;

verus! {

/// The levels of binary operators, from the loosest to the tightest.
#[derive(Copy, Clone, Debug, PartialEq, Eq, Structural)]
pub enum Level {
    Equality,
    Comparison,
    Term,
    Factor,
}

/// A parsed expression and the number of tokens that it was read from.
pub ghost struct Parsed {
    pub node: NodeView,
    pub used: nat,
}

/// The operators of a level. Comparison takes the two equality operators as well.
pub open spec fn spec_is_operator_of(level: Level, kind: TokenType) -> bool {
    match level {
        Level::Equality => kind == TokenType::EqualEqual || kind == TokenType::NotEqual,
        Level::Comparison => kind == TokenType::EqualEqual || kind == TokenType::NotEqual || kind
            == TokenType::LessThan || kind == TokenType::LessThanEqual || kind
            == TokenType::GreaterThan || kind == TokenType::GreaterThanEqual,
        Level::Term => kind == TokenType::Plus || kind == TokenType::Minus,
        Level::Factor => kind == TokenType::Times || kind == TokenType::Divide || kind
            == TokenType::Mod,
    }
}

/// The prefix operators.
pub open spec fn spec_is_prefix(kind: TokenType) -> bool {
    kind == TokenType::Plus || kind == TokenType::Minus
}

/// The text of the hint that an ill-formed number literal is reported with.
pub open spec fn spec_number_hint() -> Seq<char> {
    "GlassLang failed to parse the lexed number. Please report this error to GitHub"@
}

/// The same result with `by` more tokens used.
pub open spec fn spec_shift(r: Result<Parsed, DiagnosticView>, by: nat) -> Result<
    Parsed,
    DiagnosticView,
> {
    match r {
        Ok(p) => Ok(Parsed { node: p.node, used: p.used + by }),
        Err(e) => Err(e),
    }
}

/// The operand joined to what stands to its left, if anything does.
pub open spec fn spec_join(left: Option<(TokenType, NodeView)>, operand: NodeView) -> NodeView {
    match left {
        Some((op, node)) => NodeView::BinOp(op, Box::new(node), Box::new(operand)),
        None => operand,
    }
}

/// The failure of reading past the last token. It has no place in the source.
pub open spec fn spec_end_of_file() -> DiagnosticView {
    DiagnosticView { kind: ErrorView::ReachedEndOfFile, pos: None }
}

/// Takes the token at `i`, which has to be of the kind `expected`.
pub open spec fn spec_expect(tokens: Seq<TokenView>, i: nat, expected: TokenType) -> Result<
    (),
    DiagnosticView,
> {
    if i >= tokens.len() {
        Err(spec_end_of_file())
    } else if tokens[i as int].kind != expected {
        Err(
            DiagnosticView {
                kind: ErrorView::UnexpectedExpression(expected, tokens[i as int].kind),
                pos: Some(tokens[i as int].pos),
            },
        )
    } else {
        Ok(())
    }
}

/// primary := NUMBER | STRING | "true" | "false" | "void" | "(" expression ")"
pub open spec fn spec_primary(tokens: Seq<TokenView>, i: nat) -> Result<Parsed, DiagnosticView>
    decreases tokens.len() - i, 0nat,
{
    if i >= tokens.len() {
        Err(spec_end_of_file())
    } else {
        let token = tokens[i as int];
        match token.kind {
            TokenType::True => Ok(Parsed { node: NodeView::Bool(true), used: 1 }),
            TokenType::False => Ok(Parsed { node: NodeView::Bool(false), used: 1 }),
            TokenType::Void => Ok(Parsed { node: NodeView::Void, used: 1 }),
            TokenType::String => Ok(Parsed { node: NodeView::String(token.text), used: 1 }),
            TokenType::Number => if spec_is_number_literal(token.text) {
                Ok(Parsed { node: NodeView::Number(token.text), used: 1 })
            } else {
                Err(
                    DiagnosticView {
                        kind: ErrorView::GenericError(spec_number_hint()),
                        pos: Some(token.pos),
                    },
                )
            },
            TokenType::Lparen => match spec_chain(tokens, i + 1, Level::Equality, None) {
                Err(e) => Err(e),
                Ok(inner) => match spec_expect(tokens, i + 1 + inner.used, TokenType::Rparen) {
                    Err(e) => Err(e),
                    Ok(_) => Ok(Parsed { node: inner.node, used: inner.used + 2 }),
                },
            },
            other => Err(
                DiagnosticView {
                    kind: ErrorView::UnexpectedExpression(TokenType::Lparen, other),
                    pos: Some(token.pos),
                },
            ),
        }
    }
}

/// unary := ("+" | "-") unary | primary
pub open spec fn spec_unary(tokens: Seq<TokenView>, i: nat) -> Result<Parsed, DiagnosticView>
    decreases tokens.len() - i, 1nat,
{
    if i < tokens.len() && spec_is_prefix(tokens[i as int].kind) {
        match spec_unary(tokens, i + 1) {
            Err(e) => Err(e),
            Ok(operand) => Ok(
                Parsed {
                    node: NodeView::Unary(tokens[i as int].kind, Box::new(operand.node)),
                    used: operand.used + 1,
                },
            ),
        }
    } else {
        spec_primary(tokens, i)
    }
}

/// The place of a level's chain in the order by which the grammar's rules call each other.
pub open spec fn spec_rank(level: Level) -> nat {
    match level {
        Level::Factor => 3,
        Level::Term => 6,
        Level::Comparison => 9,
        Level::Equality => 12,
    }
}

/// An operand of a level: a chain of the next tighter level, and a unary expression for the
/// tightest.
pub open spec fn spec_operand(tokens: Seq<TokenView>, i: nat, level: Level) -> Result<
    Parsed,
    DiagnosticView,
>
    decreases tokens.len() - i, (spec_rank(level) - 1) as nat,
{
    match level {
        Level::Equality => spec_chain(tokens, i, Level::Comparison, None),
        Level::Comparison => spec_chain(tokens, i, Level::Term, None),
        Level::Term => spec_chain(tokens, i, Level::Factor, None),
        Level::Factor => spec_unary(tokens, i),
    }
}

/// level := operand (operator operand)*, the operators taken from left to right: an operand
/// at `i`, joined to `left`, and then what follows it.
pub open spec fn spec_chain(
    tokens: Seq<TokenView>,
    i: nat,
    level: Level,
    left: Option<(TokenType, NodeView)>,
) -> Result<Parsed, DiagnosticView>
    decreases tokens.len() - i, spec_rank(level),
{
    if i >= tokens.len() {
        Err(spec_end_of_file())
    } else {
        match spec_operand(tokens, i, level) {
            Err(e) => Err(e),
            Ok(operand) => spec_shift(
                spec_tail(tokens, i + operand.used, level, spec_join(left, operand.node), i),
                operand.used,
            ),
        }
    }
}

/// What follows an operand that ends before `j`: where an operator of the level stands at
/// `j`, the rest of the chain with `acc` to its left; else nothing, and `acc` is the whole.
/// `from` is where the operand began.
pub open spec fn spec_tail(
    tokens: Seq<TokenView>,
    j: nat,
    level: Level,
    acc: NodeView,
    from: nat,
) -> Result<Parsed, DiagnosticView>
    decreases tokens.len() - from, (spec_rank(level) - 2) as nat,
{
    if from <= j < tokens.len() && spec_is_operator_of(level, tokens[j as int].kind) {
        spec_shift(spec_chain(tokens, j + 1, level, Some((tokens[j as int].kind, acc))), 1)
    } else {
        Ok(Parsed { node: acc, used: 0 })
    }
}

/// expression := equality
pub open spec fn spec_expression(tokens: Seq<TokenView>, i: nat) -> Result<Parsed, DiagnosticView> {
    spec_chain(tokens, i, Level::Equality, None)
}

/// The parse of a token sequence from `i` on: no tokens at all is a failure of its own kind,
/// reported for the file named `filename`.
pub open spec fn spec_parse(filename: Seq<char>, tokens: Seq<TokenView>, i: nat) -> Result<
    Parsed,
    DiagnosticView,
> {
    if tokens.len() == 0 {
        Err(DiagnosticView { kind: ErrorView::EmptyFile(filename), pos: None })
    } else {
        spec_expression(tokens, i)
    }
}

} // verus!
