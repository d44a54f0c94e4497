use vstd::prelude::*;
use crate::errorsystem::error_type::ErrorView;
use crate::errorsystem::DiagnosticView;
use crate::lang::lexer::laws::{
    lemma_lex_empty,
    lemma_lexed_numbers_are_literals,
    spec_numbers_are_literals,
};
use crate::lang::lexer::scan::spec_lex;
use crate::lang::lexer::token::token_type::TokenType;
use crate::lang::lexer::token::TokenView;
use crate::lang::parser::grammar::{
    spec_chain,
    spec_expect,
    spec_operand,
    spec_parse,
    spec_primary,
    spec_tail,
    spec_unary,
    Level,
    Parsed,
};
use crate::lang::parser::node::NodeView;
use crate::lang::spec_front_end;

verus! {

/// What holds of every result of a grammar rule that begins at token `i`: an expression is
/// read from at least one token and from no more than there are; a failure is the end of the
/// tokens or an unexpected token, and a number that cannot be read only where some `Number`
/// token holds no number literal.
pub open spec fn spec_sound(tokens: Seq<TokenView>, i: nat, r: Result<Parsed, DiagnosticView>)
    -> bool {
    match r {
        Ok(p) => 1 <= p.used && i + p.used <= tokens.len(),
        Err(e) => match e.kind {
            ErrorView::ReachedEndOfFile => e.pos is None,
            ErrorView::UnexpectedExpression(_, _) => e.pos is Some,
            ErrorView::GenericError(_) => !spec_numbers_are_literals(tokens),
            _ => false,
        },
    }
}

proof fn lemma_primary_sound(tokens: Seq<TokenView>, i: nat)
    ensures
        spec_sound(tokens, i, spec_primary(tokens, i)),
    decreases tokens.len() - i, 0nat,
{
    if i < tokens.len() {
        let token = tokens[i as int];
        if token.kind == TokenType::Lparen {
            lemma_chain_sound(tokens, i + 1, Level::Equality, None);
        }
    }
}

proof fn lemma_unary_sound(tokens: Seq<TokenView>, i: nat)
    ensures
        spec_sound(tokens, i, spec_unary(tokens, i)),
    decreases tokens.len() - i, 1nat,
{
    if i < tokens.len() && crate::lang::parser::grammar::spec_is_prefix(tokens[i as int].kind) {
        lemma_unary_sound(tokens, i + 1);
    } else {
        lemma_primary_sound(tokens, i);
    }
}

proof fn lemma_operand_sound(tokens: Seq<TokenView>, i: nat, level: Level)
    ensures
        spec_sound(tokens, i, spec_operand(tokens, i, level)),
    decreases tokens.len() - i, (crate::lang::parser::grammar::spec_rank(level) - 1) as nat,
{
    match level {
        Level::Equality => lemma_chain_sound(tokens, i, Level::Comparison, None),
        Level::Comparison => lemma_chain_sound(tokens, i, Level::Term, None),
        Level::Term => lemma_chain_sound(tokens, i, Level::Factor, None),
        Level::Factor => lemma_unary_sound(tokens, i),
    }
}

proof fn lemma_chain_sound(
    tokens: Seq<TokenView>,
    i: nat,
    level: Level,
    left: Option<(TokenType, NodeView)>,
)
    ensures
        spec_sound(tokens, i, spec_chain(tokens, i, level, left)),
    decreases tokens.len() - i, crate::lang::parser::grammar::spec_rank(level),
{
    if i < tokens.len() {
        lemma_operand_sound(tokens, i, level);
        if let Ok(operand) = spec_operand(tokens, i, level) {
            lemma_tail_sound(
                tokens,
                i + operand.used,
                level,
                crate::lang::parser::grammar::spec_join(left, operand.node),
                i,
            );
        }
    }
}

proof fn lemma_tail_sound(
    tokens: Seq<TokenView>,
    j: nat,
    level: Level,
    acc: NodeView,
    from: nat,
)
    requires
        from <= j <= tokens.len(),
    ensures
        match spec_tail(tokens, j, level, acc, from) {
            Ok(p) => j + p.used <= tokens.len(),
            Err(e) => spec_sound(tokens, j, Err(e)),
        },
    decreases tokens.len() - from, (crate::lang::parser::grammar::spec_rank(level) - 2) as nat,
{
    if j < tokens.len() && crate::lang::parser::grammar::spec_is_operator_of(
        level,
        tokens[j as int].kind,
    ) {
        lemma_chain_sound(tokens, j + 1, level, Some((tokens[j as int].kind, acc)));
    }
}

/// Parsing reads an expression from at least one token and from no more than there are.
/// It fails for want of tokens (no token at all is `EmptyFile`, the end of the tokens
/// `ReachedEndOfFile`, both without a place), on a token that the grammar does not allow
/// (`UnexpectedExpression`, at the token's place), and on a number that cannot be read only
/// where some `Number` token holds no number literal.
pub proof fn lemma_parse_outcome(filename: Seq<char>, tokens: Seq<TokenView>, i: nat)
    ensures
        match spec_parse(filename, tokens, i) {
            Ok(p) => 1 <= p.used && i + p.used <= tokens.len(),
            Err(e) => match e.kind {
                ErrorView::EmptyFile(name) => tokens.len() == 0 && name == filename && e.pos
                    is None,
                ErrorView::ReachedEndOfFile => tokens.len() > 0 && e.pos is None,
                ErrorView::UnexpectedExpression(_, _) => e.pos is Some,
                ErrorView::GenericError(_) => !spec_numbers_are_literals(tokens),
                _ => false,
            },
        },
{
    if tokens.len() > 0 {
        lemma_chain_sound(tokens, i, Level::Equality, None);
    }
}

/// The empty source text fails with `EmptyFile`: it lexes to no token, and no token is
/// nothing to parse.
pub proof fn lemma_empty_source_is_empty_file(filename: Seq<char>)
    ensures
        spec_front_end(filename, Seq::empty()) == Err::<NodeView, DiagnosticView>(
            DiagnosticView { kind: ErrorView::EmptyFile(filename), pos: None },
        ),
{
    lemma_lex_empty(filename);
}

/// The parser reads a number from every `Number` token that the lexer gives it: on the
/// tokens of a source text it never fails with `GenericError`.
pub proof fn lemma_lexed_numbers_parse(filename: Seq<char>, source: Seq<char>, i: nat)
    ensures
        spec_lex(filename, source) matches Ok(tokens) ==> !(spec_parse(filename, tokens, i)
            matches Err(e) && e.kind is GenericError),
{
    lemma_lexed_numbers_are_literals(filename, source, 0, 0, Seq::empty());
    if let Ok(tokens) = spec_lex(filename, source) {
        lemma_parse_outcome(filename, tokens, i);
    }
}

/// What a token gives to the tree: its kind, and its payload where it is a number or a
/// string.
pub open spec fn spec_mark(token: TokenView) -> (TokenType, Seq<char>) {
    if token.kind == TokenType::Number || token.kind == TokenType::String {
        (token.kind, token.text)
    } else {
        (token.kind, Seq::empty())
    }
}

/// The marks of the tokens from `from` up to `to`, the round brackets left out.
pub open spec fn spec_marks(tokens: Seq<TokenView>, from: nat, to: nat) -> Seq<
    (TokenType, Seq<char>),
>
    decreases to,
{
    if from >= to || to > tokens.len() {
        Seq::empty()
    } else {
        let last = tokens[to - 1];
        let before = spec_marks(tokens, from, (to - 1) as nat);
        if last.kind == TokenType::Lparen || last.kind == TokenType::Rparen {
            before
        } else {
            before.push(spec_mark(last))
        }
    }
}

/// The literals and operators of a tree, read from left to right.
pub open spec fn spec_node_marks(node: NodeView) -> Seq<(TokenType, Seq<char>)>
    decreases node,
{
    match node {
        NodeView::Number(text) => seq![(TokenType::Number, text)],
        NodeView::String(text) => seq![(TokenType::String, text)],
        NodeView::Bool(value) => if value {
            seq![(TokenType::True, Seq::empty())]
        } else {
            seq![(TokenType::False, Seq::empty())]
        },
        NodeView::Void => seq![(TokenType::Void, Seq::empty())],
        NodeView::Unary(op, expr) => seq![(op, Seq::empty())] + spec_node_marks(*expr),
        NodeView::BinOp(op, left, right) => spec_node_marks(*left) + seq![(op, Seq::empty())]
            + spec_node_marks(*right),
    }
}

/// The marks of what stands to the left of an operand, with the operator between them.
pub open spec fn spec_left_marks(left: Option<(TokenType, NodeView)>) -> Seq<
    (TokenType, Seq<char>),
> {
    match left {
        Some((op, node)) => spec_node_marks(node) + seq![(op, Seq::empty())],
        None => Seq::empty(),
    }
}

proof fn lemma_marks_join(tokens: Seq<TokenView>, from: nat, mid: nat, to: nat)
    requires
        from <= mid <= to <= tokens.len(),
    ensures
        spec_marks(tokens, from, to) == spec_marks(tokens, from, mid) + spec_marks(tokens, mid, to),
    decreases to - mid,
{
    if mid < to {
        lemma_marks_join(tokens, from, mid, (to - 1) as nat);
        assert(spec_marks(tokens, from, to) =~= spec_marks(tokens, from, mid) + spec_marks(
            tokens,
            mid,
            to,
        ));
    } else {
        assert(spec_marks(tokens, from, to) =~= spec_marks(tokens, from, mid) + spec_marks(
            tokens,
            mid,
            to,
        ));
    }
}

proof fn lemma_marks_one(tokens: Seq<TokenView>, i: nat)
    requires
        i < tokens.len(),
    ensures
        spec_marks(tokens, i, i + 1) == if tokens[i as int].kind == TokenType::Lparen
            || tokens[i as int].kind == TokenType::Rparen {
            Seq::<(TokenType, Seq<char>)>::empty()
        } else {
            seq![spec_mark(tokens[i as int])]
        },
{
    assert(spec_marks(tokens, i, i) =~= Seq::<(TokenType, Seq<char>)>::empty());
    assert(Seq::<(TokenType, Seq<char>)>::empty().push(spec_mark(tokens[i as int]))
        =~= seq![spec_mark(tokens[i as int])]);
}

proof fn lemma_primary_marks(tokens: Seq<TokenView>, i: nat)
    ensures
        spec_primary(tokens, i) matches Ok(p) ==> spec_node_marks(p.node) == spec_marks(
            tokens,
            i,
            i + p.used,
        ),
    decreases tokens.len() - i, 0nat,
{
    if i < tokens.len() {
        lemma_marks_one(tokens, i);
        if tokens[i as int].kind == TokenType::Lparen {
            lemma_chain_marks(tokens, i + 1, Level::Equality, None);
            lemma_chain_sound(tokens, i + 1, Level::Equality, None);
            if let Ok(inner) = spec_chain(tokens, i + 1, Level::Equality, None) {
                let close = i + 1 + inner.used;
                if spec_expect(tokens, close, TokenType::Rparen) is Ok {
                    lemma_marks_one(tokens, close);
                    lemma_marks_join(tokens, i, i + 1, close);
                    lemma_marks_join(tokens, i, close, close + 1);
                    assert(spec_marks(tokens, i, close + 1) =~= spec_node_marks(inner.node));
                }
            }
        }
    }
}

proof fn lemma_unary_marks(tokens: Seq<TokenView>, i: nat)
    ensures
        spec_unary(tokens, i) matches Ok(p) ==> spec_node_marks(p.node) == spec_marks(
            tokens,
            i,
            i + p.used,
        ),
    decreases tokens.len() - i, 1nat,
{
    if i < tokens.len() && crate::lang::parser::grammar::spec_is_prefix(tokens[i as int].kind) {
        lemma_unary_marks(tokens, i + 1);
        lemma_unary_sound(tokens, i + 1);
        if let Ok(operand) = spec_unary(tokens, i + 1) {
            lemma_marks_one(tokens, i);
            lemma_marks_join(tokens, i, i + 1, i + 1 + operand.used);
        }
    } else {
        lemma_primary_marks(tokens, i);
    }
}

proof fn lemma_operand_marks(tokens: Seq<TokenView>, i: nat, level: Level)
    ensures
        spec_operand(tokens, i, level) matches Ok(p) ==> spec_node_marks(p.node) == spec_marks(
            tokens,
            i,
            i + p.used,
        ),
    decreases tokens.len() - i, (crate::lang::parser::grammar::spec_rank(level) - 1) as nat,
{
    match level {
        Level::Equality => lemma_chain_marks(tokens, i, Level::Comparison, None),
        Level::Comparison => lemma_chain_marks(tokens, i, Level::Term, None),
        Level::Term => lemma_chain_marks(tokens, i, Level::Factor, None),
        Level::Factor => lemma_unary_marks(tokens, i),
    }
}

proof fn lemma_chain_marks(
    tokens: Seq<TokenView>,
    i: nat,
    level: Level,
    left: Option<(TokenType, NodeView)>,
)
    ensures
        spec_chain(tokens, i, level, left) matches Ok(p) ==> spec_node_marks(p.node)
            == spec_left_marks(left) + spec_marks(tokens, i, i + p.used),
    decreases tokens.len() - i, crate::lang::parser::grammar::spec_rank(level),
{
    if i < tokens.len() {
        lemma_operand_marks(tokens, i, level);
        lemma_operand_sound(tokens, i, level);
        if let Ok(operand) = spec_operand(tokens, i, level) {
            let acc = crate::lang::parser::grammar::spec_join(left, operand.node);
            let j = i + operand.used;
            lemma_tail_marks(tokens, j, level, acc, i);
            lemma_tail_sound(tokens, j, level, acc, i);
            if let Ok(rest) = spec_tail(tokens, j, level, acc, i) {
                lemma_marks_join(tokens, i, j, j + rest.used);
                assert(spec_node_marks(acc) =~= spec_left_marks(left) + spec_marks(tokens, i, j));
                assert(spec_node_marks(rest.node) =~= spec_left_marks(left) + spec_marks(
                    tokens,
                    i,
                    j + rest.used,
                ));
            }
        }
    }
}

proof fn lemma_tail_marks(tokens: Seq<TokenView>, j: nat, level: Level, acc: NodeView, from: nat)
    requires
        from <= j <= tokens.len(),
    ensures
        spec_tail(tokens, j, level, acc, from) matches Ok(p) ==> spec_node_marks(p.node)
            == spec_node_marks(acc) + spec_marks(tokens, j, j + p.used),
    decreases tokens.len() - from, (crate::lang::parser::grammar::spec_rank(level) - 2) as nat,
{
    if j < tokens.len() && crate::lang::parser::grammar::spec_is_operator_of(
        level,
        tokens[j as int].kind,
    ) {
        let op = tokens[j as int].kind;
        lemma_chain_marks(tokens, j + 1, level, Some((op, acc)));
        lemma_chain_sound(tokens, j + 1, level, Some((op, acc)));
        if let Ok(rest) = spec_chain(tokens, j + 1, level, Some((op, acc))) {
            lemma_marks_one(tokens, j);
            lemma_marks_join(tokens, j, j + 1, j + 1 + rest.used);
            assert(spec_node_marks(rest.node) =~= spec_node_marks(acc) + spec_marks(
                tokens,
                j,
                j + 1 + rest.used,
            ));
        }
    } else {
        assert(spec_marks(tokens, j, j) =~= Seq::<(TokenType, Seq<char>)>::empty());
        assert(spec_node_marks(acc) + spec_marks(tokens, j, j) =~= spec_node_marks(acc));
    }
}

/// The tree holds what the tokens hold, in their order: its literals and operators, read
/// from left to right, are the tokens that the expression was read from, the round
/// brackets left out.
pub proof fn lemma_tree_holds_the_tokens(filename: Seq<char>, tokens: Seq<TokenView>, i: nat)
    ensures
        spec_parse(filename, tokens, i) matches Ok(p) ==> spec_node_marks(p.node) == spec_marks(
            tokens,
            i,
            i + p.used,
        ),
{
    if tokens.len() > 0 {
        lemma_chain_marks(tokens, i, Level::Equality, None);
        if let Ok(p) = spec_chain(tokens, i, Level::Equality, None) {
            assert(spec_left_marks(None) + spec_marks(tokens, i, i + p.used) =~= spec_marks(
                tokens,
                i,
                i + p.used,
            ));
        }
    }
}

} // verus!
