use glass_lang::errorsystem::error_type::ErrorType;
use glass_lang::errorsystem::Diagnostic;
use glass_lang::lang::lexer::position::Position;
use glass_lang::lang::lexer::token::token_type::TokenType;
use glass_lang::lang::lexer::token::Token;
use glass_lang::lang::lexer::Lexer;
use glass_lang::lang::parser::grammar::Level;
use glass_lang::lang::parser::node::{
    BinOpNode, BoolNode, Node, NumberNode, StringNode, UnaryNode, VoidNode,
};
use glass_lang::lang::parser::{is_number_literal, is_operator_of, is_prefix, Parser};
use glass_lang::lang::{parse_source, REPL, REPL_FILENAME};
use glass_lang::text::trim;

fn num(text: &str) -> Node {
    Node::Number(NumberNode::new(text.to_string()))
}

fn bin(op: TokenType, left: Node, right: Node) -> Node {
    Node::BinOp(BinOpNode::new(op, Box::new(left), Box::new(right)))
}

fn un(op: TokenType, expr: Node) -> Node {
    Node::Unary(UnaryNode::new(op, Box::new(expr)))
}

fn parse_ok(source: &str) -> Node {
    parse_source("test", source).unwrap()
}

fn parse_err(source: &str) -> Diagnostic<'_> {
    parse_source("test", source).unwrap_err()
}

#[test]
fn product_binds_tighter_than_sum() {
    let tree = parse_ok("1 + 2 * 3");
    assert_eq!(tree, bin(TokenType::Plus, num("1"), bin(TokenType::Times, num("2"), num("3"))));
    match &tree {
        Node::BinOp(sum) => {
            assert_eq!(sum.op, TokenType::Plus);
            match (&*sum.left, &*sum.right) {
                (Node::Number(one), Node::BinOp(product)) => {
                    assert_eq!(one.value.parse::<f64>().unwrap(), 1.0);
                    assert_eq!(product.op, TokenType::Times);
                    match (&*product.left, &*product.right) {
                        (Node::Number(two), Node::Number(three)) => {
                            assert_eq!(two.value.parse::<f64>().unwrap(), 2.0);
                            assert_eq!(three.value.parse::<f64>().unwrap(), 3.0);
                        }
                        _ => panic!("operands of the product"),
                    }
                }
                _ => panic!("operands of the sum"),
            }
        }
        _ => panic!("a sum"),
    }
}

#[test]
fn parser_over_lexed_tokens() {
    let tokens = Lexer::new("test", "1 + 2 * 3").lex().unwrap();
    let mut parser = Parser::new(tokens);
    let tree = parser.parse().unwrap();
    assert_eq!(tree, bin(TokenType::Plus, num("1"), bin(TokenType::Times, num("2"), num("3"))));
    assert_eq!(parser.position(), 5);
}

#[test]
fn operators_of_one_level_join_from_the_left() {
    assert_eq!(
        parse_ok("1 - 2 + 3"),
        bin(TokenType::Plus, bin(TokenType::Minus, num("1"), num("2")), num("3"))
    );
    assert_eq!(
        parse_ok("8 / 4 % 3 * 2"),
        bin(
            TokenType::Times,
            bin(TokenType::Mod, bin(TokenType::Divide, num("8"), num("4")), num("3")),
            num("2")
        )
    );
}

#[test]
fn comparison_and_equality() {
    assert_eq!(
        parse_ok("1 + 2 < 3 * 4"),
        bin(
            TokenType::LessThan,
            bin(TokenType::Plus, num("1"), num("2")),
            bin(TokenType::Times, num("3"), num("4"))
        )
    );
    assert_eq!(
        parse_ok("1 < 2 == 3 >= 4 != 5 <= 6 > 7"),
        bin(
            TokenType::GreaterThan,
            bin(
                TokenType::LessThanEqual,
                bin(
                    TokenType::NotEqual,
                    bin(
                        TokenType::GreaterThanEqual,
                        bin(TokenType::EqualEqual, bin(TokenType::LessThan, num("1"), num("2")), num("3")),
                        num("4")
                    ),
                    num("5")
                ),
                num("6")
            ),
            num("7")
        )
    );
    assert_eq!(
        parse_ok("true == false"),
        bin(
            TokenType::EqualEqual,
            Node::Bool(BoolNode::new(true)),
            Node::Bool(BoolNode::new(false))
        )
    );
}

#[test]
fn prefix_operators_nest() {
    assert_eq!(parse_ok("-1"), un(TokenType::Minus, num("1")));
    assert_eq!(parse_ok("- + -1"), un(TokenType::Minus, un(TokenType::Plus, un(TokenType::Minus, num("1")))));
    assert_eq!(
        parse_ok("2 * -3"),
        bin(TokenType::Times, num("2"), un(TokenType::Minus, num("3")))
    );
    assert_eq!(
        parse_ok("2 - -3"),
        bin(TokenType::Minus, num("2"), un(TokenType::Minus, num("3")))
    );
}

#[test]
fn brackets_group() {
    assert_eq!(
        parse_ok("(1 + 2) * 3"),
        bin(TokenType::Times, bin(TokenType::Plus, num("1"), num("2")), num("3"))
    );
    assert_eq!(parse_ok("((7))"), num("7"));
    assert_eq!(
        parse_ok("(1\n+\n2)"),
        bin(TokenType::Plus, num("1"), num("2"))
    );
}

#[test]
fn literals() {
    assert_eq!(parse_ok("true"), Node::Bool(BoolNode::new(true)));
    assert_eq!(parse_ok("false"), Node::Bool(BoolNode::new(false)));
    assert_eq!(parse_ok("void"), Node::Void(VoidNode::new()));
    assert_eq!(parse_ok("\"a\\tb\""), Node::String(StringNode::new("a\tb".to_string())));
    assert_eq!(parse_ok("12.50"), num("12.50"));
}

#[test]
fn unmatched_bracket_reaches_the_end() {
    let e = parse_err("(1 + 2");
    assert_eq!(e.kind, ErrorType::ReachedEndOfFile);
    assert_eq!(e.pos, None);
}

#[test]
fn wrong_token_where_a_bracket_closes() {
    let e = parse_err("(1 + 2 3");
    assert_eq!(e.kind, ErrorType::UnexpectedExpression(TokenType::Rparen, TokenType::Number));
    let p = e.pos.unwrap();
    assert_eq!((p.index(), p.row(), p.column()), (7, 1, 8));
}

#[test]
fn token_that_begins_no_expression() {
    let e = parse_err(")");
    assert_eq!(e.kind, ErrorType::UnexpectedExpression(TokenType::Lparen, TokenType::Rparen));
    assert_eq!(e.pos.unwrap().index(), 0);
    let e = parse_err("1 + * 2");
    assert_eq!(e.kind, ErrorType::UnexpectedExpression(TokenType::Lparen, TokenType::Times));
    assert_eq!(e.pos.unwrap().index(), 4);
    let e = parse_err("x");
    assert_eq!(e.kind, ErrorType::UnexpectedExpression(TokenType::Lparen, TokenType::Identifier));
}

#[test]
fn operator_without_operand_reaches_the_end() {
    let e = parse_err("1 +");
    assert_eq!(e.kind, ErrorType::ReachedEndOfFile);
    assert_eq!(e.pos, None);
    let e = parse_err("-");
    assert_eq!(e.kind, ErrorType::ReachedEndOfFile);
    let e = parse_err("(");
    assert_eq!(e.kind, ErrorType::ReachedEndOfFile);
}

#[test]
fn empty_source_is_an_empty_file() {
    let e = parse_err("");
    assert_eq!(e.kind, ErrorType::EmptyFile("test"));
    assert_eq!(e.pos, None);
    let e = parse_err("  # nothing\n");
    assert_eq!(e.kind, ErrorType::EmptyFile("test"));
    let mut parser = Parser::new(Vec::new());
    assert_eq!(parser.parse().unwrap_err().kind, ErrorType::EmptyFile(""));
    let mut parser = Parser::for_file("a.gl", Vec::new());
    assert_eq!(parser.parse().unwrap_err().kind, ErrorType::EmptyFile("a.gl"));
}

#[test]
fn lexing_fails_before_parsing() {
    let e = parse_err("(1 + \"ab");
    assert_eq!(e.kind, ErrorType::UnclosedString);
    assert_eq!(e.pos.unwrap().index(), 8);
}

#[test]
fn number_token_that_is_no_literal() {
    for text in ["", "1e5", ".", "1.", ".5", "1.2.3", "12a", "-1", "1 "] {
        let pos = Position::new("test", "?");
        let token = Token::new(TokenType::Number, Some(text.to_string()), pos);
        let mut parser = Parser::new(vec![token]);
        let e = parser.parse().unwrap_err();
        assert_eq!(
            e.kind,
            ErrorType::GenericError(
                "GlassLang failed to parse the lexed number. Please report this error to GitHub"
            )
        );
        assert_eq!(e.pos, Some(pos));
    }
}

#[test]
fn number_literals() {
    for text in ["0", "7", "123", "0.5", "10.25", "007.100"] {
        assert!(is_number_literal(text), "{}", text);
        assert!(text.parse::<f64>().is_ok());
    }
    for text in ["", ".", "1.", ".5", "1..2", "1.2.3", "a", "1a", "1.a", "+1", "1 ", "٣"] {
        assert!(!is_number_literal(text), "{}", text);
    }
}

#[test]
fn tokens_behind_the_expression_stay() {
    let tokens = Lexer::new("test", "1 2 + 3").lex().unwrap();
    let mut parser = Parser::new(tokens);
    assert_eq!(parser.parse().unwrap(), num("1"));
    assert_eq!(parser.position(), 1);
    assert_eq!(parser.parse().unwrap(), bin(TokenType::Plus, num("2"), num("3")));
    assert_eq!(parser.position(), 4);
    assert_eq!(parser.parse().unwrap_err().kind, ErrorType::ReachedEndOfFile);
}

#[test]
fn levels_and_their_operators() {
    let all = [
        TokenType::EqualEqual,
        TokenType::NotEqual,
        TokenType::LessThan,
        TokenType::LessThanEqual,
        TokenType::GreaterThan,
        TokenType::GreaterThanEqual,
        TokenType::Plus,
        TokenType::Minus,
        TokenType::Times,
        TokenType::Divide,
        TokenType::Mod,
        TokenType::Pow,
        TokenType::Equal,
        TokenType::Number,
    ];
    let of = |level: Level| -> Vec<TokenType> {
        all.iter().copied().filter(|k| is_operator_of(level, *k)).collect()
    };
    assert_eq!(of(Level::Equality), vec![TokenType::EqualEqual, TokenType::NotEqual]);
    assert_eq!(of(Level::Comparison), all[0..6].to_vec());
    assert_eq!(of(Level::Term), vec![TokenType::Plus, TokenType::Minus]);
    assert_eq!(of(Level::Factor), vec![TokenType::Times, TokenType::Divide, TokenType::Mod]);
    assert!(is_prefix(TokenType::Plus));
    assert!(is_prefix(TokenType::Minus));
    assert!(!is_prefix(TokenType::Times));
    assert!(!is_prefix(TokenType::Not));
}

#[test]
fn tree_text() {
    assert_eq!(
        parse_ok("1 + 2 * 3").to_text(),
        "BinOpNode (Number(1) Plus BinOpNode (Number(2) Times Number(3)))"
    );
    assert_eq!(parse_ok("-\"s\"").to_text(), "Unary(Minus String(s))");
    assert_eq!(parse_ok("true").to_text(), "Bool(true)");
    assert_eq!(parse_ok("false").to_text(), "Bool(false)");
    assert_eq!(parse_ok("void").to_text(), "Void");
}

#[test]
fn node_builders() {
    assert_eq!(NumberNode::new("1.5".to_string()).value, "1.5");
    assert_eq!(StringNode::new("s".to_string()).value, "s");
    assert!(BoolNode::new(true).value);
    assert_eq!(VoidNode::new(), VoidNode {});
    let u = UnaryNode::new(TokenType::Minus, Box::new(num("1")));
    assert_eq!(u.op, TokenType::Minus);
    assert_eq!(*u.expr, num("1"));
    let b = BinOpNode::new(TokenType::Mod, Box::new(num("1")), Box::new(num("2")));
    assert_eq!(b.op, TokenType::Mod);
    assert_eq!(*b.left, num("1"));
    assert_eq!(*b.right, num("2"));
}

#[test]
fn trims_both_ends() {
    assert_eq!(trim("  a b \t\n"), "a b");
    assert_eq!(trim("a"), "a");
    assert_eq!(trim(""), "");
    assert_eq!(trim(" \t\u{3000} "), "");
    assert_eq!(trim("\u{00A0}é x\u{2003}"), "é x");
    for text in ["", " ", "x", " x", "x ", "  1 + 2\r\n", "\n\n", "a  b"] {
        assert_eq!(trim(text), text.trim());
    }
}

#[test]
fn repl_reads_a_trimmed_line() {
    let repl = REPL::new();
    assert_eq!(repl.read("  1 + 2 \n").unwrap(), bin(TokenType::Plus, num("1"), num("2")));
    let e = repl.read("   @").unwrap_err();
    assert_eq!(e.kind, ErrorType::UnknownChar('@'));
    let p = e.pos.unwrap();
    assert_eq!((p.index(), p.row(), p.column()), (0, 1, 1));
    assert_eq!(p.filename(), "REPL");
    assert_eq!(REPL_FILENAME, "REPL");
    assert_eq!(repl.read(" \n").unwrap_err().kind, ErrorType::EmptyFile("REPL"));
}

#[test]
fn lexed_numbers_are_read_by_the_parser() {
    for source in ["0", "12", "3.25", "(4.5)", "-0.125", "1.5 + 22 * 0.75"] {
        let tokens = Lexer::new("test", source).lex().unwrap();
        for token in tokens.iter() {
            if token.get_type() == TokenType::Number {
                assert!(is_number_literal(token.get_value()));
                assert!(token.get_value().parse::<f64>().is_ok());
            }
        }
        assert!(Parser::new(tokens).parse().is_ok());
    }
}

#[test]
fn an_expression_is_read_from_at_least_one_token() {
    for source in ["1", "1 + 2", "(1)", "- - 1", "1 2 3", "true == (false)"] {
        let tokens = Lexer::new("test", source).lex().unwrap();
        let count = tokens.len();
        let mut parser = Parser::new(tokens);
        assert!(parser.parse().is_ok());
        assert!(1 <= parser.position() && parser.position() <= count);
    }
}

fn marks_of(node: &Node, out: &mut Vec<(TokenType, String)>) {
    match node {
        Node::Number(n) => out.push((TokenType::Number, n.value.clone())),
        Node::String(n) => out.push((TokenType::String, n.value.clone())),
        Node::Bool(n) => {
            out.push((if n.value { TokenType::True } else { TokenType::False }, String::new()))
        }
        Node::Void(_) => out.push((TokenType::Void, String::new())),
        Node::Unary(n) => {
            out.push((n.op, String::new()));
            marks_of(&n.expr, out);
        }
        Node::BinOp(n) => {
            marks_of(&n.left, out);
            out.push((n.op, String::new()));
            marks_of(&n.right, out);
        }
    }
}

#[test]
fn tree_holds_the_tokens_without_brackets() {
    for source in [
        "1 + 2 * 3",
        "(1 + 2) * -3",
        "((\"a\")) == void != (true < false)",
        "- (4 % 2) / (1)",
        "1 2",
    ] {
        let tokens = Lexer::new("test", source).lex().unwrap();
        let mut parser = Parser::new(Lexer::new("test", source).lex().unwrap());
        let tree = parser.parse().unwrap();
        let mut found = Vec::new();
        marks_of(&tree, &mut found);
        let expected: Vec<(TokenType, String)> = tokens[..parser.position()]
            .iter()
            .filter(|t| t.get_type() != TokenType::Lparen && t.get_type() != TokenType::Rparen)
            .map(|t| (t.get_type(), t.get_value().clone()))
            .collect();
        assert_eq!(found, expected);
    }
}
