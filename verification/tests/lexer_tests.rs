use glass_lang::errorsystem::error_type::ErrorType;
use glass_lang::errorsystem::Diagnostic;
use glass_lang::lang::lexer::token::token_type::TokenType;
use glass_lang::lang::lexer::token::Token;
use glass_lang::lang::lexer::Lexer;
use glass_lang::lang::tokenize;

fn lex_ok(source: &str) -> Vec<Token<'_>> {
    Lexer::new("test", source).lex().unwrap()
}

fn lex_err(source: &str) -> Diagnostic<'_> {
    Lexer::new("test", source).lex().unwrap_err()
}

fn kinds(tokens: &[Token<'_>]) -> Vec<TokenType> {
    tokens.iter().map(|t| t.get_type()).collect()
}

fn place(d: &Diagnostic<'_>) -> (usize, usize, usize) {
    let p = d.pos.unwrap();
    (p.index(), p.row(), p.column())
}

#[test]
fn lexes_arithmetic() {
    let tokens = lex_ok("1 + 2 * 3");
    assert_eq!(
        kinds(&tokens),
        vec![
            TokenType::Number,
            TokenType::Plus,
            TokenType::Number,
            TokenType::Times,
            TokenType::Number
        ]
    );
    assert_eq!(tokens[0].get_value(), "1");
    assert_eq!(tokens[1].get_value(), "");
    assert_eq!(tokens[2].get_value(), "2");
    assert_eq!(tokens[3].get_value(), "");
    assert_eq!(tokens[4].get_value(), "3");
}

#[test]
fn tokens_carry_their_start_position() {
    let tokens = lex_ok("1 + 2 * 3");
    let columns: Vec<usize> = tokens.iter().map(|t| t.take_pos().column()).collect();
    let rows: Vec<usize> = tokens.iter().map(|t| t.take_pos().row()).collect();
    let offsets: Vec<usize> = tokens.iter().map(|t| t.take_pos().index()).collect();
    assert_eq!(columns, vec![1, 3, 5, 7, 9]);
    assert_eq!(rows, vec![1, 1, 1, 1, 1]);
    assert_eq!(offsets, vec![0, 2, 4, 6, 8]);
    assert_eq!(tokens[0].take_pos().filename(), "test");
    assert_eq!(tokens[0].take_pos().source(), "1 + 2 * 3");
}

#[test]
fn positions_follow_lines() {
    let tokens = lex_ok("1\n  22 x");
    assert_eq!(
        kinds(&tokens),
        vec![TokenType::Number, TokenType::Newline, TokenType::Number, TokenType::Identifier]
    );
    let p = tokens[1].take_pos();
    assert_eq!((p.index(), p.row(), p.column()), (1, 1, 2));
    let p = tokens[2].take_pos();
    assert_eq!((p.index(), p.row(), p.column()), (4, 2, 3));
    let p = tokens[3].take_pos();
    assert_eq!((p.index(), p.row(), p.column()), (7, 2, 6));
}

#[test]
fn semicolon_separates_but_starts_no_line() {
    let tokens = lex_ok("1;2");
    assert_eq!(kinds(&tokens), vec![TokenType::Number, TokenType::Newline, TokenType::Number]);
    let p = tokens[2].take_pos();
    assert_eq!((p.index(), p.row(), p.column()), (2, 1, 3));
}

#[test]
fn unterminated_string_fails_at_end_of_input() {
    let e = lex_err("\"ab");
    assert_eq!(e.kind, ErrorType::UnclosedString);
    assert_eq!(place(&e), (3, 1, 4));
}

#[test]
fn string_ends_at_line_feed() {
    let e = lex_err("\"ab\ncd\"");
    assert_eq!(e.kind, ErrorType::UnclosedString);
    assert_eq!(place(&e), (3, 1, 4));
}

#[test]
fn string_may_hold_a_semicolon() {
    let tokens = lex_ok("\"a;b\"");
    assert_eq!(kinds(&tokens), vec![TokenType::String]);
    assert_eq!(tokens[0].get_value(), "a;b");
}

#[test]
fn empty_string_has_no_payload() {
    let tokens = lex_ok("\"\"");
    assert_eq!(kinds(&tokens), vec![TokenType::String]);
    assert_eq!(tokens[0].get_value(), "");
}

#[test]
fn second_decimal_point_fails() {
    let e = lex_err("1.2.3");
    assert_eq!(e.kind, ErrorType::DoubleDecimal);
    assert_eq!(place(&e), (3, 1, 4));
    let e = lex_err("x = 12..5");
    assert_eq!(e.kind, ErrorType::DoubleDecimal);
    assert_eq!(place(&e), (7, 1, 8));
}

#[test]
fn trailing_decimal_point_fails() {
    let e = lex_err("1.");
    assert_eq!(e.kind, ErrorType::DecimalEnding);
    assert_eq!(place(&e), (2, 1, 3));
    let e = lex_err("7. + 2");
    assert_eq!(e.kind, ErrorType::DecimalEnding);
    assert_eq!(place(&e), (2, 1, 3));
}

#[test]
fn decimal_literal_round_trips() {
    for literal in ["3.14", "0.5", "10.0", "123456.789", "0.0"] {
        let tokens = lex_ok(literal);
        assert_eq!(kinds(&tokens), vec![TokenType::Number]);
        assert_eq!(tokens[0].get_value(), literal);
        let value: f64 = tokens[0].get_value().parse().unwrap();
        let expected: f64 = literal.parse().unwrap();
        assert_eq!(value, expected);
        assert_eq!(tokens[0].take_pos().index(), 0);
    }
}

#[test]
fn integer_literal() {
    let tokens = lex_ok("42");
    assert_eq!(kinds(&tokens), vec![TokenType::Number]);
    assert_eq!(tokens[0].get_value(), "42");
}

#[test]
fn escapes_resolve_to_their_characters() {
    let table = [
        ('a', '\x07'),
        ('b', '\x08'),
        ('f', '\x0C'),
        ('n', '\n'),
        ('t', '\t'),
        ('r', '\r'),
        ('\'', '\''),
        ('"', '"'),
        ('\\', '\\'),
    ];
    for (letter, resolved) in table {
        let source = format!("\"\\{}\"", letter);
        let tokens = Lexer::new("test", &source).lex().unwrap();
        assert_eq!(tokens.len(), 1);
        assert_eq!(tokens[0].get_type(), TokenType::String);
        assert_eq!(tokens[0].get_value(), &resolved.to_string());
    }
}

#[test]
fn line_feed_escape_gives_one_line_feed() {
    let tokens = lex_ok("\"\\n\"");
    assert_eq!(tokens[0].get_value(), "\n");
}

#[test]
fn escaped_quote_stays_inside_the_string() {
    let tokens = lex_ok("\"a\\\"b\" 1");
    assert_eq!(kinds(&tokens), vec![TokenType::String, TokenType::Number]);
    assert_eq!(tokens[0].get_value(), "a\"b");
}

#[test]
fn unknown_escape_fails() {
    let e = lex_err("\"a\\qb\"");
    assert_eq!(e.kind, ErrorType::UnknownEscapeSequence('q'));
    assert_eq!(place(&e), (3, 1, 4));
}

#[test]
fn escape_at_end_of_input_is_unclosed() {
    let e = lex_err("\"a\\");
    assert_eq!(e.kind, ErrorType::UnclosedString);
    assert_eq!(place(&e), (3, 1, 4));
}

#[test]
fn separator_inside_brackets_is_passed_over() {
    let expected = vec![
        TokenType::Lparen,
        TokenType::Number,
        TokenType::Comma,
        TokenType::Number,
        TokenType::Rparen,
    ];
    let with_newline = lex_ok("(1,\n2)");
    let with_semicolon = lex_ok("(1,;2)");
    let with_space = lex_ok("(1, 2)");
    assert_eq!(kinds(&with_newline), expected);
    assert_eq!(kinds(&with_semicolon), expected);
    assert_eq!(kinds(&with_space), expected);
    let values = |ts: &[Token<'_>]| -> Vec<String> {
        ts.iter().map(|t| t.get_value().clone()).collect()
    };
    assert_eq!(values(&with_newline), values(&with_space));
}

#[test]
fn separator_is_passed_over_while_any_bracket_is_open() {
    let tokens = lex_ok("[{\n(\n)\n}\n]\n1");
    assert_eq!(
        kinds(&tokens),
        vec![
            TokenType::Lbracket,
            TokenType::Lbrace,
            TokenType::Lparen,
            TokenType::Rparen,
            TokenType::Rbrace,
            TokenType::Rbracket,
            TokenType::Newline,
            TokenType::Number
        ]
    );
}

#[test]
fn separator_outside_brackets_is_a_token() {
    let tokens = lex_ok("1\n2");
    assert_eq!(kinds(&tokens), vec![TokenType::Number, TokenType::Newline, TokenType::Number]);
}

#[test]
fn separators_collapse() {
    let tokens = lex_ok("\n\n1\n;\n\n2;;");
    assert_eq!(
        kinds(&tokens),
        vec![TokenType::Number, TokenType::Newline, TokenType::Number, TokenType::Newline]
    );
}

#[test]
fn bracket_depth_never_goes_below_zero() {
    let tokens = lex_ok("))\n(1\n)");
    assert_eq!(
        kinds(&tokens),
        vec![
            TokenType::Rparen,
            TokenType::Rparen,
            TokenType::Newline,
            TokenType::Lparen,
            TokenType::Number,
            TokenType::Rparen
        ]
    );
}

#[test]
fn lexing_twice_gives_equal_tokens() {
    let source = "x = (1.5 + y) * \"s\\n\"\nprint z # done\n";
    let first = Lexer::new("test", source).lex().unwrap();
    let second = Lexer::new("test", source).lex().unwrap();
    assert_eq!(first.len(), second.len());
    for (a, b) in first.iter().zip(second.iter()) {
        assert_eq!(a.get_type(), b.get_type());
        assert_eq!(a.get_value(), b.get_value());
        assert_eq!(a.take_pos().row(), b.take_pos().row());
        assert_eq!(a.take_pos().column(), b.take_pos().column());
    }
    assert_eq!(first, second);
    let e1 = Lexer::new("test", "1 ? 2").lex().unwrap_err();
    let e2 = Lexer::new("test", "1 ? 2").lex().unwrap_err();
    assert_eq!(e1, e2);
}

#[test]
fn comment_runs_through_its_separator() {
    let tokens = lex_ok("1 # one\n2");
    assert_eq!(kinds(&tokens), vec![TokenType::Number, TokenType::Number]);
    let p = tokens[1].take_pos();
    assert_eq!((p.index(), p.row(), p.column()), (8, 2, 1));
    assert_eq!(lex_ok("# nothing else").len(), 0);
    let tokens = lex_ok("#a;b");
    assert_eq!(kinds(&tokens), vec![TokenType::Identifier]);
    assert_eq!(tokens[0].get_value(), "b");
}

#[test]
fn keywords_and_identifiers() {
    let tokens = lex_ok("if foo_1 true _x typeof functions");
    assert_eq!(
        kinds(&tokens),
        vec![
            TokenType::If,
            TokenType::Identifier,
            TokenType::True,
            TokenType::Identifier,
            TokenType::Typeof,
            TokenType::Identifier
        ]
    );
    assert_eq!(tokens[0].get_value(), "");
    assert_eq!(tokens[1].get_value(), "foo_1");
    assert_eq!(tokens[2].get_value(), "");
    assert_eq!(tokens[3].get_value(), "_x");
    assert_eq!(tokens[5].get_value(), "functions");
}

#[test]
fn number_then_identifier() {
    let tokens = lex_ok("1abc");
    assert_eq!(kinds(&tokens), vec![TokenType::Number, TokenType::Identifier]);
    assert_eq!(tokens[0].get_value(), "1");
    assert_eq!(tokens[1].get_value(), "abc");
}

#[test]
fn operators_take_the_longest_run() {
    let tokens = lex_ok("a >= b **= c => d != e == f ** g = h");
    assert_eq!(
        kinds(&tokens),
        vec![
            TokenType::Identifier,
            TokenType::GreaterThanEqual,
            TokenType::Identifier,
            TokenType::PowEquals,
            TokenType::Identifier,
            TokenType::Lambda,
            TokenType::Identifier,
            TokenType::NotEqual,
            TokenType::Identifier,
            TokenType::EqualEqual,
            TokenType::Identifier,
            TokenType::Pow,
            TokenType::Identifier,
            TokenType::Equal,
            TokenType::Identifier
        ]
    );
}

#[test]
fn unknown_operator_run_fails_at_its_start() {
    let e = lex_err("1 +- 2");
    assert_eq!(e.kind, ErrorType::InvalidOperator("+-".to_string()));
    assert_eq!(place(&e), (2, 1, 3));
    let e = lex_err("!");
    assert_eq!(e.kind, ErrorType::InvalidOperator("!".to_string()));
}

#[test]
fn unknown_character_fails() {
    let e = lex_err("1 @ 2");
    assert_eq!(e.kind, ErrorType::UnknownChar('@'));
    assert_eq!(place(&e), (2, 1, 3));
    let e = lex_err("\\");
    assert_eq!(e.kind, ErrorType::UnknownChar('\\'));
    assert_eq!(place(&e), (0, 1, 1));
}

#[test]
fn nul_ends_the_input() {
    let tokens = lex_ok("1\0 2");
    assert_eq!(kinds(&tokens), vec![TokenType::Number]);
}

#[test]
fn punctuation() {
    let tokens = lex_ok("{}[](),:.");
    assert_eq!(
        kinds(&tokens),
        vec![
            TokenType::Lbrace,
            TokenType::Rbrace,
            TokenType::Lbracket,
            TokenType::Rbracket,
            TokenType::Lparen,
            TokenType::Rparen,
            TokenType::Comma,
            TokenType::Colon,
            TokenType::Period
        ]
    );
}

#[test]
fn leading_period_is_punctuation() {
    let tokens = lex_ok(".5");
    assert_eq!(kinds(&tokens), vec![TokenType::Period, TokenType::Number]);
    assert_eq!(tokens[1].get_value(), "5");
}

#[test]
fn unicode_whitespace_is_passed_over() {
    let tokens = lex_ok("1\u{00A0}\t\u{3000}2");
    assert_eq!(kinds(&tokens), vec![TokenType::Number, TokenType::Number]);
    assert_eq!(tokens[1].take_pos().column(), 5);
}

#[test]
fn empty_source_has_no_tokens() {
    assert_eq!(lex_ok("").len(), 0);
    assert_eq!(lex_ok("   \n ; ").len(), 0);
}

#[test]
fn exhausted_lexer_gives_nothing_more() {
    let mut lexer = Lexer::new("test", "1 2");
    assert_eq!(lexer.lex().unwrap().len(), 2);
    assert_eq!(lexer.lex().unwrap().len(), 0);
    assert_eq!(lexer.get_filename(), "test");
}

#[test]
fn tokenize_lexes_the_whole_text() {
    let tokens = tokenize("file", "a + 1").unwrap();
    assert_eq!(kinds(&tokens), vec![TokenType::Identifier, TokenType::Plus, TokenType::Number]);
    assert_eq!(tokens[0].take_pos().filename(), "file");
    let e = tokenize("file", "a $").unwrap_err();
    assert_eq!(e.kind, ErrorType::UnknownChar('$'));
}

#[test]
fn token_text() {
    let tokens = lex_ok("12 + x \"s\"");
    let texts: Vec<String> = tokens.iter().map(|t| t.to_text()).collect();
    assert_eq!(texts, vec!["Number(12)", "Plus", "Identifier(x)", "String(s)"]);
}

#[test]
fn lexer_shows_its_cursor() {
    let mut lexer = Lexer::new("test", "([\n1");
    let p = lexer.get_position();
    assert_eq!((p.index(), p.row(), p.column()), (0, 1, 1));
    assert_eq!(lexer.get_depth(), 0);
    lexer.lex().unwrap();
    let p = lexer.get_position();
    assert_eq!((p.index(), p.row(), p.column()), (4, 2, 2));
    assert_eq!(lexer.get_depth(), 2);
    let mut lexer = Lexer::new("test", "(1))");
    lexer.lex().unwrap();
    assert_eq!(lexer.get_depth(), 0);
}

#[test]
fn failed_lexing_keeps_the_source() {
    let mut lexer = Lexer::new("test", "1 + @");
    let e = lexer.lex().unwrap_err();
    assert_eq!(e.pos.unwrap().source(), "1 + @");
    assert_eq!(lexer.get_filename(), "test");
}
