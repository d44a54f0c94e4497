use glass_lang::lang::lexer::char_maps::{get_esc, get_single, get_token, is_single};
use glass_lang::lang::lexer::char_state::{
    is_digit, is_identifier_char, is_letter, is_newline, is_operator, is_whitespace,
    state_from_char, CharState,
};
use glass_lang::lang::lexer::token::token_type::TokenType;

const ALL_KINDS: [TokenType; 52] = [
    TokenType::Plus,
    TokenType::Minus,
    TokenType::Times,
    TokenType::Divide,
    TokenType::Mod,
    TokenType::Pow,
    TokenType::PlusEquals,
    TokenType::MinusEquals,
    TokenType::TimesEquals,
    TokenType::DivideEquals,
    TokenType::ModEquals,
    TokenType::PowEquals,
    TokenType::Not,
    TokenType::Or,
    TokenType::GreaterThan,
    TokenType::GreaterThanEqual,
    TokenType::LessThan,
    TokenType::LessThanEqual,
    TokenType::EqualEqual,
    TokenType::NotEqual,
    TokenType::Equal,
    TokenType::Lambda,
    TokenType::Number,
    TokenType::String,
    TokenType::Identifier,
    TokenType::True,
    TokenType::False,
    TokenType::Void,
    TokenType::Period,
    TokenType::Comma,
    TokenType::Colon,
    TokenType::Lparen,
    TokenType::Rparen,
    TokenType::Lbracket,
    TokenType::Rbracket,
    TokenType::Lbrace,
    TokenType::Rbrace,
    TokenType::Num,
    TokenType::Str,
    TokenType::Bool,
    TokenType::List,
    TokenType::Dict,
    TokenType::Function,
    TokenType::Func,
    TokenType::If,
    TokenType::In,
    TokenType::Is,
    TokenType::End,
    TokenType::Print,
    TokenType::Println,
    TokenType::Typeof,
    TokenType::Newline,
];

#[test]
fn classifies_each_class() {
    assert_eq!(state_from_char('7'), Ok(CharState::Number));
    assert_eq!(state_from_char('\n'), Ok(CharState::Newline));
    assert_eq!(state_from_char(';'), Ok(CharState::Newline));
    assert_eq!(state_from_char(' '), Ok(CharState::Whitespace));
    assert_eq!(state_from_char('\t'), Ok(CharState::Whitespace));
    assert_eq!(state_from_char('\r'), Ok(CharState::Whitespace));
    assert_eq!(state_from_char('q'), Ok(CharState::Letter));
    assert_eq!(state_from_char('Q'), Ok(CharState::Letter));
    for c in "+-*/%<>=!".chars() {
        assert_eq!(state_from_char(c), Ok(CharState::Operator));
    }
    for c in ",.(){}[]:".chars() {
        assert_eq!(state_from_char(c), Ok(CharState::SingleConsumable));
    }
    assert_eq!(state_from_char('"'), Ok(CharState::Quotation));
    assert_eq!(state_from_char('\\'), Ok(CharState::Escape));
    assert_eq!(state_from_char('#'), Ok(CharState::Comment));
    assert_eq!(state_from_char('_'), Ok(CharState::Underscore));
    assert_eq!(state_from_char('\0'), Ok(CharState::Eof));
}

#[test]
fn unclassified_characters_come_back() {
    for c in ['@', '$', '?', '~', '\'', '&', '|', '^', '`', 'é', '\u{1F600}', '\x01'] {
        assert_eq!(state_from_char(c), Err(c));
    }
}

#[test]
fn whitespace_is_unicode_white_space() {
    for n in 0u32..=0x10FFFF {
        if let Some(c) = char::from_u32(n) {
            assert_eq!(is_whitespace(c), c.is_whitespace(), "U+{:04X}", n);
        }
    }
}

#[test]
fn ascii_classes_agree_with_the_standard_ones() {
    for n in 0u32..=0x10FFFF {
        if let Some(c) = char::from_u32(n) {
            assert_eq!(is_digit(c), c.is_ascii_digit());
            assert_eq!(is_letter(c), c.is_ascii_alphabetic());
            assert_eq!(is_newline(c), c == '\n' || c == ';');
            assert_eq!(is_operator(c), "+-*/%<>=!".contains(c));
            assert_eq!(
                is_identifier_char(c),
                c == '_' || c.is_ascii_digit() || c.is_ascii_alphabetic()
            );
            assert_eq!(is_single(c), ",.(){}[]:".contains(c));
        }
    }
}

#[test]
fn punctuation_class_is_the_punctuation_table() {
    for n in 0u32..=0x10FFFF {
        if let Some(c) = char::from_u32(n) {
            assert_eq!(state_from_char(c) == Ok(CharState::SingleConsumable), is_single(c));
        }
    }
}

#[test]
fn state_matches_one_of_a_list() {
    let list = [CharState::Letter, CharState::Underscore, CharState::Number];
    assert!(CharState::Letter.matches(&list));
    assert!(CharState::Number.matches(&list));
    assert!(!CharState::Operator.matches(&list));
    assert!(!CharState::Eof.matches(&[]));
}

#[test]
fn token_table() {
    let table = [
        ("+", TokenType::Plus),
        ("-", TokenType::Minus),
        ("*", TokenType::Times),
        ("/", TokenType::Divide),
        ("=", TokenType::Equal),
        ("%", TokenType::Mod),
        ("**", TokenType::Pow),
        (">", TokenType::GreaterThan),
        (">=", TokenType::GreaterThanEqual),
        ("<", TokenType::LessThan),
        ("<=", TokenType::LessThanEqual),
        ("=>", TokenType::Lambda),
        ("+=", TokenType::PlusEquals),
        ("-=", TokenType::MinusEquals),
        ("*=", TokenType::TimesEquals),
        ("/=", TokenType::DivideEquals),
        ("%=", TokenType::ModEquals),
        ("==", TokenType::EqualEqual),
        ("**=", TokenType::PowEquals),
        ("!=", TokenType::NotEqual),
        ("void", TokenType::Void),
        ("print", TokenType::Print),
        ("println", TokenType::Println),
        ("true", TokenType::True),
        ("false", TokenType::False),
        ("func", TokenType::Func),
        ("end", TokenType::End),
        ("list", TokenType::List),
        ("dict", TokenType::Dict),
        ("function", TokenType::Function),
        ("in", TokenType::In),
        ("if", TokenType::If),
        ("is", TokenType::Is),
        ("bool", TokenType::Bool),
        ("num", TokenType::Num),
        ("or", TokenType::Or),
        ("not", TokenType::Not),
        ("str", TokenType::Str),
        ("typeof", TokenType::Typeof),
    ];
    for (text, kind) in table {
        assert_eq!(get_token(text), Some(kind));
    }
    for text in ["", "++", "===", "True", "iff", "(", "prin", " if", "if "] {
        assert_eq!(get_token(text), None);
    }
}

#[test]
fn escape_table() {
    assert_eq!(get_esc('a'), Some('\x07'));
    assert_eq!(get_esc('b'), Some('\x08'));
    assert_eq!(get_esc('f'), Some('\x0C'));
    assert_eq!(get_esc('n'), Some('\n'));
    assert_eq!(get_esc('t'), Some('\t'));
    assert_eq!(get_esc('r'), Some('\r'));
    assert_eq!(get_esc('\''), Some('\''));
    assert_eq!(get_esc('"'), Some('"'));
    assert_eq!(get_esc('\\'), Some('\\'));
    assert_eq!(get_esc('q'), None);
    assert_eq!(get_esc('0'), None);
    assert_eq!(get_esc('N'), None);
}

#[test]
fn punctuation_table() {
    assert_eq!(get_single('('), Some((TokenType::Lparen, Some(true))));
    assert_eq!(get_single(')'), Some((TokenType::Rparen, Some(false))));
    assert_eq!(get_single('['), Some((TokenType::Lbracket, Some(true))));
    assert_eq!(get_single(']'), Some((TokenType::Rbracket, Some(false))));
    assert_eq!(get_single('{'), Some((TokenType::Lbrace, Some(true))));
    assert_eq!(get_single('}'), Some((TokenType::Rbrace, Some(false))));
    assert_eq!(get_single(','), Some((TokenType::Comma, None)));
    assert_eq!(get_single(':'), Some((TokenType::Colon, None)));
    assert_eq!(get_single('.'), Some((TokenType::Period, None)));
    assert_eq!(get_single('+'), None);
    assert!(is_single('('));
    assert!(!is_single('a'));
}

#[test]
fn kind_names() {
    assert_eq!(TokenType::Plus.name(), "Plus");
    assert_eq!(TokenType::GreaterThanEqual.name(), "GreaterThanEqual");
    assert_eq!(TokenType::Rparen.name(), "Rparen");
    assert_eq!(TokenType::Newline.name(), "Newline");
    for kind in ALL_KINDS {
        assert_eq!(kind.name(), format!("{:?}", kind));
    }
}

#[test]
fn each_kind_has_at_most_one_lexeme_and_it_leads_back() {
    let mut with_lexeme = 0;
    for kind in ALL_KINDS {
        match kind.lexeme() {
            Some(text) => {
                with_lexeme += 1;
                let mut chars = text.chars();
                let first = chars.next().unwrap();
                let from_single = if chars.next().is_none() {
                    get_single(first).map(|(k, _)| k)
                } else {
                    None
                };
                let found = get_token(text).or(from_single);
                assert_eq!(found, Some(kind));
            }
            None => {
                assert!(matches!(
                    kind,
                    TokenType::Number
                        | TokenType::String
                        | TokenType::Identifier
                        | TokenType::Newline
                ));
            }
        }
    }
    assert_eq!(with_lexeme, 48);
    assert_eq!(TokenType::Pow.lexeme(), Some("**"));
    assert_eq!(TokenType::Lbrace.lexeme(), Some("{"));
}
