use vstd::prelude::*;
use crate::lang::lexer::char_maps::{spec_single, spec_single_kind, spec_token};
use crate::lang::lexer::token::token_type::TokenType;

verus! {

/// What the string literals of the two tables hold.
proof fn lemma_table_texts()
    ensures
        "+"@.len() == 1,
        "+"@[0] == '+',
        "-"@.len() == 1,
        "-"@[0] == '-',
        "*"@.len() == 1,
        "*"@[0] == '*',
        "/"@.len() == 1,
        "/"@[0] == '/',
        "="@.len() == 1,
        "="@[0] == '=',
        "%"@.len() == 1,
        "%"@[0] == '%',
        "**"@.len() == 2,
        "**"@[0] == '*',
        "**"@[1] == '*',
        ">"@.len() == 1,
        ">"@[0] == '>',
        ">="@.len() == 2,
        ">="@[0] == '>',
        ">="@[1] == '=',
        "<"@.len() == 1,
        "<"@[0] == '<',
        "<="@.len() == 2,
        "<="@[0] == '<',
        "<="@[1] == '=',
        "=>"@.len() == 2,
        "=>"@[0] == '=',
        "=>"@[1] == '>',
        "+="@.len() == 2,
        "+="@[0] == '+',
        "+="@[1] == '=',
        "-="@.len() == 2,
        "-="@[0] == '-',
        "-="@[1] == '=',
        "*="@.len() == 2,
        "*="@[0] == '*',
        "*="@[1] == '=',
        "/="@.len() == 2,
        "/="@[0] == '/',
        "/="@[1] == '=',
        "%="@.len() == 2,
        "%="@[0] == '%',
        "%="@[1] == '=',
        "=="@.len() == 2,
        "=="@[0] == '=',
        "=="@[1] == '=',
        "**="@.len() == 3,
        "**="@[0] == '*',
        "**="@[1] == '*',
        "**="@[2] == '=',
        "!="@.len() == 2,
        "!="@[0] == '!',
        "!="@[1] == '=',
        "void"@.len() == 4,
        "void"@[0] == 'v',
        "void"@[1] == 'o',
        "void"@[2] == 'i',
        "void"@[3] == 'd',
        "print"@.len() == 5,
        "print"@[0] == 'p',
        "print"@[1] == 'r',
        "print"@[2] == 'i',
        "print"@[3] == 'n',
        "print"@[4] == 't',
        "println"@.len() == 7,
        "println"@[0] == 'p',
        "println"@[1] == 'r',
        "println"@[2] == 'i',
        "println"@[3] == 'n',
        "println"@[4] == 't',
        "println"@[5] == 'l',
        "println"@[6] == 'n',
        "true"@.len() == 4,
        "true"@[0] == 't',
        "true"@[1] == 'r',
        "true"@[2] == 'u',
        "true"@[3] == 'e',
        "false"@.len() == 5,
        "false"@[0] == 'f',
        "false"@[1] == 'a',
        "false"@[2] == 'l',
        "false"@[3] == 's',
        "false"@[4] == 'e',
        "func"@.len() == 4,
        "func"@[0] == 'f',
        "func"@[1] == 'u',
        "func"@[2] == 'n',
        "func"@[3] == 'c',
        "end"@.len() == 3,
        "end"@[0] == 'e',
        "end"@[1] == 'n',
        "end"@[2] == 'd',
        "list"@.len() == 4,
        "list"@[0] == 'l',
        "list"@[1] == 'i',
        "list"@[2] == 's',
        "list"@[3] == 't',
        "dict"@.len() == 4,
        "dict"@[0] == 'd',
        "dict"@[1] == 'i',
        "dict"@[2] == 'c',
        "dict"@[3] == 't',
        "function"@.len() == 8,
        "function"@[0] == 'f',
        "function"@[1] == 'u',
        "function"@[2] == 'n',
        "function"@[3] == 'c',
        "function"@[4] == 't',
        "function"@[5] == 'i',
        "function"@[6] == 'o',
        "function"@[7] == 'n',
        "in"@.len() == 2,
        "in"@[0] == 'i',
        "in"@[1] == 'n',
        "if"@.len() == 2,
        "if"@[0] == 'i',
        "if"@[1] == 'f',
        "is"@.len() == 2,
        "is"@[0] == 'i',
        "is"@[1] == 's',
        "bool"@.len() == 4,
        "bool"@[0] == 'b',
        "bool"@[1] == 'o',
        "bool"@[2] == 'o',
        "bool"@[3] == 'l',
        "num"@.len() == 3,
        "num"@[0] == 'n',
        "num"@[1] == 'u',
        "num"@[2] == 'm',
        "or"@.len() == 2,
        "or"@[0] == 'o',
        "or"@[1] == 'r',
        "not"@.len() == 3,
        "not"@[0] == 'n',
        "not"@[1] == 'o',
        "not"@[2] == 't',
        "str"@.len() == 3,
        "str"@[0] == 's',
        "str"@[1] == 't',
        "str"@[2] == 'r',
        "typeof"@.len() == 6,
        "typeof"@[0] == 't',
        "typeof"@[1] == 'y',
        "typeof"@[2] == 'p',
        "typeof"@[3] == 'e',
        "typeof"@[4] == 'o',
        "typeof"@[5] == 'f',
        "("@.len() == 1,
        "("@[0] == '(',
        ")"@.len() == 1,
        ")"@[0] == ')',
        "["@.len() == 1,
        "["@[0] == '[',
        "]"@.len() == 1,
        "]"@[0] == ']',
        "{"@.len() == 1,
        "{"@[0] == '{',
        "}"@.len() == 1,
        "}"@[0] == '}',
        ","@.len() == 1,
        ","@[0] == ',',
        ":"@.len() == 1,
        ":"@[0] == ':',
        "."@.len() == 1,
        "."@[0] == '.',
        "("@ =~= seq!['('],
        ")"@ =~= seq![')'],
        "["@ =~= seq!['['],
        "]"@ =~= seq![']'],
        "{"@ =~= seq!['{'],
        "}"@ =~= seq!['}'],
        ","@ =~= seq![','],
        ":"@ =~= seq![':'],
        "."@ =~= seq!['.'],
{
    reveal_strlit("+");
    reveal_strlit("-");
    reveal_strlit("*");
    reveal_strlit("/");
    reveal_strlit("=");
    reveal_strlit("%");
    reveal_strlit("**");
    reveal_strlit(">");
    reveal_strlit(">=");
    reveal_strlit("<");
    reveal_strlit("<=");
    reveal_strlit("=>");
    reveal_strlit("+=");
    reveal_strlit("-=");
    reveal_strlit("*=");
    reveal_strlit("/=");
    reveal_strlit("%=");
    reveal_strlit("==");
    reveal_strlit("**=");
    reveal_strlit("!=");
    reveal_strlit("void");
    reveal_strlit("print");
    reveal_strlit("println");
    reveal_strlit("true");
    reveal_strlit("false");
    reveal_strlit("func");
    reveal_strlit("end");
    reveal_strlit("list");
    reveal_strlit("dict");
    reveal_strlit("function");
    reveal_strlit("in");
    reveal_strlit("if");
    reveal_strlit("is");
    reveal_strlit("bool");
    reveal_strlit("num");
    reveal_strlit("or");
    reveal_strlit("not");
    reveal_strlit("str");
    reveal_strlit("typeof");
    reveal_strlit("(");
    reveal_strlit(")");
    reveal_strlit("[");
    reveal_strlit("]");
    reveal_strlit("{");
    reveal_strlit("}");
    reveal_strlit(",");
    reveal_strlit(":");
    reveal_strlit(".");
}

/// A text of the token table is the lexeme of the kind that the table gives for it.
pub proof fn lemma_token_has_its_lexeme(text: Seq<char>)
    ensures
        spec_token(text) matches Some(kind) ==> kind.spec_lexeme() == Some(text),
{
}

/// A character of the punctuation table is the lexeme of the kind that the table gives for
/// it.
pub proof fn lemma_single_has_its_lexeme(value: char)
    ensures
        spec_single(value) matches Some((kind, _)) ==> kind.spec_lexeme() == Some(seq![value]),
{
    lemma_table_texts();
}

/// A kind has at most one lexeme, and the lexeme leads back to the kind through one of the
/// two tables. The kinds without a lexeme are those with a payload and the statement
/// separator.
pub proof fn lemma_lexeme_leads_back(kind: TokenType)
    ensures
        match kind.spec_lexeme() {
            Some(text) => spec_token(text) == Some(kind) || (text.len() == 1 && spec_single_kind(
                text[0],
            ) == Some(kind)),
            None => kind == TokenType::Number || kind == TokenType::String || kind
                == TokenType::Identifier || kind == TokenType::Newline,
        },
{
    lemma_table_texts();
}

} // verus!
