use vstd::prelude::*;
use crate::lang::lexer::position::{Position, PositionView};
use crate::lang::lexer::token::token_type::TokenType;
use crate::text::push_char;

pub mod laws;
pub mod token_type;

verus! {

/// One token: its kind, its text where the kind has a payload (a number, a string, an
/// identifier) and the empty text where it has none, and the position at which it begins.
#[derive(Debug, PartialEq, Eq)]
pub struct Token<'a> {
    token_type: TokenType,
    value: String,
    pos: Position<'a>,
}

/// What a `Token` stands for.
pub ghost struct TokenView {
    pub kind: TokenType,
    pub text: Seq<char>,
    pub pos: PositionView,
}

/// The text that a token shows as: the kind's name, and the payload in round brackets where
/// there is one.
pub open spec fn spec_token_text(t: TokenView) -> Seq<char> {
    if t.text.len() == 0 {
        t.kind.spec_name()
    } else {
        t.kind.spec_name() + "("@ + t.text + ")"@
    }
}

impl<'a> View for Token<'a> {
    type V = TokenView;

    closed spec fn view(&self) -> TokenView {
        TokenView { kind: self.token_type, text: self.value@, pos: self.pos@ }
    }
}

impl<'a> Token<'a> {
    pub fn new(token_type: TokenType, value: Option<String>, pos: Position<'a>) -> (r: Self)
        ensures
            r@ == (TokenView {
                kind: token_type,
                text: match value {
                    Some(v) => v@,
                    None => Seq::<char>::empty(),
                },
                pos: pos@,
            }),
    {
        Token {
            token_type,
            value: match value {
                Some(value) => value,
                None => String::new(),
            },
            pos,
        }
    }

    pub fn get_type(&self) -> (r: TokenType)
        ensures
            r == self@.kind,
    {
        self.token_type
    }

    pub fn get_value(&self) -> (r: &String)
        ensures
            r@ == self@.text,
    {
        &self.value
    }

    pub fn take_pos(&self) -> (r: Position<'a>)
        ensures
            r@ == self@.pos,
    {
        self.pos
    }

    /// The token as text, for listings.
    pub fn to_text(&self) -> (r: String)
        ensures
            r@ == spec_token_text(self@),
    {
        let mut out = String::from_str(self.token_type.name());
        if self.value.as_str().unicode_len() != 0 {
            push_char(&mut out, '(');
            out.append(self.value.as_str());
            push_char(&mut out, ')');
            proof {
                reveal_strlit("(");
                reveal_strlit(")");
                assert(out@ =~= spec_token_text(self@));
            }
        }
        out
    }
}

} // verus!
