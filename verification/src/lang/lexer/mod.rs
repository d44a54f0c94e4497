use vstd::prelude::*;
use crate::errorsystem::error_type::ErrorType;
use crate::errorsystem::{Diagnostic, DiagnosticView};
use crate::lang::lexer::char_maps::{get_esc, get_single, get_token};
use crate::lang::lexer::char_state::{
    is_digit,
    is_identifier_char,
    is_newline,
    is_operator,
    spec_is_newline,
    state_from_char,
    CharState,
};
use crate::lang::lexer::position::{
    lemma_position_bound,
    lemma_position_step,
    spec_position_at,
    Position,
};
use crate::lang::lexer::scan::{
    lemma_step_advances,
    spec_after_newline,
    spec_comment_next,
    spec_current,
    spec_done,
    spec_emit,
    spec_identifier,
    spec_lex_from,
    spec_newline,
    spec_number,
    spec_number_scan,
    spec_operator,
    spec_run_end,
    spec_single_step,
    spec_step,
    spec_string,
    spec_string_scan,
    LexStep,
    RunSort,
};
use crate::lang::lexer::token::token_type::TokenType;
use crate::lang::lexer::token::{Token, TokenView};
use crate::text::{chars_of, push_char};

pub mod char_maps;
pub mod char_state;
pub mod laws;
pub mod position;
pub mod scan;
pub mod token;

verus! {

/// A lexer over one source text: the text's characters, the cursor, the position of the
/// cursor for diagnostics, and the number of brackets that are open.
pub struct Lexer<'a> {
    value: Vec<char>,
    index: usize,
    position: Position<'a>,
    current: char,
    filename: &'a str,
    wrap_count: usize,
}

/// What a `Lexer` stands for.
pub ghost struct LexerView {
    pub filename: Seq<char>,
    pub source: Seq<char>,
    pub index: nat,
    pub depth: nat,
}

/// The views of a sequence of tokens.
pub open spec fn spec_tokens(tokens: Seq<Token>) -> Seq<TokenView> {
    tokens.map_values(|t: Token| t@)
}

/// What a call that reads one token has to return and leave behind, given what the step
/// is: on success the token of the step, with the lexer at the step's end; on failure the
/// step's diagnostic.
pub open spec fn spec_consumed(
    before: LexerView,
    after: LexerView,
    r: Result<Token, Diagnostic>,
    step: Result<LexStep, DiagnosticView>,
) -> bool {
    &&& after.filename == before.filename
    &&& after.source == before.source
    &&& match step {
        Ok(s) => {
            &&& r is Ok
            &&& Some(r->Ok_0@) == s.token
            &&& after.index == s.next
            &&& after.depth == s.depth
        },
        Err(e) => r is Err && r->Err_0@ == e,
    }
}

impl<'a> View for Lexer<'a> {
    type V = LexerView;

    closed spec fn view(&self) -> LexerView {
        LexerView {
            filename: self.filename@,
            source: self.value@,
            index: self.index as nat,
            depth: self.wrap_count as nat,
        }
    }
}

impl<'a> Lexer<'a> {
    /// The lexer's fields agree: the cursor is within the text, the current character and
    /// the position are those of the cursor, and no more brackets are open than characters
    /// were read.
    pub closed spec fn wf(&self) -> bool {
        &&& self.value.len() < usize::MAX
        &&& self.index <= self.value.len()
        &&& self.current == spec_current(self.value@, self.index as nat)
        &&& self.position@ == spec_position_at(self.filename@, self.value@, self.index as nat)
        &&& self.wrap_count <= self.index
    }

    /// A lexer at the start of `source`.
    pub fn new(filename: &'a str, source: &'a str) -> (r: Self)
        requires
            source@.len() < usize::MAX,
        ensures
            r.wf(),
            r@ == (LexerView { filename: filename@, source: source@, index: 0, depth: 0 }),
    {
        let chars: Vec<char> = chars_of(source);
        let first = if chars.len() == 0 {
            '\0'
        } else {
            chars[0]
        };
        Self {
            filename,
            value: chars,
            index: 0,
            current: first,
            position: Position::new(filename, source),
            wrap_count: 0,
        }
    }

    /// Lexes what is left of the source text. The result is the sequence of tokens from the
    /// cursor to the end of the input, or the diagnostic of the first step that fails.
    pub fn lex(&mut self) -> (r: Result<Vec<Token<'a>>, Diagnostic<'a>>)
        requires
            old(self).wf(),
        ensures
            final(self).wf(),
            final(self)@.filename == old(self)@.filename,
            final(self)@.source == old(self)@.source,
            match spec_lex_from(
                old(self)@.filename,
                old(self)@.source,
                old(self)@.index,
                old(self)@.depth,
                Seq::empty(),
            ) {
                Ok(tokens) => r is Ok && spec_tokens(r->Ok_0@) == tokens && spec_done(
                    final(self)@.source,
                    final(self)@.index,
                ),
                Err(e) => r is Err && r->Err_0@ == e,
            },
    {
        let mut tokens: Vec<Token<'a>> = Vec::new();
        assert(spec_tokens(tokens@) =~= Seq::empty());
        while !self.is_done()
            invariant
                self.wf(),
                self@.filename == old(self)@.filename,
                self@.source == old(self)@.source,
                spec_lex_from(
                    self@.filename,
                    self@.source,
                    self@.index,
                    self@.depth,
                    spec_tokens(tokens@),
                ) == spec_lex_from(
                    old(self)@.filename,
                    old(self)@.source,
                    old(self)@.index,
                    old(self)@.depth,
                    Seq::empty(),
                ),
            decreases self.value.len() - self.index,
        {
            let ghost before = self@;
            let ghost seen = spec_tokens(tokens@);
            let after_newline = self.get_last_token(&tokens) == TokenType::Newline;
            proof {
                lemma_step_advances(
                    before.filename,
                    before.source,
                    before.index,
                    before.depth,
                    spec_after_newline(seen),
                );
            }
            let emitted: Option<Token<'a>> = match state_from_char(self.current) {
                Ok(CharState::Newline) => {
                    if after_newline || self.wrap_count > 0 {
                        self.advance();
                        None
                    } else {
                        Some(self.consume_newline())
                    }
                },
                Ok(CharState::Whitespace) => {
                    self.advance();
                    None
                },
                Ok(CharState::Number) => {
                    match self.consume_number() {
                        Ok(token) => Some(token),
                        Err(e) => {
                            return Err(e);
                        },
                    }
                },
                Ok(CharState::Operator) => {
                    match self.consume_operator() {
                        Ok(token) => Some(token),
                        Err(e) => {
                            return Err(e);
                        },
                    }
                },
                Ok(CharState::SingleConsumable) => {
                    match self.consume_single() {
                        Ok(token) => Some(token),
                        Err(e) => {
                            return Err(e);
                        },
                    }
                },
                Ok(CharState::Quotation) => {
                    match self.consume_string() {
                        Ok(token) => Some(token),
                        Err(e) => {
                            return Err(e);
                        },
                    }
                },
                Ok(CharState::Comment) => {
                    self.consume_comment();
                    None
                },
                _ => {
                    match self.consume_identifier() {
                        Ok(token) => Some(token),
                        Err(e) => {
                            return Err(e);
                        },
                    }
                },
            };
            let ghost step = spec_step(
                before.filename,
                before.source,
                before.index,
                before.depth,
                spec_after_newline(seen),
            )->Ok_0;
            match emitted {
                Some(token) => {
                    tokens.push(token);
                    assert(spec_tokens(tokens@) =~= spec_emit(seen, step));
                },
                None => {
                    assert(spec_tokens(tokens@) =~= spec_emit(seen, step));
                },
            }
        }
        Ok(tokens)
    }

    pub fn get_filename(&self) -> (r: &'a str)
        ensures
            r@ == self@.filename,
    {
        self.filename
    }

    /// The position of the cursor: the line and the column of the next character that has
    /// not been consumed.
    pub fn get_position(&self) -> (r: Position<'a>)
        requires
            self.wf(),
        ensures
            r@ == spec_position_at(self@.filename, self@.source, self@.index),
    {
        self.position
    }

    /// The number of brackets that are open at the cursor.
    pub fn get_depth(&self) -> (r: usize)
        ensures
            r == self@.depth,
    {
        self.wrap_count
    }

    fn consume_newline(&mut self) -> (r: Token<'a>)
        requires
            old(self).wf(),
            !spec_done(old(self)@.source, old(self)@.index),
            old(self)@.depth == 0,
        ensures
            final(self).wf(),
            spec_consumed(
                old(self)@,
                final(self)@,
                Ok(r),
                Ok(
                    spec_newline(
                        old(self)@.filename,
                        old(self)@.source,
                        old(self)@.index,
                        old(self)@.depth,
                        false,
                    ),
                ),
            ),
    {
        let start = self.position;
        self.advance();
        Token::new(TokenType::Newline, None, start)
    }

    fn consume_number(&mut self) -> (r: Result<Token<'a>, Diagnostic<'a>>)
        requires
            old(self).wf(),
            !spec_done(old(self)@.source, old(self)@.index),
        ensures
            final(self).wf(),
            spec_consumed(
                old(self)@,
                final(self)@,
                r,
                spec_number(
                    old(self)@.filename,
                    old(self)@.source,
                    old(self)@.index,
                    old(self)@.depth,
                ),
            ),
    {
        let start = self.position;
        let mut buffer = String::new();
        let mut dec = false;
        let mut last = '\0';
        let ghost first = self.index as nat;
        assert(buffer@ =~= self.value@.subrange(first as int, first as int));
        while is_digit(self.current) || self.current == '.'
            invariant
                self.wf(),
                self@.filename == old(self)@.filename,
                self@.source == old(self)@.source,
                self@.depth == old(self)@.depth,
                first == old(self)@.index,
                first <= self.index,
                buffer@ == self.value@.subrange(first as int, self.index as int),
                self.index > first ==> last == self.value@[self.index - 1],
                self.index == first ==> last == '\0',
                spec_number_scan(self.value@, self.index as nat, dec) == spec_number_scan(
                    self.value@,
                    first,
                    false,
                ),
            decreases self.value.len() - self.index,
        {
            if self.current == '.' {
                if dec {
                    return Err(
                        Diagnostic { kind: ErrorType::DoubleDecimal, pos: Some(self.position) },
                    );
                }
                dec = true;
            }
            last = self.current;
            push_char(&mut buffer, self.current);
            self.advance();
            assert(buffer@ =~= self.value@.subrange(first as int, self.index as int));
        }
        if last == '.' {
            return Err(Diagnostic { kind: ErrorType::DecimalEnding, pos: Some(self.position) });
        }
        Ok(Token::new(TokenType::Number, Some(buffer), start))
    }

    fn consume_operator(&mut self) -> (r: Result<Token<'a>, Diagnostic<'a>>)
        requires
            old(self).wf(),
            !spec_done(old(self)@.source, old(self)@.index),
        ensures
            final(self).wf(),
            spec_consumed(
                old(self)@,
                final(self)@,
                r,
                spec_operator(
                    old(self)@.filename,
                    old(self)@.source,
                    old(self)@.index,
                    old(self)@.depth,
                ),
            ),
    {
        let start = self.position;
        let mut buffer = String::new();
        let ghost first = self.index as nat;
        assert(buffer@ =~= self.value@.subrange(first as int, first as int));
        while is_operator(self.current)
            invariant
                self.wf(),
                self@.filename == old(self)@.filename,
                self@.source == old(self)@.source,
                self@.depth == old(self)@.depth,
                first == old(self)@.index,
                first <= self.index,
                buffer@ == self.value@.subrange(first as int, self.index as int),
                spec_run_end(self.value@, self.index as nat, RunSort::Operator) == spec_run_end(
                    self.value@,
                    first,
                    RunSort::Operator,
                ),
            decreases self.value.len() - self.index,
        {
            push_char(&mut buffer, self.current);
            self.advance();
            assert(buffer@ =~= self.value@.subrange(first as int, self.index as int));
        }
        match get_token(buffer.as_str()) {
            Some(operator) => Ok(Token::new(operator, None, start)),
            None => Err(Diagnostic { kind: ErrorType::InvalidOperator(buffer), pos: Some(start) }),
        }
    }

    fn consume_string(&mut self) -> (r: Result<Token<'a>, Diagnostic<'a>>)
        requires
            old(self).wf(),
            !spec_done(old(self)@.source, old(self)@.index),
        ensures
            final(self).wf(),
            spec_consumed(
                old(self)@,
                final(self)@,
                r,
                spec_string(
                    old(self)@.filename,
                    old(self)@.source,
                    old(self)@.index,
                    old(self)@.depth,
                ),
            ),
    {
        let start = self.position;
        self.advance();
        let mut buffer = String::new();
        let mut esc = false;
        let ghost first = self.index as nat;
        loop
            invariant
                self.wf(),
                self@.filename == old(self)@.filename,
                self@.source == old(self)@.source,
                self@.depth == old(self)@.depth,
                first == old(self)@.index + 1,
                start@ == spec_position_at(
                    old(self)@.filename,
                    old(self)@.source,
                    old(self)@.index,
                ),
                spec_string_scan(self.value@, self.index as nat, esc, buffer@)
                    == spec_string_scan(self.value@, first, false, Seq::empty()),
            decreases self.value.len() - self.index,
        {
            if self.is_done() {
                return Err(
                    Diagnostic { kind: ErrorType::UnclosedString, pos: Some(self.position) },
                );
            }
            if esc {
                match get_esc(self.current) {
                    Some(escaped) => {
                        push_char(&mut buffer, escaped);
                    },
                    None => {
                        return Err(
                            Diagnostic {
                                kind: ErrorType::UnknownEscapeSequence(self.current),
                                pos: Some(self.position),
                            },
                        );
                    },
                }
                esc = false;
            } else if self.is_quote() {
                self.advance();
                return Ok(Token::new(TokenType::String, Some(buffer), start));
            } else if self.current == '\n' {
                return Err(
                    Diagnostic { kind: ErrorType::UnclosedString, pos: Some(self.position) },
                );
            } else if self.current == '\\' {
                esc = true;
            } else {
                push_char(&mut buffer, self.current);
            }
            self.advance();
        }
    }

    fn consume_single(&mut self) -> (r: Result<Token<'a>, Diagnostic<'a>>)
        requires
            old(self).wf(),
            !spec_done(old(self)@.source, old(self)@.index),
        ensures
            final(self).wf(),
            spec_consumed(
                old(self)@,
                final(self)@,
                r,
                spec_single_step(
                    old(self)@.filename,
                    old(self)@.source,
                    old(self)@.index,
                    old(self)@.depth,
                ),
            ),
    {
        let start = self.position;
        match get_single(self.current) {
            Some((token_type, wrap)) => {
                self.advance();
                if let Some(open) = wrap {
                    if open {
                        self.wrap_count += 1;
                    } else if self.wrap_count > 0 {
                        self.wrap_count -= 1;
                    }
                }
                Ok(Token::new(token_type, None, start))
            },
            None => Err(
                Diagnostic { kind: ErrorType::UnknownChar(self.current), pos: Some(start) },
            ),
        }
    }

    fn consume_comment(&mut self)
        requires
            old(self).wf(),
            !spec_done(old(self)@.source, old(self)@.index),
        ensures
            final(self).wf(),
            final(self)@ == (LexerView {
                index: spec_comment_next(old(self)@.source, old(self)@.index),
                ..old(self)@
            }),
    {
        let ghost first = self.index as nat;
        while !self.is_done() && !self.is_newline()
            invariant
                self.wf(),
                self@.filename == old(self)@.filename,
                self@.source == old(self)@.source,
                self@.depth == old(self)@.depth,
                first == old(self)@.index,
                spec_run_end(self.value@, self.index as nat, RunSort::Comment) == spec_run_end(
                    self.value@,
                    first,
                    RunSort::Comment,
                ),
            decreases self.value.len() - self.index,
        {
            self.advance();
        }
        if !self.is_done() {
            self.advance();
        }
    }

    fn consume_identifier(&mut self) -> (r: Result<Token<'a>, Diagnostic<'a>>)
        requires
            old(self).wf(),
            !spec_done(old(self)@.source, old(self)@.index),
        ensures
            final(self).wf(),
            spec_consumed(
                old(self)@,
                final(self)@,
                r,
                spec_identifier(
                    old(self)@.filename,
                    old(self)@.source,
                    old(self)@.index,
                    old(self)@.depth,
                ),
            ),
    {
        let start = self.position;
        let mut buffer = String::new();
        let ghost first = self.index as nat;
        let mut empty = true;
        assert(buffer@ =~= self.value@.subrange(first as int, first as int));
        while is_identifier_char(self.current)
            invariant
                self.wf(),
                self@.filename == old(self)@.filename,
                self@.source == old(self)@.source,
                self@.depth == old(self)@.depth,
                first == old(self)@.index,
                first <= self.index,
                empty == (self.index == first),
                buffer@ == self.value@.subrange(first as int, self.index as int),
                spec_run_end(self.value@, self.index as nat, RunSort::Identifier) == spec_run_end(
                    self.value@,
                    first,
                    RunSort::Identifier,
                ),
            decreases self.value.len() - self.index,
        {
            push_char(&mut buffer, self.current);
            self.advance();
            empty = false;
            assert(buffer@ =~= self.value@.subrange(first as int, self.index as int));
        }
        if empty {
            return Err(
                Diagnostic { kind: ErrorType::UnknownChar(self.current), pos: Some(self.position) },
            );
        }
        match get_token(buffer.as_str()) {
            Some(token) => Ok(Token::new(token, None, start)),
            None => Ok(Token::new(TokenType::Identifier, Some(buffer), start)),
        }
    }

    /// Moves the cursor over the current character.
    fn advance(&mut self)
        requires
            old(self).wf(),
            old(self)@.index < old(self)@.source.len(),
        ensures
            final(self).wf(),
            final(self)@ == (LexerView { index: old(self)@.index + 1, ..old(self)@ }),
    {
        proof {
            lemma_position_bound(self.value@, self.index as nat);
            lemma_position_step(self.filename@, self.value@, self.index as nat);
        }
        let newline = self.current == '\n';
        self.index += 1;
        self.current = if self.index < self.value.len() {
            self.value[self.index]
        } else {
            '\0'
        };
        self.position.advance(newline);
    }

    /// The kind of the last token, and `Newline` where there is none.
    fn get_last_token(&self, tokens: &Vec<Token<'a>>) -> (r: TokenType)
        ensures
            (r == TokenType::Newline) == spec_after_newline(spec_tokens(tokens@)),
    {
        if tokens.len() > 0 {
            tokens[tokens.len() - 1].get_type()
        } else {
            TokenType::Newline
        }
    }

    fn is_done(&self) -> (r: bool)
        requires
            self.wf(),
        ensures
            r == spec_done(self@.source, self@.index),
            !r ==> self@.index < self@.source.len(),
    {
        self.index >= self.value.len() || self.current == '\0'
    }

    fn is_newline(&self) -> (r: bool)
        ensures
            r == spec_is_newline(self.current),
    {
        is_newline(self.current)
    }

    fn is_quote(&self) -> (r: bool)
        ensures
            r == (self.current == '"'),
    {
        self.current == '"'
    }
}

} // verus!
