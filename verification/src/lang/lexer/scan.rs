use vstd::prelude::*;
use crate::errorsystem::error_type::ErrorView;
use crate::errorsystem::DiagnosticView;
use crate::lang::lexer::char_maps::{spec_esc, spec_single, spec_token};
use crate::lang::lexer::char_state::{
    spec_is_digit,
    spec_is_identifier_char,
    spec_is_newline,
    spec_is_operator,
    spec_state,
    CharState,
};
use crate::lang::lexer::position::spec_position_at;
use crate::lang::lexer::token::token_type::TokenType;
use crate::lang::lexer::token::TokenView;

verus! {

/// The character under the cursor: the text's character at `i`, or NUL past its end.
pub open spec fn spec_current(text: Seq<char>, i: nat) -> char {
    if i < text.len() {
        text[i as int]
    } else {
        '\0'
    }
}

/// Lexing is over at the text's end and at a NUL within it.
pub open spec fn spec_done(text: Seq<char>, i: nat) -> bool {
    spec_current(text, i) == '\0'
}

/// One step of the lexer: the token that it emits, if any, the offset at which the next
/// step begins and the bracket depth there.
pub ghost struct LexStep {
    pub token: Option<TokenView>,
    pub next: nat,
    pub depth: nat,
}

/// A token that begins at offset `start`.
pub open spec fn spec_token_at(
    filename: Seq<char>,
    text: Seq<char>,
    kind: TokenType,
    payload: Seq<char>,
    start: nat,
) -> TokenView {
    TokenView { kind, text: payload, pos: spec_position_at(filename, text, start) }
}

/// A failure at offset `at`.
pub open spec fn spec_error_at(filename: Seq<char>, text: Seq<char>, kind: ErrorView, at: nat)
    -> DiagnosticView {
    DiagnosticView { kind, pos: Some(spec_position_at(filename, text, at)) }
}

/// The sorts of character runs that the lexer reads as a whole.
pub ghost enum RunSort {
    Operator,
    Identifier,
    Comment,
}

/// A character that is part of a comment: anything but a statement separator and NUL.
pub open spec fn spec_is_comment_char(c: char) -> bool {
    !spec_is_newline(c) && c != '\0'
}

/// Whether a character belongs to a run of the sort.
pub open spec fn spec_in_run(sort: RunSort, c: char) -> bool {
    match sort {
        RunSort::Operator => spec_is_operator(c),
        RunSort::Identifier => spec_is_identifier_char(c),
        RunSort::Comment => spec_is_comment_char(c),
    }
}

/// The end of the longest run of characters of one sort that begins at `i`.
pub open spec fn spec_run_end(text: Seq<char>, i: nat, sort: RunSort) -> nat
    decreases text.len() - i,
{
    if i < text.len() && spec_in_run(sort, text[i as int]) {
        spec_run_end(text, i + 1, sort)
    } else {
        i
    }
}

/// Digits only, from `from` up to `to`.
pub open spec fn spec_all_digits(text: Seq<char>, from: int, to: int) -> bool {
    forall|k: int| from <= k < to ==> spec_is_digit(#[trigger] text[k])
}

/// Whether `dot` is the place of the decimal point in a literal that has digits before the
/// point and digits behind it, and nothing else.
pub open spec fn spec_is_decimal_point_of(text: Seq<char>, dot: int) -> bool {
    &&& 0 < dot < text.len() - 1
    &&& text[dot] == '.'
    &&& spec_all_digits(text, 0, dot)
    &&& spec_all_digits(text, dot + 1, text.len() as int)
}

/// The text of a number literal: digits, or digits, a decimal point and digits.
pub open spec fn spec_is_number_literal(text: Seq<char>) -> bool {
    ||| text.len() > 0 && spec_all_digits(text, 0, text.len() as int)
    ||| exists|dot: int| spec_is_decimal_point_of(text, dot)
}

/// Reads digits and at most one decimal point from `i` on; `dec` says that a decimal point
/// has been read. The result is the run's end, or the offset of the second decimal point.
pub open spec fn spec_number_scan(text: Seq<char>, i: nat, dec: bool) -> Result<nat, nat>
    decreases text.len() - i,
{
    if i < text.len() && spec_is_digit(text[i as int]) {
        spec_number_scan(text, i + 1, dec)
    } else if i < text.len() && text[i as int] == '.' {
        if dec {
            Err(i)
        } else {
            spec_number_scan(text, i + 1, true)
        }
    } else {
        Ok(i)
    }
}

/// A number literal that begins at `i`.
pub open spec fn spec_number(filename: Seq<char>, text: Seq<char>, i: nat, depth: nat) -> Result<
    LexStep,
    DiagnosticView,
> {
    match spec_number_scan(text, i, false) {
        Err(second) => Err(spec_error_at(filename, text, ErrorView::DoubleDecimal, second)),
        Ok(end) => if end > i && text[end - 1] == '.' {
            Err(spec_error_at(filename, text, ErrorView::DecimalEnding, end))
        } else {
            Ok(
                LexStep {
                    token: Some(
                        spec_token_at(
                            filename,
                            text,
                            TokenType::Number,
                            text.subrange(i as int, end as int),
                            i,
                        ),
                    ),
                    next: end,
                    depth,
                },
            )
        },
    }
}

/// An operator that begins at `i`: the longest run of operator characters, which has to be
/// in the token table.
pub open spec fn spec_operator(filename: Seq<char>, text: Seq<char>, i: nat, depth: nat)
    -> Result<LexStep, DiagnosticView> {
    let end = spec_run_end(text, i, RunSort::Operator);
    let run = text.subrange(i as int, end as int);
    match spec_token(run) {
        Some(kind) => Ok(
            LexStep {
                token: Some(spec_token_at(filename, text, kind, Seq::empty(), i)),
                next: end,
                depth,
            },
        ),
        None => Err(spec_error_at(filename, text, ErrorView::InvalidOperator(run), i)),
    }
}

/// The bracket depth after a punctuation character: one more after an opening bracket, one
/// less, but never less than zero, after a closing one.
pub open spec fn spec_depth_after(depth: nat, wrap: Option<bool>) -> nat {
    match wrap {
        Some(true) => depth + 1,
        Some(false) => if depth > 0 {
            (depth - 1) as nat
        } else {
            0
        },
        None => depth,
    }
}

/// The punctuation character at `i`.
pub open spec fn spec_single_step(filename: Seq<char>, text: Seq<char>, i: nat, depth: nat)
    -> Result<LexStep, DiagnosticView> {
    match spec_single(spec_current(text, i)) {
        Some((kind, wrap)) => Ok(
            LexStep {
                token: Some(spec_token_at(filename, text, kind, Seq::empty(), i)),
                next: i + 1,
                depth: spec_depth_after(depth, wrap),
            },
        ),
        None => Err(
            spec_error_at(filename, text, ErrorView::UnknownChar(spec_current(text, i)), i),
        ),
    }
}

/// Reads the inside of a string literal from `i` on. `esc` says that the character before
/// was an unescaped backslash, and `acc` is what has been read. The result is the literal's
/// text and the offset behind the closing quote, or the failure and its offset.
pub open spec fn spec_string_scan(text: Seq<char>, i: nat, esc: bool, acc: Seq<char>) -> Result<
    (Seq<char>, nat),
    (ErrorView, nat),
>
    decreases text.len() - i,
{
    if spec_done(text, i) {
        Err((ErrorView::UnclosedString, i))
    } else {
        let c = text[i as int];
        if esc {
            match spec_esc(c) {
                Some(resolved) => spec_string_scan(text, i + 1, false, acc.push(resolved)),
                None => Err((ErrorView::UnknownEscapeSequence(c), i)),
            }
        } else if c == '"' {
            Ok((acc, i + 1))
        } else if c == '\n' {
            Err((ErrorView::UnclosedString, i))
        } else if c == '\\' {
            spec_string_scan(text, i + 1, true, acc)
        } else {
            spec_string_scan(text, i + 1, false, acc.push(c))
        }
    }
}

/// A string literal whose opening quote is at `i`.
pub open spec fn spec_string(filename: Seq<char>, text: Seq<char>, i: nat, depth: nat) -> Result<
    LexStep,
    DiagnosticView,
> {
    match spec_string_scan(text, i + 1, false, Seq::empty()) {
        Ok((payload, next)) => Ok(
            LexStep {
                token: Some(spec_token_at(filename, text, TokenType::String, payload, i)),
                next,
                depth,
            },
        ),
        Err((kind, at)) => Err(spec_error_at(filename, text, kind, at)),
    }
}

/// Where lexing goes on after a comment that begins at `i`: behind the separator that ends
/// the comment, or at the end of the input.
pub open spec fn spec_comment_next(text: Seq<char>, i: nat) -> nat {
    let end = spec_run_end(text, i, RunSort::Comment);
    if spec_done(text, end) {
        end
    } else {
        end + 1
    }
}

/// A keyword or an identifier that begins at `i`. Where no identifier character stands
/// there, the character is one that no token begins with.
pub open spec fn spec_identifier(filename: Seq<char>, text: Seq<char>, i: nat, depth: nat)
    -> Result<LexStep, DiagnosticView> {
    let end = spec_run_end(text, i, RunSort::Identifier);
    let run = text.subrange(i as int, end as int);
    if end == i {
        Err(spec_error_at(filename, text, ErrorView::UnknownChar(spec_current(text, i)), i))
    } else {
        match spec_token(run) {
            Some(kind) => Ok(
                LexStep {
                    token: Some(spec_token_at(filename, text, kind, Seq::empty(), i)),
                    next: end,
                    depth,
                },
            ),
            None => Ok(
                LexStep {
                    token: Some(spec_token_at(filename, text, TokenType::Identifier, run, i)),
                    next: end,
                    depth,
                },
            ),
        }
    }
}

/// A statement separator at `i`. It is passed over inside brackets and where the token
/// before is a separator too or there is none; else it becomes a `Newline` token.
pub open spec fn spec_newline(
    filename: Seq<char>,
    text: Seq<char>,
    i: nat,
    depth: nat,
    after_newline: bool,
) -> LexStep {
    if depth > 0 || after_newline {
        LexStep { token: None, next: i + 1, depth }
    } else {
        LexStep {
            token: Some(spec_token_at(filename, text, TokenType::Newline, Seq::empty(), i)),
            next: i + 1,
            depth,
        }
    }
}

/// One step of the lexer at offset `i`, where the input is not over: the character there
/// is classified, and its class decides what is read.
pub open spec fn spec_step(
    filename: Seq<char>,
    text: Seq<char>,
    i: nat,
    depth: nat,
    after_newline: bool,
) -> Result<LexStep, DiagnosticView> {
    match spec_state(spec_current(text, i)) {
        Ok(CharState::Newline) => Ok(spec_newline(filename, text, i, depth, after_newline)),
        Ok(CharState::Whitespace) => Ok(LexStep { token: None, next: i + 1, depth }),
        Ok(CharState::Number) => spec_number(filename, text, i, depth),
        Ok(CharState::Operator) => spec_operator(filename, text, i, depth),
        Ok(CharState::SingleConsumable) => spec_single_step(filename, text, i, depth),
        Ok(CharState::Quotation) => spec_string(filename, text, i, depth),
        Ok(CharState::Comment) => Ok(
            LexStep { token: None, next: spec_comment_next(text, i), depth },
        ),
        _ => spec_identifier(filename, text, i, depth),
    }
}

/// Whether a separator that comes after `tokens` is passed over on their account.
pub open spec fn spec_after_newline(tokens: Seq<TokenView>) -> bool {
    tokens.len() == 0 || tokens.last().kind == TokenType::Newline
}

/// The tokens with the step's token added, where it has one.
pub open spec fn spec_emit(tokens: Seq<TokenView>, step: LexStep) -> Seq<TokenView> {
    match step.token {
        Some(t) => tokens.push(t),
        None => tokens,
    }
}

/// A run ends at or behind its start, within the text.
pub proof fn lemma_run_end_bounds(text: Seq<char>, i: nat, sort: RunSort)
    ensures
        i <= spec_run_end(text, i, sort),
        i <= text.len() ==> spec_run_end(text, i, sort) <= text.len(),
        i < text.len() && spec_in_run(sort, text[i as int]) ==> i < spec_run_end(text, i, sort),
    decreases text.len() - i,
{
    if i < text.len() && spec_in_run(sort, text[i as int]) {
        lemma_run_end_bounds(text, i + 1, sort);
    }
}

/// A number run ends at or behind its start, within the text.
pub proof fn lemma_number_scan_bounds(text: Seq<char>, i: nat, dec: bool)
    ensures
        match spec_number_scan(text, i, dec) {
            Ok(end) => i <= end && (i <= text.len() ==> end <= text.len()) && (i < text.len()
                && spec_is_digit(text[i as int]) ==> i < end),
            Err(second) => i <= second < text.len(),
        },
    decreases text.len() - i,
{
    if i < text.len() && spec_is_digit(text[i as int]) {
        lemma_number_scan_bounds(text, i + 1, dec);
    } else if i < text.len() && text[i as int] == '.' {
        if !dec {
            lemma_number_scan_bounds(text, i + 1, true);
        }
    }
}

/// A string literal ends behind where its inside begins, within the text.
pub proof fn lemma_string_scan_bounds(text: Seq<char>, i: nat, esc: bool, acc: Seq<char>)
    ensures
        match spec_string_scan(text, i, esc, acc) {
            Ok((_, next)) => i < next <= text.len(),
            Err((_, at)) => i <= at && (i <= text.len() ==> at <= text.len()),
        },
    decreases text.len() - i,
{
    if !spec_done(text, i) {
        let c = text[i as int];
        if esc {
            if let Some(resolved) = spec_esc(c) {
                lemma_string_scan_bounds(text, i + 1, false, acc.push(resolved));
            }
        } else if c == '"' {
        } else if c == '\n' {
        } else if c == '\\' {
            lemma_string_scan_bounds(text, i + 1, true, acc);
        } else {
            lemma_string_scan_bounds(text, i + 1, false, acc.push(c));
        }
    }
}

/// Every step consumes at least one character and stays within the text.
pub proof fn lemma_step_advances(
    filename: Seq<char>,
    text: Seq<char>,
    i: nat,
    depth: nat,
    after_newline: bool,
)
    requires
        !spec_done(text, i),
    ensures
        spec_step(filename, text, i, depth, after_newline) is Ok ==> i < spec_step(
            filename,
            text,
            i,
            depth,
            after_newline,
        )->Ok_0.next <= text.len(),
{
    lemma_run_end_bounds(text, i, RunSort::Operator);
    lemma_run_end_bounds(text, i, RunSort::Comment);
    lemma_run_end_bounds(text, i, RunSort::Identifier);
    lemma_number_scan_bounds(text, i, false);
    lemma_string_scan_bounds(text, i + 1, false, Seq::empty());
}

/// The tokens of the text from offset `i` on, after `tokens`, with `depth` brackets open:
/// the lexer takes one step after another until the input is over or a step fails.
pub open spec fn spec_lex_from(
    filename: Seq<char>,
    text: Seq<char>,
    i: nat,
    depth: nat,
    tokens: Seq<TokenView>,
) -> Result<Seq<TokenView>, DiagnosticView>
    decreases text.len() - i,
{
    if spec_done(text, i) {
        Ok(tokens)
    } else {
        match spec_step(filename, text, i, depth, spec_after_newline(tokens)) {
            Err(e) => Err(e),
            Ok(step) => {
                proof {
                    lemma_step_advances(filename, text, i, depth, spec_after_newline(tokens));
                }
                spec_lex_from(filename, text, step.next, step.depth, spec_emit(tokens, step))
            },
        }
    }
}

/// The tokens of a whole source text.
pub open spec fn spec_lex(filename: Seq<char>, text: Seq<char>) -> Result<
    Seq<TokenView>,
    DiagnosticView,
> {
    spec_lex_from(filename, text, 0, 0, Seq::empty())
}

} // verus!
