use vstd::prelude::*;
use crate::errorsystem::error_type::ErrorView;
use crate::errorsystem::DiagnosticView;
use crate::lang::lexer::char_maps::spec_esc;
use crate::lang::lexer::char_state::{
    spec_is_digit,
    spec_is_newline,
    spec_is_whitespace,
    spec_state,
    CharState,
};
use crate::lang::lexer::scan::{
    lemma_number_scan_bounds,
    lemma_run_end_bounds,
    spec_in_run,
    spec_run_end,
    RunSort,
    lemma_step_advances,
    spec_after_newline,
    spec_all_digits,
    spec_done,
    spec_emit,
    spec_error_at,
    spec_is_decimal_point_of,
    spec_is_number_literal,
    spec_current,
    spec_lex,
    spec_lex_from,
    spec_number,
    spec_number_scan,
    spec_step,
    spec_string,
    spec_string_scan,
    spec_token_at,
    LexStep,
};
use crate::lang::lexer::token::token_type::TokenType;
use crate::lang::lexer::token::TokenView;
use crate::lang::lexer::LexerView;

verus! {

/// Reading a number passes over digits without a change of state.
pub proof fn lemma_number_scan_over_digits(text: Seq<char>, from: nat, to: nat, dec: bool)
    requires
        from <= to <= text.len(),
        spec_all_digits(text, from as int, to as int),
    ensures
        spec_number_scan(text, from, dec) == spec_number_scan(text, to, dec),
    decreases to - from,
{
    if from < to {
        assert(spec_is_digit(text[from as int]));
        lemma_number_scan_over_digits(text, from + 1, to, dec);
    }
}

/// A text that is digits, one decimal point and digits lexes to one `Number` token, which
/// begins at the text's start and whose payload is the text itself.
pub proof fn lemma_lex_decimal_literal(filename: Seq<char>, text: Seq<char>)
    requires
        exists|dot: int| spec_is_decimal_point_of(text, dot),
    ensures
        spec_lex(filename, text) == Ok::<Seq<TokenView>, DiagnosticView>(
            seq![spec_token_at(filename, text, TokenType::Number, text, 0)],
        ),
{
    let dot = choose|dot: int| spec_is_decimal_point_of(text, dot);
    let n = text.len();
    let token = spec_token_at(filename, text, TokenType::Number, text, 0);
    lemma_number_scan_over_digits(text, 0, dot as nat, false);
    lemma_number_scan_over_digits(text, (dot + 1) as nat, n, true);
    assert(spec_number_scan(text, dot as nat, false) == spec_number_scan(
        text,
        (dot + 1) as nat,
        true,
    ));
    assert(spec_number_scan(text, n, true) == Ok::<nat, nat>(n));
    assert(spec_is_digit(text[0]));
    assert(spec_is_digit(text[n - 1]));
    assert(text.subrange(0, n as int) =~= text);
    assert(spec_number(filename, text, 0, 0) == Ok::<LexStep, DiagnosticView>(
        LexStep { token: Some(token), next: n, depth: 0 },
    ));
    assert(spec_state(text[0]) == Ok::<CharState, char>(CharState::Number));
    assert(Seq::<TokenView>::empty().push(token) =~= seq![token]);
    assert(spec_lex_from(filename, text, n, 0, seq![token]) == Ok::<
        Seq<TokenView>,
        DiagnosticView,
    >(seq![token]));
}

/// Where the lexer comes to a number at `start` that has a second decimal point, with
/// nothing but digits before the first and between the two, lexing fails with
/// `DoubleDecimal` at the position of the second decimal point, whatever was lexed before
/// (the whole text's number with `start` zero, no bracket open and no token yet).
pub proof fn lemma_second_decimal_point_fails(
    filename: Seq<char>,
    text: Seq<char>,
    start: nat,
    first: nat,
    second: nat,
    depth: nat,
    tokens: Seq<TokenView>,
)
    requires
        start < first < second < text.len(),
        spec_all_digits(text, start as int, first as int),
        text[first as int] == '.',
        spec_all_digits(text, (first + 1) as int, second as int),
        text[second as int] == '.',
    ensures
        spec_lex_from(filename, text, start, depth, tokens) == Err::<
            Seq<TokenView>,
            DiagnosticView,
        >(spec_error_at(filename, text, ErrorView::DoubleDecimal, second)),
{
    lemma_number_scan_over_digits(text, start, first, false);
    lemma_number_scan_over_digits(text, first + 1, second, true);
    assert(spec_number_scan(text, first, false) == spec_number_scan(text, first + 1, true));
    assert(spec_number_scan(text, second, true) == Err::<nat, nat>(second));
    assert(spec_is_digit(text[start as int]));
    assert(spec_state(text[start as int]) == Ok::<CharState, char>(CharState::Number));
}

/// A string literal that holds one escape, a backslash and a letter of the escape table,
/// lexes to one `String` token whose payload is the one character that the table gives
/// for the letter.
pub proof fn lemma_lex_escaped_character(filename: Seq<char>, letter: char)
    requires
        spec_esc(letter) is Some,
    ensures
        spec_lex(filename, seq!['"', '\\', letter, '"']) == Ok::<Seq<TokenView>, DiagnosticView>(
            seq![
                spec_token_at(
                    filename,
                    seq!['"', '\\', letter, '"'],
                    TokenType::String,
                    seq![spec_esc(letter)->0],
                    0,
                ),
            ],
        ),
{
    let text = seq!['"', '\\', letter, '"'];
    let payload = seq![spec_esc(letter)->0];
    let token = spec_token_at(filename, text, TokenType::String, payload, 0);
    assert(text.len() == 4);
    assert(text[0] == '"' && text[1] == '\\' && text[2] == letter && text[3] == '"');
    assert(Seq::<char>::empty().push(spec_esc(letter)->0) =~= payload);
    assert(spec_string_scan(text, 3, false, payload) == Ok::<(Seq<char>, nat), (ErrorView, nat)>(
        (payload, 4),
    ));
    assert(spec_string_scan(text, 2, true, Seq::empty()) == spec_string_scan(
        text,
        3,
        false,
        payload,
    ));
    assert(spec_string_scan(text, 1, false, Seq::empty()) == spec_string_scan(
        text,
        2,
        true,
        Seq::empty(),
    ));
    assert(spec_string(filename, text, 0, 0) == Ok::<LexStep, DiagnosticView>(
        LexStep { token: Some(token), next: 4, depth: 0 },
    ));
    assert(spec_state(text[0]) == Ok::<CharState, char>(CharState::Quotation));
    assert(Seq::<TokenView>::empty().push(token) =~= seq![token]);
    assert(spec_lex_from(filename, text, 4, 0, seq![token]) == Ok::<
        Seq<TokenView>,
        DiagnosticView,
    >(seq![token]));
}

/// While a bracket is open, a statement separator gives no token: lexing goes on behind it
/// with the same brackets open and the same tokens, as it does behind whitespace.
pub proof fn lemma_separator_inside_brackets(
    filename: Seq<char>,
    text: Seq<char>,
    i: nat,
    depth: nat,
    tokens: Seq<TokenView>,
)
    requires
        i < text.len(),
        spec_is_newline(text[i as int]),
        depth > 0,
    ensures
        spec_lex_from(filename, text, i, depth, tokens) == spec_lex_from(
            filename,
            text,
            i + 1,
            depth,
            tokens,
        ),
{
    assert(spec_state(text[i as int]) == Ok::<CharState, char>(CharState::Newline));
}

/// Whitespace gives no token: lexing goes on behind it with the same brackets open and
/// the same tokens.
pub proof fn lemma_whitespace_is_skipped(
    filename: Seq<char>,
    text: Seq<char>,
    i: nat,
    depth: nat,
    tokens: Seq<TokenView>,
)
    requires
        i < text.len(),
        spec_is_whitespace(text[i as int]),
        !spec_is_newline(text[i as int]),
    ensures
        spec_lex_from(filename, text, i, depth, tokens) == spec_lex_from(
            filename,
            text,
            i + 1,
            depth,
            tokens,
        ),
{
    assert(spec_state(text[i as int]) == Ok::<CharState, char>(CharState::Whitespace));
}

/// Lexing is a function of the source: two lexers at the start of the same text of the same
/// file give the same tokens, or the same diagnostic.
pub proof fn lemma_lex_is_deterministic(a: LexerView, b: LexerView)
    requires
        a.filename == b.filename,
        a.source == b.source,
        a.index == 0 && b.index == 0,
        a.depth == 0 && b.depth == 0,
    ensures
        spec_lex_from(a.filename, a.source, a.index, a.depth, Seq::empty()) == spec_lex_from(
            b.filename,
            b.source,
            b.index,
            b.depth,
            Seq::empty(),
        ),
        spec_lex_from(a.filename, a.source, a.index, a.depth, Seq::empty()) == spec_lex(
            a.filename,
            a.source,
        ),
{
}

/// A character that stands for itself inside a string literal and does not end it.
pub open spec fn spec_is_plain_in_string(c: char) -> bool {
    c != '"' && c != '\\' && c != '\n' && c != '\0'
}

/// Inside a string literal, plain characters are taken as they are.
pub proof fn lemma_string_scan_over_plain(text: Seq<char>, from: nat, to: nat, acc: Seq<char>)
    requires
        from <= to <= text.len(),
        forall|k: int| from <= k < to ==> spec_is_plain_in_string(#[trigger] text[k]),
    ensures
        spec_string_scan(text, from, false, acc) == spec_string_scan(
            text,
            to,
            false,
            acc + text.subrange(from as int, to as int),
        ),
    decreases to - from,
{
    if from < to {
        assert(spec_is_plain_in_string(text[from as int]));
        lemma_string_scan_over_plain(text, from + 1, to, acc.push(text[from as int]));
        assert(acc.push(text[from as int]) + text.subrange((from + 1) as int, to as int) =~= acc
            + text.subrange(from as int, to as int));
    } else {
        assert(acc + text.subrange(from as int, to as int) =~= acc);
    }
}

/// Where the lexer comes to a quote at `start` behind which only plain characters stand up
/// to the end of the text, lexing fails with `UnclosedString` at the position of the end
/// of the input, whatever was lexed before.
pub proof fn lemma_unterminated_string_fails(
    filename: Seq<char>,
    text: Seq<char>,
    start: nat,
    depth: nat,
    tokens: Seq<TokenView>,
)
    requires
        start < text.len(),
        text[start as int] == '"',
        forall|k: int| start < k < text.len() ==> spec_is_plain_in_string(#[trigger] text[k]),
    ensures
        spec_lex_from(filename, text, start, depth, tokens) == Err::<
            Seq<TokenView>,
            DiagnosticView,
        >(spec_error_at(filename, text, ErrorView::UnclosedString, text.len())),
{
    lemma_string_scan_over_plain(text, start + 1, text.len(), Seq::empty());
    assert(spec_state(text[start as int]) == Ok::<CharState, char>(CharState::Quotation));
}

/// A text without tokens: the empty text lexes to no token at all.
pub proof fn lemma_lex_empty(filename: Seq<char>)
    ensures
        spec_lex(filename, Seq::empty()) == Ok::<Seq<TokenView>, DiagnosticView>(Seq::empty()),
{
}

/// Every `Number` token among `tokens` holds the text of a number literal.
pub open spec fn spec_numbers_are_literals(tokens: Seq<TokenView>) -> bool {
    forall|k: int|
        0 <= k < tokens.len() && (#[trigger] tokens[k]).kind == TokenType::Number
            ==> spec_is_number_literal(tokens[k].text)
}

/// A number run without a second decimal point is digits, or digits around one decimal
/// point, which may stand at either end.
pub proof fn lemma_number_scan_shape(text: Seq<char>, i: nat, dec: bool)
    ensures
        match spec_number_scan(text, i, dec) {
            Ok(end) => spec_all_digits(text, i as int, end as int) || (!dec && exists|dot: int|
                i <= dot < end && #[trigger] text[dot] == '.' && spec_all_digits(
                    text,
                    i as int,
                    dot,
                ) && spec_all_digits(text, dot + 1, end as int)),
            Err(_) => true,
        },
    decreases text.len() - i,
{
    if i < text.len() && spec_is_digit(text[i as int]) {
        lemma_number_scan_shape(text, i + 1, dec);
        if let Ok(end) = spec_number_scan(text, i, dec) {
            if !spec_all_digits(text, (i + 1) as int, end as int) {
                let dot = choose|dot: int|
                    i + 1 <= dot < end && #[trigger] text[dot] == '.' && spec_all_digits(
                        text,
                        (i + 1) as int,
                        dot,
                    ) && spec_all_digits(text, dot + 1, end as int);
                assert(spec_all_digits(text, i as int, dot));
            }
        }
    } else if i < text.len() && text[i as int] == '.' {
        if !dec {
            lemma_number_scan_shape(text, i + 1, true);
            if let Ok(end) = spec_number_scan(text, i, dec) {
                assert(text[i as int] == '.' && spec_all_digits(text, i as int, i as int));
            }
        }
    }
}

/// The payload of a `Number` token that the lexer reads is the text of a number literal.
pub proof fn lemma_lexed_number_is_literal(filename: Seq<char>, text: Seq<char>, i: nat, depth: nat)
    requires
        i < text.len(),
        spec_is_digit(text[i as int]),
    ensures
        spec_number(filename, text, i, depth) matches Ok(step) ==> step.token is Some
            && spec_is_number_literal(step.token->0.text),
{
    lemma_number_scan_shape(text, i, false);
    lemma_number_scan_bounds(text, i, false);
    if let Ok(end) = spec_number_scan(text, i, false) {
        if !(end > i && text[end - 1] == '.') {
            let run = text.subrange(i as int, end as int);
            assert(forall|k: int| 0 <= k < run.len() ==> run[k] == text[i + k]);
            if spec_all_digits(text, i as int, end as int) {
                assert(spec_all_digits(run, 0, run.len() as int));
            } else {
                let dot = choose|dot: int|
                    i <= dot < end && #[trigger] text[dot] == '.' && spec_all_digits(
                        text,
                        i as int,
                        dot,
                    ) && spec_all_digits(text, dot + 1, end as int);
                assert(spec_is_decimal_point_of(run, dot - i)) by {
                    assert(run[dot - i] == text[dot]);
                    assert forall|k: int| 0 <= k < dot - i implies spec_is_digit(
                        #[trigger] run[k],
                    ) by {
                        assert(spec_is_digit(text[i + k]));
                    }
                    assert forall|k: int| dot - i + 1 <= k < run.len() implies spec_is_digit(
                        #[trigger] run[k],
                    ) by {
                        assert(spec_is_digit(text[i + k]));
                    }
                }
            }
        }
    }
}

/// Lexing keeps this: where every `Number` token before holds a number literal, every
/// `Number` token of the result does. So the parser reads a number from each of them.
pub proof fn lemma_lexed_numbers_are_literals(
    filename: Seq<char>,
    text: Seq<char>,
    i: nat,
    depth: nat,
    tokens: Seq<TokenView>,
)
    requires
        spec_numbers_are_literals(tokens),
    ensures
        spec_lex_from(filename, text, i, depth, tokens) matches Ok(all)
            ==> spec_numbers_are_literals(all),
    decreases text.len() - i,
{
    if !spec_done(text, i) {
        let after = spec_after_newline(tokens);
        if let Ok(step) = spec_step(filename, text, i, depth, after) {
            lemma_step_advances(filename, text, i, depth, after);
            if spec_is_digit(text[i as int]) {
                lemma_lexed_number_is_literal(filename, text, i, depth);
            }
            assert(step.token is Some && step.token->0.kind == TokenType::Number
                ==> spec_is_number_literal(step.token->0.text));
            assert(spec_numbers_are_literals(spec_emit(tokens, step)));
            lemma_lexed_numbers_are_literals(
                filename,
                text,
                step.next,
                step.depth,
                spec_emit(tokens, step),
            );
        }
    }
}

/// A run is the longest there is: every character from its start up to its end is of the
/// run's sort, and the character at its end, if there is one, is not.
pub proof fn lemma_run_is_longest(text: Seq<char>, i: nat, sort: RunSort)
    requires
        i <= text.len(),
    ensures
        i <= spec_run_end(text, i, sort) <= text.len(),
        forall|k: int| i <= k < spec_run_end(text, i, sort) ==> spec_in_run(sort, #[trigger] text[k]),
        spec_run_end(text, i, sort) < text.len() ==> !spec_in_run(
            sort,
            text[spec_run_end(text, i, sort) as int],
        ),
    decreases text.len() - i,
{
    if i < text.len() && spec_in_run(sort, text[i as int]) {
        lemma_run_is_longest(text, i + 1, sort);
    }
}

/// A number is read greedily: where the run has no second decimal point, the character at
/// its end, if there is one, is neither a digit nor a decimal point.
pub proof fn lemma_number_run_is_longest(text: Seq<char>, i: nat, dec: bool)
    requires
        i <= text.len(),
    ensures
        spec_number_scan(text, i, dec) matches Ok(end) ==> i <= end <= text.len() && (end
            < text.len() ==> !spec_is_digit(text[end as int]) && text[end as int] != '.'),
    decreases text.len() - i,
{
    if i < text.len() && spec_is_digit(text[i as int]) {
        lemma_number_run_is_longest(text, i + 1, dec);
    } else if i < text.len() && text[i as int] == '.' {
        if !dec {
            lemma_number_run_is_longest(text, i + 1, true);
        }
    }
}

/// Two texts are alike from `from` on: they are as long as each other and hold the same
/// characters at `from` and behind it.
pub open spec fn spec_same_from(a: Seq<char>, b: Seq<char>, from: nat) -> bool {
    a.len() == b.len() && forall|k: int| from <= k < a.len() ==> a[k] == b[k]
}

/// What the tokens are apart from their places: the kind and the payload of each.
pub open spec fn spec_shapes(tokens: Seq<TokenView>) -> Seq<(TokenType, Seq<char>)> {
    tokens.map_values(|t: TokenView| (t.kind, t.text))
}

/// What a result of lexing is apart from places: the kinds and payloads of the tokens, or
/// the kind of the failure and its offset.
pub open spec fn spec_outcome(r: Result<Seq<TokenView>, DiagnosticView>) -> Result<
    Seq<(TokenType, Seq<char>)>,
    (ErrorView, Option<nat>),
> {
    match r {
        Ok(tokens) => Ok(spec_shapes(tokens)),
        Err(e) => Err(
            (
                e.kind,
                match e.pos {
                    Some(p) => Some(p.index),
                    None => None,
                },
            ),
        ),
    }
}

proof fn lemma_run_end_same(a: Seq<char>, b: Seq<char>, from: nat, j: nat, sort: RunSort)
    requires
        spec_same_from(a, b, from),
        from <= j,
    ensures
        spec_run_end(a, j, sort) == spec_run_end(b, j, sort),
    decreases a.len() - j,
{
    if j < a.len() {
        lemma_run_end_same(a, b, from, j + 1, sort);
    }
}

proof fn lemma_number_scan_same(a: Seq<char>, b: Seq<char>, from: nat, j: nat, dec: bool)
    requires
        spec_same_from(a, b, from),
        from <= j,
    ensures
        spec_number_scan(a, j, dec) == spec_number_scan(b, j, dec),
    decreases a.len() - j,
{
    if j < a.len() {
        lemma_number_scan_same(a, b, from, j + 1, dec);
        lemma_number_scan_same(a, b, from, j + 1, true);
    }
}

proof fn lemma_string_scan_same(
    a: Seq<char>,
    b: Seq<char>,
    from: nat,
    j: nat,
    esc: bool,
    acc: Seq<char>,
)
    requires
        spec_same_from(a, b, from),
        from <= j,
    ensures
        spec_string_scan(a, j, esc, acc) == spec_string_scan(b, j, esc, acc),
    decreases a.len() - j,
{
    if j < a.len() {
        let c = a[j as int];
        lemma_string_scan_same(a, b, from, j + 1, true, acc);
        lemma_string_scan_same(a, b, from, j + 1, false, acc.push(c));
        if let Some(resolved) = spec_esc(c) {
            lemma_string_scan_same(a, b, from, j + 1, false, acc.push(resolved));
        }
    }
}

/// What a step is apart from places.
pub open spec fn spec_step_outcome(r: Result<LexStep, DiagnosticView>) -> Result<
    (Option<(TokenType, Seq<char>)>, nat, nat),
    (ErrorView, Option<nat>),
> {
    match r {
        Ok(step) => Ok(
            (
                match step.token {
                    Some(t) => Some((t.kind, t.text)),
                    None => None,
                },
                step.next,
                step.depth,
            ),
        ),
        Err(e) => Err(
            (
                e.kind,
                match e.pos {
                    Some(p) => Some(p.index),
                    None => None,
                },
            ),
        ),
    }
}

proof fn lemma_step_same(
    filename: Seq<char>,
    a: Seq<char>,
    b: Seq<char>,
    from: nat,
    j: nat,
    depth: nat,
    after_newline: bool,
)
    requires
        spec_same_from(a, b, from),
        from <= j < a.len(),
    ensures
        spec_step_outcome(spec_step(filename, a, j, depth, after_newline)) == spec_step_outcome(
            spec_step(filename, b, j, depth, after_newline),
        ),
{
    assert(a[j as int] == b[j as int]);
    lemma_run_end_same(a, b, from, j, RunSort::Operator);
    lemma_run_end_same(a, b, from, j, RunSort::Identifier);
    lemma_run_end_same(a, b, from, j, RunSort::Comment);
    lemma_run_end_bounds(a, j, RunSort::Operator);
    lemma_run_end_bounds(a, j, RunSort::Identifier);
    lemma_run_end_bounds(a, j, RunSort::Comment);
    lemma_number_scan_same(a, b, from, j, false);
    lemma_number_scan_bounds(a, j, false);
    lemma_string_scan_same(a, b, from, j + 1, false, Seq::empty());
    let operator_end = spec_run_end(a, j, RunSort::Operator);
    let identifier_end = spec_run_end(a, j, RunSort::Identifier);
    let comment_end = spec_run_end(a, j, RunSort::Comment);
    assert(a.subrange(j as int, operator_end as int) =~= b.subrange(
        j as int,
        operator_end as int,
    ));
    assert(a.subrange(j as int, identifier_end as int) =~= b.subrange(
        j as int,
        identifier_end as int,
    ));
    assert(spec_current(a, comment_end) == spec_current(b, comment_end));
    if let Ok(end) = spec_number_scan(a, j, false) {
        assert(a.subrange(j as int, end as int) =~= b.subrange(j as int, end as int));
        if end > j {
            assert(a[end - 1] == b[end - 1]);
        }
    }
}

proof fn lemma_lex_same(
    filename: Seq<char>,
    a: Seq<char>,
    b: Seq<char>,
    from: nat,
    j: nat,
    depth: nat,
    seen_a: Seq<TokenView>,
    seen_b: Seq<TokenView>,
)
    requires
        spec_same_from(a, b, from),
        from <= j,
        spec_shapes(seen_a) == spec_shapes(seen_b),
    ensures
        spec_outcome(spec_lex_from(filename, a, j, depth, seen_a)) == spec_outcome(
            spec_lex_from(filename, b, j, depth, seen_b),
        ),
    decreases a.len() - j,
{
    assert(spec_current(a, j) == spec_current(b, j));
    if !spec_done(a, j) {
        assert(spec_shapes(seen_a).len() == seen_a.len());
        assert(spec_shapes(seen_b).len() == seen_b.len());
        if seen_a.len() > 0 {
            assert(spec_shapes(seen_a)[seen_a.len() - 1].0 == seen_a.last().kind);
            assert(spec_shapes(seen_b)[seen_b.len() - 1].0 == seen_b.last().kind);
        }
        let after = spec_after_newline(seen_a);
        assert(after == spec_after_newline(seen_b));
        lemma_step_same(filename, a, b, from, j, depth, after);
        lemma_step_advances(filename, a, j, depth, after);
        let step_a = spec_step(filename, a, j, depth, after);
        let step_b = spec_step(filename, b, j, depth, after);
        if let Ok(x) = step_a {
            let y = step_b->Ok_0;
            assert(spec_shapes(spec_emit(seen_a, x)) =~= spec_shapes(spec_emit(seen_b, y))) by {
                if let Some(t) = x.token {
                    let u = y.token->0;
                    assert(spec_shapes(seen_a.push(t)) =~= spec_shapes(seen_a).push(
                        (t.kind, t.text),
                    ));
                    assert(spec_shapes(seen_b.push(u)) =~= spec_shapes(seen_b).push(
                        (u.kind, u.text),
                    ));
                }
            }
            lemma_lex_same(
                filename,
                a,
                b,
                from,
                x.next,
                x.depth,
                spec_emit(seen_a, x),
                spec_emit(seen_b, y),
            );
        }
    }
}

/// While a bracket is open, a statement separator counts as whitespace does: with a space
/// in its place the text lexes to tokens of the same kinds and payloads, or fails in the
/// same way at the same offset.
pub proof fn lemma_separator_inside_brackets_is_whitespace(
    filename: Seq<char>,
    text: Seq<char>,
    i: nat,
    depth: nat,
    tokens: Seq<TokenView>,
)
    requires
        i < text.len(),
        spec_is_newline(text[i as int]),
        depth > 0,
    ensures
        spec_outcome(spec_lex_from(filename, text, i, depth, tokens)) == spec_outcome(
            spec_lex_from(filename, text.update(i as int, ' '), i, depth, tokens),
        ),
{
    let blank = text.update(i as int, ' ');
    lemma_separator_inside_brackets(filename, text, i, depth, tokens);
    lemma_whitespace_is_skipped(filename, blank, i, depth, tokens);
    lemma_lex_same(filename, text, blank, i + 1, i + 1, depth, tokens, tokens);
}

} // verus!
