use vstd::prelude::*;
use crate::lang::lexer::char_state::{is_whitespace, spec_is_whitespace};
use crate::text::{chars_of, push_char, push_decimal, push_range, spec_decimal};

verus! {

/// A place in a source text: the file's name, the text, and the offset, line and column of
/// the next character that has not been consumed. Lines and columns count from one.
#[derive(Copy, Clone, Debug, PartialEq, Eq)]
pub struct Position<'a> {
    source: &'a str,
    filename: &'a str,
    absolute_index: usize,
    column: usize,
    row: usize,
}

/// What a `Position` stands for.
pub ghost struct PositionView {
    pub filename: Seq<char>,
    pub source: Seq<char>,
    pub index: nat,
    pub row: nat,
    pub column: nat,
}

/// The line of the character at offset `index` of `text`: one more than the number of line
/// feeds before it.
pub open spec fn spec_row_at(text: Seq<char>, index: nat) -> nat
    decreases index,
{
    if index == 0 || index > text.len() {
        1
    } else if text[index - 1] == '\n' {
        spec_row_at(text, (index - 1) as nat) + 1
    } else {
        spec_row_at(text, (index - 1) as nat)
    }
}

/// The column of the character at offset `index` of `text`: one more than the number of
/// characters between it and the start of its line.
pub open spec fn spec_column_at(text: Seq<char>, index: nat) -> nat
    decreases index,
{
    if index == 0 || index > text.len() {
        1
    } else if text[index - 1] == '\n' {
        1
    } else {
        spec_column_at(text, (index - 1) as nat) + 1
    }
}

/// The position of offset `index` in `source`.
pub open spec fn spec_position_at(filename: Seq<char>, source: Seq<char>, index: nat)
    -> PositionView {
    PositionView {
        filename,
        source,
        index,
        row: spec_row_at(source, index),
        column: spec_column_at(source, index),
    }
}

/// Lines and columns are at most one more than the offset.
pub proof fn lemma_position_bound(text: Seq<char>, index: nat)
    ensures
        1 <= spec_row_at(text, index) <= index + 1,
        1 <= spec_column_at(text, index) <= index + 1,
    decreases index,
{
    if index > 0 && index <= text.len() {
        lemma_position_bound(text, (index - 1) as nat);
    }
}

/// Moving over the character at `index` gives the position of the next offset: the next
/// line's first column after a line feed, the next column after any other character.
pub proof fn lemma_position_step(filename: Seq<char>, text: Seq<char>, index: nat)
    requires
        index < text.len(),
    ensures
        spec_position_at(filename, text, index + 1) == (PositionView {
            index: index + 1,
            row: if text[index as int] == '\n' {
                spec_row_at(text, index) + 1
            } else {
                spec_row_at(text, index)
            },
            column: if text[index as int] == '\n' {
                1
            } else {
                spec_column_at(text, index) + 1
            },
            ..spec_position_at(filename, text, index)
        }),
{
}

/// The offset of the first line feed of `text` at or after `from`, or the text's length.
pub open spec fn spec_line_end(text: Seq<char>, from: int) -> int
    decreases text.len() - from,
{
    if from < 0 || from >= text.len() {
        text.len() as int
    } else if text[from] == '\n' {
        from
    } else {
        spec_line_end(text, from + 1)
    }
}

/// Where line number `line` (from zero) of the text that starts at `from` begins and ends,
/// the line feed left out. A text's lines are its runs of characters up to each line feed,
/// and what follows the last line feed where that is not empty.
pub open spec fn spec_line_bounds(text: Seq<char>, from: int, line: nat) -> Option<(int, int)>
    decreases line,
{
    if from < 0 || from >= text.len() {
        None
    } else if line == 0 {
        Some((from, spec_line_end(text, from)))
    } else {
        spec_line_bounds(text, spec_line_end(text, from) + 1, (line - 1) as nat)
    }
}

/// The number of whitespace characters that `text[from..to]` begins with.
pub open spec fn spec_leading_whitespace(text: Seq<char>, from: int, to: int) -> nat
    decreases to - from,
{
    if 0 <= from < to <= text.len() && spec_is_whitespace(text[from]) {
        1 + spec_leading_whitespace(text, from + 1, to)
    } else {
        0
    }
}

/// The line as it is displayed and the width taken from its front: a carriage return
/// directly before the line feed does not belong to the line, and leading whitespace is
/// not shown.
pub open spec fn spec_display_line(text: Seq<char>, line: nat) -> Option<(Seq<char>, nat)> {
    match spec_line_bounds(text, 0, line) {
        None => None,
        Some((start, end)) => {
            let stop = if start < end < text.len() && text[end - 1] == '\r' {
                end - 1
            } else {
                end
            };
            let offset = spec_leading_whitespace(text, start, stop);
            Some((text.subrange(start + offset, stop), offset))
        },
    }
}

/// `count` spaces.
pub open spec fn spec_spaces(count: nat) -> Seq<char> {
    Seq::new(count, |i: int| ' ')
}

/// The rendered block: the displayed line, under it a caret below the position's column,
/// and the location tag.
pub open spec fn spec_render(p: PositionView) -> Option<Seq<char>> {
    if p.row < 1 {
        None
    } else {
        match spec_display_line(p.source, (p.row - 1) as nat) {
            None => None,
            Some((line, offset)) => {
                let indent = if p.column >= 1 + offset {
                    (p.column - 1 - offset) as nat
                } else {
                    0
                };
                Some(
                    "\n\n\t\t"@ + line + "\n\t\t"@ + spec_spaces(indent) + "^\n\t["@ + p.filename
                        + "(Ln:"@ + spec_decimal(p.row) + " Col:"@ + spec_decimal(p.column)
                        + ")]"@,
                )
            },
        }
    }
}

impl<'a> View for Position<'a> {
    type V = PositionView;

    closed spec fn view(&self) -> PositionView {
        PositionView {
            filename: self.filename@,
            source: self.source@,
            index: self.absolute_index as nat,
            row: self.row as nat,
            column: self.column as nat,
        }
    }
}

impl<'a> Position<'a> {
    /// The position of the first character of `source`.
    pub fn new(filename: &'a str, source: &'a str) -> (r: Self)
        ensures
            r@ == (PositionView {
                filename: filename@,
                source: source@,
                index: 0,
                row: 1,
                column: 1,
            }),
    {
        Position { filename, source, absolute_index: 0, column: 1, row: 1 }
    }

    /// Moves over one character; `newline` says that the character ended its line.
    pub fn advance(&mut self, newline: bool)
        requires
            old(self)@.index < usize::MAX,
            old(self)@.row < usize::MAX,
            old(self)@.column < usize::MAX,
        ensures
            final(self)@ == (PositionView {
                index: old(self)@.index + 1,
                row: if newline {
                    old(self)@.row + 1
                } else {
                    old(self)@.row
                },
                column: if newline {
                    1
                } else {
                    old(self)@.column + 1
                },
                ..old(self)@
            }),
    {
        self.column = if newline {
            1
        } else {
            self.column + 1
        };
        self.row = if newline {
            self.row + 1
        } else {
            self.row
        };
        self.absolute_index += 1;
    }

    pub fn filename(&self) -> (r: &'a str)
        ensures
            r@ == self@.filename,
    {
        self.filename
    }

    pub fn source(&self) -> (r: &'a str)
        ensures
            r@ == self@.source,
    {
        self.source
    }

    pub fn index(&self) -> (r: usize)
        ensures
            r == self@.index,
    {
        self.absolute_index
    }

    pub fn row(&self) -> (r: usize)
        ensures
            r == self@.row,
    {
        self.row
    }

    pub fn column(&self) -> (r: usize)
        ensures
            r == self@.column,
    {
        self.column
    }

    /// Renders the position for a diagnostic. There is nothing to render, and the result is
    /// `None`, exactly when the source has no line of the position's row.
    pub fn render(&self) -> (r: Option<String>)
        ensures
            r is Some <==> spec_render(self@) is Some,
            r is Some ==> r->0@ == spec_render(self@)->0,
    {
        if self.row < 1 {
            return None;
        }
        let chars = chars_of(self.source);
        match get_line(&chars, self.row - 1) {
            None => None,
            Some((start, stop, offset)) => {
                let mut out = String::new();
                out.append("\n\n\t\t");
                push_range(&mut out, &chars, start + offset, stop);
                out.append("\n\t\t");
                let indent: usize = if self.column > offset {
                    self.column - 1 - offset
                } else {
                    0
                };
                let mut i: usize = 0;
                let ghost before = out@;
                while i < indent
                    invariant
                        i <= indent,
                        out@ == before + spec_spaces(i as nat),
                    decreases indent - i,
                {
                    push_char(&mut out, ' ');
                    i += 1;
                    assert(out@ =~= before + spec_spaces(i as nat));
                }
                out.append("^\n\t[");
                out.append(self.filename);
                out.append("(Ln:");
                push_decimal(&mut out, self.row);
                out.append(" Col:");
                push_decimal(&mut out, self.column);
                out.append(")]");
                Some(out)
            },
        }
    }
}

/// Finds a line of `chars`: where what is displayed of it begins, once `offset` characters
/// of leading whitespace are passed over, and where it ends.
pub fn get_line(chars: &Vec<char>, line: usize) -> (r: Option<(usize, usize, usize)>)
    ensures
        r is Some <==> spec_display_line(chars@, line as nat) is Some,
        r is Some ==> ({
            let (start, stop, offset) = r->0;
            let (text, width) = spec_display_line(chars@, line as nat)->0;
            &&& start + offset <= stop <= chars.len()
            &&& text == chars@.subrange(start + offset, stop as int)
            &&& width == offset
        }),
{
    let mut from: usize = 0;
    let mut left: usize = line;
    loop
        invariant
            from <= chars.len(),
            left <= line,
            spec_line_bounds(chars@, 0, line as nat) == spec_line_bounds(
                chars@,
                from as int,
                left as nat,
            ),
        decreases chars.len() - from,
    {
        if from >= chars.len() {
            return None;
        }
        let mut end: usize = from;
        while end < chars.len() && chars[end] != '\n'
            invariant
                from <= end <= chars.len(),
                spec_line_end(chars@, from as int) == spec_line_end(chars@, end as int),
            decreases chars.len() - end,
        {
            end += 1;
        }
        if left == 0 {
            let stop: usize = if from < end && end < chars.len() && chars[end - 1] == '\r' {
                end - 1
            } else {
                end
            };
            let mut offset: usize = 0;
            while from + offset < stop && is_whitespace(chars[from + offset])
                invariant
                    from + offset <= stop <= chars.len(),
                    spec_leading_whitespace(chars@, from as int, stop as int) == offset
                        + spec_leading_whitespace(chars@, from + offset, stop as int),
                decreases stop - offset,
            {
                offset += 1;
            }
            return Some((from, stop, offset));
        }
        assert(spec_line_end(chars@, end as int) == end);
        assert(spec_line_bounds(chars@, from as int, left as nat) == spec_line_bounds(
            chars@,
            end + 1,
            (left - 1) as nat,
        ));
        if end >= chars.len() {
            return None;
        }
        from = end + 1;
        left -= 1;
    }
}

} // verus!
