//! A cursor over source text.

use vstd::prelude::*;

verus! {

/// A place in a source text: the offset of a character, the line and column
/// it stands on, and the name and full text of the file.
#[derive(Debug, PartialEq)]
pub struct Position {
    pub index: i64,
    pub line: i64,
    pub column: i64,
    pub file_name: String,
    pub file_text: String,
}

/// The mathematical value of a [`Position`].
pub ghost struct PositionView {
    pub index: int,
    pub line: int,
    pub column: int,
    pub file_name: Seq<char>,
    pub file_text: Seq<char>,
}

impl View for Position {
    type V = PositionView;

    open spec fn view(&self) -> PositionView {
        PositionView {
            index: self.index as int,
            line: self.line as int,
            column: self.column as int,
            file_name: self.file_name@,
            file_text: self.file_text@,
        }
    }
}

/// The view of an optional position.
pub open spec fn view_opt(p: Option<Position>) -> Option<PositionView> {
    match p {
        Some(q) => Some(q@),
        None => None,
    }
}

/// The position one character further on, where `current` is the character
/// being left: offset and column grow by one, and a newline starts the next
/// line at column zero.
pub open spec fn advanced(p: PositionView, current: Option<char>) -> PositionView {
    if current == Some('\n') {
        PositionView { index: p.index + 1, line: p.line + 1, column: 0, ..p }
    } else {
        PositionView { index: p.index + 1, column: p.column + 1, ..p }
    }
}

impl Clone for Position {
    fn clone(&self) -> (r: Self)
        ensures
            r == *self,
    {
        Position {
            index: self.index,
            line: self.line,
            column: self.column,
            file_name: self.file_name.clone(),
            file_text: self.file_text.clone(),
        }
    }
}

/// A copy of an optional position.
pub fn clone_position(p: &Option<Position>) -> (r: Option<Position>)
    ensures
        r == *p,
{
    match p {
        Some(q) => Some(q.clone()),
        None => None,
    }
}

impl Position {
    /// A position made of the parts given.
    pub fn new(index: i64, line: i64, column: i64, file_name: String, file_text: String) -> (r:
        Self)
        ensures
            r@ == (PositionView {
                index: index as int,
                line: line as int,
                column: column as int,
                file_name: file_name@,
                file_text: file_text@,
            }),
    {
        Self { index, line, column, file_name, file_text }
    }

    /// Moves one character further on; `current_char` is the character being
    /// left.
    pub fn advance(&mut self, current_char: Option<char>)
        requires
            old(self).index < i64::MAX,
            old(self).line < i64::MAX,
            old(self).column < i64::MAX,
        ensures
            final(self)@ == advanced(old(self)@, current_char),
    {
        self.index += 1;
        self.column += 1;
        if let Some(c) = current_char {
            if c == '\n' {
                self.line += 1;
                self.column = 0;
            }
        }
    }

    /// The offset in the text.
    pub fn index(&self) -> (r: i64)
        ensures
            r == self@.index,
    {
        self.index
    }

    /// The line, counted from zero.
    pub fn line(&self) -> (r: i64)
        ensures
            r == self@.line,
    {
        self.line
    }

    /// The column, counted from zero.
    pub fn column(&self) -> (r: i64)
        ensures
            r == self@.column,
    {
        self.column
    }

    /// A copy of the file's name.
    pub fn file_name(&self) -> (r: String)
        ensures
            r@ == self@.file_name,
    {
        self.file_name.clone()
    }

    /// A copy of the file's text.
    pub fn file_text(&self) -> (r: String)
        ensures
            r@ == self@.file_text,
    {
        self.file_text.clone()
    }
}

} // verus!
