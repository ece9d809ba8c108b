use vstd::prelude::*;

verus! {

/// A line/column position in the source, together with its byte offset.
///
/// Lines and columns count from 1; columns count characters, not bytes.
#[derive(Debug, Clone, Copy, PartialEq, Eq, Hash, Structural)]
pub struct Position {
    pub line: usize,
    pub column: usize,
    pub offset: usize,
}

impl Position {
    pub fn new(line: usize, column: usize, offset: usize) -> (p: Self)
        ensures
            p.line == line,
            p.column == column,
            p.offset == offset,
    {
        Self { line, column, offset }
    }

    pub fn line(&self) -> (r: usize)
        ensures
            r == self.line,
    {
        self.line
    }

    pub fn column(&self) -> (r: usize)
        ensures
            r == self.column,
    {
        self.column
    }

    pub fn offset(&self) -> (r: usize)
        ensures
            r == self.offset,
    {
        self.offset
    }

    pub fn with_line(self, line: usize) -> (p: Self)
        ensures
            p == (Position { line, ..self }),
    {
        Self { line, ..self }
    }

    pub fn with_column(self, column: usize) -> (p: Self)
        ensures
            p == (Position { column, ..self }),
    {
        Self { column, ..self }
    }

    pub fn with_offset(self, offset: usize) -> (p: Self)
        ensures
            p == (Position { offset, ..self }),
    {
        Self { offset, ..self }
    }
}

} // verus!
