use crate::location::Span;
use vstd::prelude::*;

verus! {

/// The unary operators.
#[derive(Debug, Clone, Copy, PartialEq, Eq, Structural)]
pub enum UnopKind {
    Length,
    Not,
    Negate,
}

impl UnopKind {
    pub open spec fn spec_order(self) -> usize {
        7
    }

    /// The binding power of the operator.
    pub fn order(&self) -> (r: usize)
        ensures
            r == self.spec_order(),
    {
        match self {
            UnopKind::Length => 7,
            UnopKind::Not => 7,
            UnopKind::Negate => 7,
        }
    }
}

/// The binary operators.
#[derive(Debug, Clone, Copy, PartialEq, Eq, Structural)]
pub enum BinopKind {
    Exponent,
    Multiply,
    FloorDivision,
    Divide,
    Modulo,
    Add,
    Subtract,
    Concat,
    Equality,
    Inequality,
    GreaterThan,
    GreaterEqual,
    LessThan,
    LessEqual,
    And,
    Or,
}

impl BinopKind {
    /// The binding power of the operator: higher binds tighter.
    pub open spec fn spec_order(self) -> usize {
        match self {
            BinopKind::Exponent => 10,
            BinopKind::Multiply => 7,
            BinopKind::FloorDivision => 7,
            BinopKind::Divide => 7,
            BinopKind::Modulo => 7,
            BinopKind::Add => 6,
            BinopKind::Subtract => 6,
            BinopKind::Concat => 5,
            BinopKind::Equality => 3,
            BinopKind::Inequality => 3,
            BinopKind::GreaterThan => 3,
            BinopKind::GreaterEqual => 3,
            BinopKind::LessThan => 3,
            BinopKind::LessEqual => 3,
            BinopKind::And => 2,
            BinopKind::Or => 1,
        }
    }

    pub fn order(&self) -> (r: usize)
        ensures
            r == self.spec_order(),
    {
        match self {
            BinopKind::Exponent => 10,
            BinopKind::Multiply => 7,
            BinopKind::FloorDivision => 7,
            BinopKind::Divide => 7,
            BinopKind::Modulo => 7,
            BinopKind::Add => 6,
            BinopKind::Subtract => 6,
            BinopKind::Concat => 5,
            BinopKind::Equality => 3,
            BinopKind::Inequality => 3,
            BinopKind::GreaterThan => 3,
            BinopKind::GreaterEqual => 3,
            BinopKind::LessThan => 3,
            BinopKind::LessEqual => 3,
            BinopKind::And => 2,
            BinopKind::Or => 1,
        }
    }

    pub open spec fn spec_is_right_associative(self) -> bool {
        self is Concat || self is Exponent
    }

    /// Concatenation and exponentiation group to the right.
    pub fn is_right_associative(&self) -> (r: bool)
        ensures
            r == self.spec_is_right_associative(),
    {
        matches!(self, BinopKind::Concat | BinopKind::Exponent)
    }
}

/// A binary operator with its span.
#[derive(Debug, Clone, Copy, PartialEq, Eq, Structural)]
pub struct Binop {
    pub kind: BinopKind,
    pub span: Span,
}

/// A unary operator with its span.
#[derive(Debug, Clone, Copy, PartialEq, Eq, Structural)]
pub struct Unop {
    pub kind: UnopKind,
    pub span: Span,
}

/// `true` or `false`, with its span.
#[derive(Debug, Clone, Copy, PartialEq, Eq, Structural)]
pub struct Bool {
    pub span: Span,
    pub value: bool,
}

impl Binop {
    pub fn new(kind: BinopKind, span: Span) -> (r: Self)
        ensures
            r == (Binop { kind, span }),
    {
        Binop { kind, span }
    }

    pub fn kind(&self) -> (r: &BinopKind)
        ensures
            *r == self.kind,
    {
        &self.kind
    }

    pub fn span(&self) -> (r: Span)
        ensures
            r == self.span,
    {
        self.span
    }
}

impl Unop {
    pub fn new(kind: UnopKind, span: Span) -> (r: Self)
        ensures
            r == (Unop { kind, span }),
    {
        Unop { kind, span }
    }

    pub fn kind(&self) -> (r: &UnopKind)
        ensures
            *r == self.kind,
    {
        &self.kind
    }

    pub fn span(&self) -> (r: Span)
        ensures
            r == self.span,
    {
        self.span
    }
}

impl Bool {
    pub fn new(span: Span, value: bool) -> (r: Self)
        ensures
            r == (Bool { span, value }),
    {
        Bool { span, value }
    }

    pub fn span(&self) -> (r: Span)
        ensures
            r == self.span,
    {
        self.span
    }

    pub fn value(&self) -> (r: &bool)
        ensures
            *r == self.value,
    {
        &self.value
    }
}

} // verus!
