use vstd::prelude::*;

verus! {

/// The binary operators of the language.
#[derive(Debug, Clone, Copy, PartialEq, Eq, Structural)]
pub enum BinOpKind {
    Add,
    Sub,
    Mul,
    Div,
    EqEq,
    NotEq,
    Lt,
    Gt,
    LtEq,
    GtEq,
    And,
    Or,
}

/// The unary operators of the language.
#[derive(Debug, Clone, Copy, PartialEq, Eq, Structural)]
pub enum UnaryOpKind {
    Neg,
    Not,
}

} // verus!
