pub mod span;
pub mod op;

use vstd::prelude::*;

verus! {

/// A literal as written in the source.
///
/// A float literal keeps its decimal spelling (`digits.digits`): no stage of
/// the compiler computes with its value.
#[derive(Debug, Clone, PartialEq, Eq)]
pub enum Literal {
    Int(i32),
    Float(String),
    Bool(bool),
}

/// The mathematical model of a [`Literal`].
pub enum SpecLiteral {
    Int(i32),
    Float(Seq<char>),
    Bool(bool),
}

impl View for Literal {
    type V = SpecLiteral;

    open spec fn view(&self) -> SpecLiteral {
        match self {
            Literal::Int(v) => SpecLiteral::Int(*v),
            Literal::Float(s) => SpecLiteral::Float(s@),
            Literal::Bool(b) => SpecLiteral::Bool(*b),
        }
    }
}

impl Literal {
    /// A copy of the literal with the same model.
    pub fn duplicate(&self) -> (res: Literal)
        ensures
            res@ == self@,
    {
        match self {
            Literal::Int(v) => Literal::Int(*v),
            Literal::Float(s) => Literal::Float(s.clone()),
            Literal::Bool(b) => Literal::Bool(*b),
        }
    }
}

} // verus!
