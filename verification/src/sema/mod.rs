//! Semantic analysis: name resolution and type checking.
//!
//! Three passes over the top level: pass 1 declares the structs, pass 2
//! resolves function signatures and struct fields, pass 3 checks every
//! statement and builds the typed tree.
pub mod ty;
pub mod tast;
pub mod symbols;
pub mod error;
pub mod rules;
pub mod resolve;
pub mod check;
pub mod check_stmt;
pub mod program;
pub mod laws;
pub mod scopes;
pub mod ids;

use vstd::prelude::*;
use crate::parser::ast;
use check::Sema;
use resolve::outcome;

pub use error::{SemaError, SemaErrorKind, SpecSemaError};

verus! {

/// Checks a program: `Ok` with the typed tree exactly when the rules accept it,
/// else the first error they find.
pub fn check(program: ast::Program) -> (res: Result<tast::Program, SemaError>)
    ensures
        outcome(res) == rules::spec_check(program@),
{
    let mut sema = Sema::new();
    sema.check_program(&program)
}

} // verus!
