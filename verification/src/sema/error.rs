//! Why semantic analysis rejects a program.
use vstd::prelude::*;
use crate::common::span::Span;
use crate::common::op::BinOpKind;
use super::ty::{SpecTy, Ty};

verus! {

#[derive(Debug)]
pub enum SemaErrorKind {
    TopLevelReturn,
    TopLevelLet,
    TopLevelAssign,
    TopLevelIf,
    TopLevelBlock,
    TopLevelExpr,
    NotImplemented,
    UnknownType { name: String },
    FuncNotSnakeCase { name: String },
    StructNotPascalCase { name: String },
    VarNotSnakeCase { name: String },
    FuncAlreadyDefined { name: String },
    StructAlreadyDefined { name: String },
    FieldAlreadyDefined { name: String },
    VarAlreadyDefined { name: String },
    FuncNotDeclared { name: String },
    StructNotDeclared { name: String },
    /// A `return` whose value (`Void` without one) is not of the function's return type.
    ReturnValueMismatch { expected: Ty, got: Ty },
    /// A function body that can fall through and is not of the return type.
    ReturnTypeMismatch { func: String, expected: Ty, got: Ty },
    /// A call argument not of its parameter's type.
    ArgTypeMismatch { func: String, expected: Ty, got: Ty },
    /// A struct-literal field not of the field's type.
    FieldTypeMismatch { name: String, expected: Ty, got: Ty },
    /// An assignment whose value is not of the variable's type.
    AssignTypeMismatch { var: String, expected: Ty, got: Ty },
    /// A `local` whose value is not of its annotated type.
    LetTypeMismatch { var: String, expected: Ty, got: Ty },
    /// A condition that is not a `Bool`.
    ConditionNotBool { got: Ty },
    InvalidAssignTarget,
    UnknownVariable { name: String },
    UnknownFunction { name: String },
    InvalidBinaryOp { op: BinOpKind, left: Ty, right: Ty },
    ArgCount { name: String, expected: usize, got: usize },
    FieldCount { name: String, expected: usize, got: usize },
    CalleeNotIdentifier,
    UnsupportedExpression,
}

/// A semantic error and where it was found.
#[derive(Debug)]
pub struct SemaError {
    pub kind: SemaErrorKind,
    pub span: Span,
}

pub enum SpecSemaErrorKind {
    TopLevelReturn,
    TopLevelLet,
    TopLevelAssign,
    TopLevelIf,
    TopLevelBlock,
    TopLevelExpr,
    NotImplemented,
    UnknownType { name: Seq<char> },
    FuncNotSnakeCase { name: Seq<char> },
    StructNotPascalCase { name: Seq<char> },
    VarNotSnakeCase { name: Seq<char> },
    FuncAlreadyDefined { name: Seq<char> },
    StructAlreadyDefined { name: Seq<char> },
    FieldAlreadyDefined { name: Seq<char> },
    VarAlreadyDefined { name: Seq<char> },
    FuncNotDeclared { name: Seq<char> },
    StructNotDeclared { name: Seq<char> },
    ReturnValueMismatch { expected: SpecTy, got: SpecTy },
    ReturnTypeMismatch { func: Seq<char>, expected: SpecTy, got: SpecTy },
    ArgTypeMismatch { func: Seq<char>, expected: SpecTy, got: SpecTy },
    FieldTypeMismatch { name: Seq<char>, expected: SpecTy, got: SpecTy },
    AssignTypeMismatch { var: Seq<char>, expected: SpecTy, got: SpecTy },
    LetTypeMismatch { var: Seq<char>, expected: SpecTy, got: SpecTy },
    ConditionNotBool { got: SpecTy },
    InvalidAssignTarget,
    UnknownVariable { name: Seq<char> },
    UnknownFunction { name: Seq<char> },
    InvalidBinaryOp { op: BinOpKind, left: SpecTy, right: SpecTy },
    ArgCount { name: Seq<char>, expected: nat, got: nat },
    FieldCount { name: Seq<char>, expected: nat, got: nat },
    CalleeNotIdentifier,
    UnsupportedExpression,
}

pub struct SpecSemaError {
    pub kind: SpecSemaErrorKind,
    pub span: Span,
}

impl View for SemaErrorKind {
    type V = SpecSemaErrorKind;

    open spec fn view(&self) -> SpecSemaErrorKind {
        match self {
            SemaErrorKind::TopLevelReturn => SpecSemaErrorKind::TopLevelReturn,
            SemaErrorKind::TopLevelLet => SpecSemaErrorKind::TopLevelLet,
            SemaErrorKind::TopLevelAssign => SpecSemaErrorKind::TopLevelAssign,
            SemaErrorKind::TopLevelIf => SpecSemaErrorKind::TopLevelIf,
            SemaErrorKind::TopLevelBlock => SpecSemaErrorKind::TopLevelBlock,
            SemaErrorKind::TopLevelExpr => SpecSemaErrorKind::TopLevelExpr,
            SemaErrorKind::NotImplemented => SpecSemaErrorKind::NotImplemented,
            SemaErrorKind::UnknownType { name } => SpecSemaErrorKind::UnknownType { name: name@ },
            SemaErrorKind::FuncNotSnakeCase { name } => SpecSemaErrorKind::FuncNotSnakeCase { name: name@ },
            SemaErrorKind::StructNotPascalCase { name } => SpecSemaErrorKind::StructNotPascalCase {
                name: name@,
            },
            SemaErrorKind::VarNotSnakeCase { name } => SpecSemaErrorKind::VarNotSnakeCase { name: name@ },
            SemaErrorKind::FuncAlreadyDefined { name } => SpecSemaErrorKind::FuncAlreadyDefined {
                name: name@,
            },
            SemaErrorKind::StructAlreadyDefined { name } => SpecSemaErrorKind::StructAlreadyDefined {
                name: name@,
            },
            SemaErrorKind::FieldAlreadyDefined { name } => SpecSemaErrorKind::FieldAlreadyDefined {
                name: name@,
            },
            SemaErrorKind::VarAlreadyDefined { name } => SpecSemaErrorKind::VarAlreadyDefined {
                name: name@,
            },
            SemaErrorKind::FuncNotDeclared { name } => SpecSemaErrorKind::FuncNotDeclared { name: name@ },
            SemaErrorKind::StructNotDeclared { name } => SpecSemaErrorKind::StructNotDeclared {
                name: name@,
            },
            SemaErrorKind::ReturnValueMismatch { expected, got } => SpecSemaErrorKind::ReturnValueMismatch {
                expected: expected@,
                got: got@,
            },
            SemaErrorKind::ReturnTypeMismatch { func, expected, got } => SpecSemaErrorKind::ReturnTypeMismatch {
                func: func@,
                expected: expected@,
                got: got@,
            },
            SemaErrorKind::ArgTypeMismatch { func, expected, got } => SpecSemaErrorKind::ArgTypeMismatch {
                func: func@,
                expected: expected@,
                got: got@,
            },
            SemaErrorKind::FieldTypeMismatch { name, expected, got } => SpecSemaErrorKind::FieldTypeMismatch {
                name: name@,
                expected: expected@,
                got: got@,
            },
            SemaErrorKind::AssignTypeMismatch { var, expected, got } => SpecSemaErrorKind::AssignTypeMismatch {
                var: var@,
                expected: expected@,
                got: got@,
            },
            SemaErrorKind::LetTypeMismatch { var, expected, got } => SpecSemaErrorKind::LetTypeMismatch {
                var: var@,
                expected: expected@,
                got: got@,
            },
            SemaErrorKind::ConditionNotBool { got } => SpecSemaErrorKind::ConditionNotBool { got: got@ },
            SemaErrorKind::InvalidAssignTarget => SpecSemaErrorKind::InvalidAssignTarget,
            SemaErrorKind::UnknownVariable { name } => SpecSemaErrorKind::UnknownVariable { name: name@ },
            SemaErrorKind::UnknownFunction { name } => SpecSemaErrorKind::UnknownFunction { name: name@ },
            SemaErrorKind::InvalidBinaryOp { op, left, right } => SpecSemaErrorKind::InvalidBinaryOp {
                op: *op,
                left: left@,
                right: right@,
            },
            SemaErrorKind::ArgCount { name, expected, got } => SpecSemaErrorKind::ArgCount {
                name: name@,
                expected: *expected as nat,
                got: *got as nat,
            },
            SemaErrorKind::FieldCount { name, expected, got } => SpecSemaErrorKind::FieldCount {
                name: name@,
                expected: *expected as nat,
                got: *got as nat,
            },
            SemaErrorKind::CalleeNotIdentifier => SpecSemaErrorKind::CalleeNotIdentifier,
            SemaErrorKind::UnsupportedExpression => SpecSemaErrorKind::UnsupportedExpression,
        }
    }
}

impl View for SemaError {
    type V = SpecSemaError;

    open spec fn view(&self) -> SpecSemaError {
        SpecSemaError { kind: self.kind@, span: self.span }
    }
}

} // verus!
