//! The rules of semantic analysis, as functions from the symbol table and a
//! syntax node to the typed node and the table after it, or an error.
//!
//! Lists are checked from left to right, each item in the table that the
//! items before it left; the first error found is the one reported.
use vstd::prelude::*;
use crate::common::span::Span;
use crate::common::SpecLiteral;
use crate::parser::ast;
use super::error::{SpecSemaError, SpecSemaErrorKind};
use super::symbols::{find_struct, spec_is_pascal_case, spec_is_snake_case, SpecSymbols};
use super::tast::{self, FuncId, StructFieldId, VarId};
use super::ty::{spec_bin_op_ty, SpecTy, StructId};

verus! {

pub type SRes<T> = Result<T, SpecSemaError>;

pub open spec fn fail<T>(kind: SpecSemaErrorKind, span: Span) -> SRes<T> {
    Err(SpecSemaError { kind, span })
}

pub open spec fn int_name() -> Seq<char> {
    seq!['I', 'n', 't']
}

pub open spec fn float_name() -> Seq<char> {
    seq!['F', 'l', 'o', 'a', 't']
}

pub open spec fn bool_name() -> Seq<char> {
    seq!['B', 'o', 'o', 'l']
}

pub open spec fn main_name() -> Seq<char> {
    seq!['m', 'a', 'i', 'n']
}

// ---- types ----

/// The type that a written type names: a builtin or a declared struct.
pub open spec fn resolve_ty(st: SpecSymbols, t: ast::SpecTy) -> SRes<SpecTy>
    decreases t, 0int,
{
    match t {
        ast::SpecTy::Named { name } => if name.value == int_name() {
            Ok(SpecTy::Int)
        } else if name.value == float_name() {
            Ok(SpecTy::Float)
        } else if name.value == bool_name() {
            Ok(SpecTy::Bool)
        } else {
            match st.lookup_struct_id(name.value) {
                Some(id) => Ok(SpecTy::Struct(id)),
                None => fail(SpecSemaErrorKind::UnknownType { name: name.value }, name.span),
            }
        },
        ast::SpecTy::Array(inner) => match resolve_ty(st, *inner) {
            Ok(r) => Ok(SpecTy::Array(Box::new(r))),
            Err(e) => Err(e),
        },
        ast::SpecTy::Func { params, ret } => match resolve_tys(st, params, 0, Seq::empty()) {
            Ok(ps) => match ret {
                Some(r) => match resolve_ty(st, *r) {
                    Ok(rt) => Ok(SpecTy::Func { params: ps, ret: Box::new(rt) }),
                    Err(e) => Err(e),
                },
                None => Ok(SpecTy::Func { params: ps, ret: Box::new(SpecTy::Void) }),
            },
            Err(e) => Err(e),
        },
    }
}

pub open spec fn resolve_tys(st: SpecSymbols, ts: Seq<ast::SpecTy>, i: int, acc: Seq<SpecTy>) -> SRes<Seq<SpecTy>>
    decreases ts, ts.len() - i,
{
    if i < 0 || i >= ts.len() {
        Ok(acc)
    } else {
        match resolve_ty(st, ts[i]) {
            Ok(t) => resolve_tys(st, ts, i + 1, acc.push(t)),
            Err(e) => Err(e),
        }
    }
}

/// The parameter types of a signature; a parameter written without a type gets `Infer`.
pub open spec fn resolve_params(st: SpecSymbols, ps: Seq<ast::SpecParam>, i: int, acc: Seq<SpecTy>) -> SRes<Seq<SpecTy>>
    decreases ps.len() - i,
{
    if i < 0 || i >= ps.len() {
        Ok(acc)
    } else {
        match ps[i].ty {
            Some(t) => match resolve_ty(st, t) {
                Ok(r) => resolve_params(st, ps, i + 1, acc.push(r)),
                Err(e) => Err(e),
            },
            None => resolve_params(st, ps, i + 1, acc.push(SpecTy::Infer)),
        }
    }
}

pub open spec fn resolve_ret(st: SpecSymbols, ret: Option<ast::SpecTy>) -> SRes<SpecTy> {
    match ret {
        Some(t) => resolve_ty(st, t),
        None => Ok(SpecTy::Void),
    }
}

// ---- declarations ----

pub open spec fn define_struct(st: SpecSymbols, name: ast::SpecIdentifier) -> SRes<SpecSymbols> {
    if !spec_is_pascal_case(name.value) {
        fail(SpecSemaErrorKind::StructNotPascalCase { name: name.value }, name.span)
    } else if st.lookup_struct_id(name.value) is Some {
        fail(SpecSemaErrorKind::StructAlreadyDefined { name: name.value }, name.span)
    } else {
        Ok(st.add_struct(name.value))
    }
}

pub open spec fn define_func(
    st: SpecSymbols,
    name: ast::SpecIdentifier,
    params: Seq<ast::SpecParam>,
    ret: Option<ast::SpecTy>,
) -> SRes<SpecSymbols> {
    if !spec_is_snake_case(name.value) {
        fail(SpecSemaErrorKind::FuncNotSnakeCase { name: name.value }, name.span)
    } else {
        match resolve_params(st, params, 0, Seq::empty()) {
            Ok(pts) => match resolve_ret(st, ret) {
                Ok(rt) => if st.lookup_func(name.value) is Some {
                    fail(SpecSemaErrorKind::FuncAlreadyDefined { name: name.value }, name.span)
                } else {
                    Ok(st.add_func(name.value, pts, rt))
                },
                Err(e) => Err(e),
            },
            Err(e) => Err(e),
        }
    }
}

/// The names and types of a struct's fields, each name checked against
/// those before it.
pub open spec fn resolve_fields(
    st: SpecSymbols,
    fs: Seq<ast::SpecStructField>,
    i: int,
    names: Seq<Seq<char>>,
    tys: Seq<SpecTy>,
) -> SRes<(Seq<Seq<char>>, Seq<SpecTy>)>
    decreases fs.len() - i,
{
    if i < 0 || i >= fs.len() {
        Ok((names, tys))
    } else {
        let f = fs[i];
        if names.contains(f.name.value) {
            fail(SpecSemaErrorKind::FieldAlreadyDefined { name: f.name.value }, f.name.span)
        } else {
            match resolve_ty(st, f.ty) {
                Ok(t) => resolve_fields(st, fs, i + 1, names.push(f.name.value), tys.push(t)),
                Err(e) => Err(e),
            }
        }
    }
}

pub open spec fn define_struct_fields(st: SpecSymbols, s: ast::SpecStruct) -> SRes<SpecSymbols> {
    match find_struct(st.structs, s.name.value, 0) {
        Some(i) => match resolve_fields(st, s.fields, 0, Seq::empty(), Seq::empty()) {
            Ok((names, tys)) => Ok(st.set_fields(i, names, tys)),
            Err(e) => Err(e),
        },
        None => fail(SpecSemaErrorKind::StructNotDeclared { name: s.name.value }, s.name.span),
    }
}

/// A variable entering the innermost scope.
pub open spec fn define_var(st: SpecSymbols, name: ast::SpecIdentifier, ty: SpecTy) -> SRes<(VarId, SpecSymbols)> {
    if !spec_is_snake_case(name.value) {
        fail(SpecSemaErrorKind::VarNotSnakeCase { name: name.value }, name.span)
    } else if st.var_in_innermost(name.value) {
        fail(SpecSemaErrorKind::VarAlreadyDefined { name: name.value }, name.span)
    } else {
        Ok((VarId(st.next_local), st.add_var(name.value, ty)))
    }
}

/// The first `n` parameters of a function entering its scope with the types of its signature.
pub open spec fn define_params(
    st: SpecSymbols,
    ps: Seq<ast::SpecParam>,
    tys: Seq<SpecTy>,
    i: int,
    acc: Seq<tast::SpecParam>,
) -> SRes<(Seq<tast::SpecParam>, SpecSymbols)>
    decreases ps.len() - i,
{
    if i < 0 || i >= ps.len() || i >= tys.len() {
        Ok((acc, st))
    } else {
        match define_var(st, ps[i].name, tys[i]) {
            Ok((id, st1)) => define_params(st1, ps, tys, i + 1, acc.push(tast::SpecParam { id, ty: tys[i] })),
            Err(e) => Err(e),
        }
    }
}

// ---- the passes over the top level ----

/// Pass 1 on one top-level statement: structs are declared; statements that
/// cannot stand at the top level are refused.
pub open spec fn declare_top(st: SpecSymbols, s: ast::SpecStmt) -> SRes<SpecSymbols> {
    match s {
        ast::SpecStmt::ExternFunc(_) => Ok(st),
        ast::SpecStmt::Func(_) => Ok(st),
        ast::SpecStmt::Struct(x) => define_struct(st, x.name),
        ast::SpecStmt::Enum(x) => fail(SpecSemaErrorKind::NotImplemented, x.name.span),
        ast::SpecStmt::Let(x) => fail(SpecSemaErrorKind::TopLevelLet, x.name.span),
        ast::SpecStmt::Return(x) => fail(SpecSemaErrorKind::TopLevelReturn, x.span),
        ast::SpecStmt::If(x) => fail(SpecSemaErrorKind::TopLevelIf, x.condition.span),
        ast::SpecStmt::Block(x) => fail(SpecSemaErrorKind::TopLevelBlock, x.span),
        ast::SpecStmt::Assign(x) => fail(SpecSemaErrorKind::TopLevelAssign, x.target.span),
        ast::SpecStmt::Expr(x) => fail(SpecSemaErrorKind::TopLevelExpr, x.span),
    }
}

pub open spec fn pass1(st: SpecSymbols, ss: Seq<ast::SpecStmt>, i: int) -> SRes<SpecSymbols>
    decreases ss.len() - i,
{
    if i < 0 || i >= ss.len() {
        Ok(st)
    } else {
        match declare_top(st, ss[i]) {
            Ok(st1) => pass1(st1, ss, i + 1),
            Err(e) => Err(e),
        }
    }
}

/// Pass 2 on one top-level statement: signatures and struct fields are resolved.
pub open spec fn declare_sig(st: SpecSymbols, s: ast::SpecStmt) -> SRes<SpecSymbols> {
    match s {
        ast::SpecStmt::ExternFunc(f) => define_func(st, f.name, f.params, f.ret),
        ast::SpecStmt::Func(f) => define_func(st, f.name, f.params, f.ret),
        ast::SpecStmt::Struct(x) => define_struct_fields(st, x),
        _ => Ok(st),
    }
}

pub open spec fn pass2(st: SpecSymbols, ss: Seq<ast::SpecStmt>, i: int) -> SRes<SpecSymbols>
    decreases ss.len() - i,
{
    if i < 0 || i >= ss.len() {
        Ok(st)
    } else {
        match declare_sig(st, ss[i]) {
            Ok(st1) => pass2(st1, ss, i + 1),
            Err(e) => Err(e),
        }
    }
}

// ---- expressions ----

pub open spec fn lit_ty(l: SpecLiteral) -> SpecTy {
    match l {
        SpecLiteral::Int(_) => SpecTy::Int,
        SpecLiteral::Float(_) => SpecTy::Float,
        SpecLiteral::Bool(_) => SpecTy::Bool,
    }
}

/// The first index from `i` where an argument's type differs from the expected one.
pub open spec fn first_mismatch(expected: Seq<SpecTy>, args: Seq<tast::SpecExpr>, i: int) -> Option<int>
    decreases expected.len() - i,
{
    if i < 0 || i >= expected.len() || i >= args.len() {
        None
    } else if expected[i] != args[i].ty() {
        Some(i)
    } else {
        first_mismatch(expected, args, i + 1)
    }
}

/// What a call with checked arguments makes of its callee: a struct literal
/// when the name is a struct's, else a call of the function of that name.
pub open spec fn call_target(st: SpecSymbols, callee: ast::SpecExpr, args: Seq<tast::SpecExpr>) -> SRes<tast::SpecExpr> {
    match callee.kind {
        ast::SpecExprKind::Identifier(id) => match st.lookup_struct(id.value) {
            Some(s) => if args.len() != s.field_tys.len() {
                fail(
                    SpecSemaErrorKind::FieldCount {
                        name: id.value,
                        expected: s.field_tys.len(),
                        got: args.len(),
                    },
                    callee.span,
                )
            } else {
                match first_mismatch(s.field_tys, args, 0) {
                    Some(i) => fail(
                        SpecSemaErrorKind::FieldTypeMismatch { name: id.value, expected: s.field_tys[i], got: args[i].ty() },
                        callee.span,
                    ),
                    None => Ok(tast::SpecExpr::StructLit { id: s.id, fields: args, ty: SpecTy::Struct(s.id) }),
                }
            },
            None => match st.lookup_func(id.value) {
                Some(f) => if args.len() != f.params_ty.len() {
                    fail(
                        SpecSemaErrorKind::ArgCount {
                            name: id.value,
                            expected: f.params_ty.len(),
                            got: args.len(),
                        },
                        callee.span,
                    )
                } else {
                    match first_mismatch(f.params_ty, args, 0) {
                        Some(i) => fail(
                            SpecSemaErrorKind::ArgTypeMismatch { func: id.value, expected: f.params_ty[i], got: args[i].ty() },
                            callee.span,
                        ),
                        None => Ok(
                            tast::SpecExpr::Call {
                                callee: Box::new(
                                    tast::SpecExpr::FuncRef {
                                        id: f.id,
                                        ty: SpecTy::Func { params: f.params_ty, ret: Box::new(f.ret_ty) },
                                    },
                                ),
                                args,
                                ty: f.ret_ty,
                            },
                        ),
                    }
                },
                None => fail(SpecSemaErrorKind::UnknownFunction { name: id.value }, id.span),
            },
        },
        _ => fail(SpecSemaErrorKind::CalleeNotIdentifier, callee.span),
    }
}

pub open spec fn check_expr(st: SpecSymbols, e: ast::SpecExpr) -> SRes<(tast::SpecExpr, SpecSymbols)>
    decreases e, 0int,
{
    match e.kind {
        ast::SpecExprKind::Literal(l) => Ok((tast::SpecExpr::Literal(l, lit_ty(l)), st)),
        ast::SpecExprKind::Block(b) => match check_block(st, b) {
            Ok((tb, st1)) => Ok((tast::SpecExpr::Block(tb), st1)),
            Err(x) => Err(x),
        },
        ast::SpecExprKind::Identifier(id) => match st.lookup_var(id.value) {
            Some(v) => Ok((tast::SpecExpr::VarRef { id: v.id, ty: v.ty }, st)),
            None => fail(SpecSemaErrorKind::UnknownVariable { name: id.value }, id.span),
        },
        ast::SpecExprKind::BinaryOp { op, left, right } => match check_expr(st, *left) {
            Ok((l, st1)) => match check_expr(st1, *right) {
                Ok((r, st2)) => match spec_bin_op_ty(op, l.ty(), r.ty()) {
                    Some(ty) => Ok(
                        (tast::SpecExpr::BinaryOp { op, left: Box::new(l), right: Box::new(r), ty }, st2),
                    ),
                    None => fail(
                        SpecSemaErrorKind::InvalidBinaryOp { op, left: l.ty(), right: r.ty() },
                        left.span,
                    ),
                },
                Err(x) => Err(x),
            },
            Err(x) => Err(x),
        },
        ast::SpecExprKind::Call { callee, args } => match check_args(st, args, 0, Seq::empty()) {
            Ok((targs, st1)) => match call_target(st1, *callee, targs) {
                Ok(t) => Ok((t, st1)),
                Err(x) => Err(x),
            },
            Err(x) => Err(x),
        },
        _ => fail(SpecSemaErrorKind::UnsupportedExpression, e.span),
    }
}

pub open spec fn check_args(st: SpecSymbols, args: Seq<ast::SpecExpr>, i: int, acc: Seq<tast::SpecExpr>) -> SRes<
    (Seq<tast::SpecExpr>, SpecSymbols),
>
    decreases args, args.len() - i,
{
    if i < 0 || i >= args.len() {
        Ok((acc, st))
    } else {
        match check_expr(st, args[i]) {
            Ok((x, st1)) => check_args(st1, args, i + 1, acc.push(x)),
            Err(e) => Err(e),
        }
    }
}

/// A condition: an expression of type `Bool`.
pub open spec fn check_condition(st: SpecSymbols, e: ast::SpecExpr) -> SRes<(tast::SpecExpr, SpecSymbols)>
    decreases e, 1int,
{
    match check_expr(st, e) {
        Ok((c, st1)) => if c.ty() != SpecTy::Bool {
            fail(SpecSemaErrorKind::ConditionNotBool { got: c.ty() }, e.span)
        } else {
            Ok((c, st1))
        },
        Err(x) => Err(x),
    }
}

// ---- blocks and statements ----

/// A block's type: that of its last statement when that is an expression, else `Void`.
pub open spec fn block_ty(ts: Seq<tast::SpecStmt>) -> SpecTy {
    if ts.len() > 0 {
        match ts.last() {
            tast::SpecStmt::Expr(e) => e.ty(),
            _ => SpecTy::Void,
        }
    } else {
        SpecTy::Void
    }
}

pub open spec fn check_block(st: SpecSymbols, b: ast::SpecBlock) -> SRes<(tast::SpecBlock, SpecSymbols)>
    decreases b, 0int,
{
    match check_stmts(st.enter_scope(), b.stmts, 0, Seq::empty()) {
        Ok((ts, st1)) => Ok((tast::SpecBlock { stmts: ts, ty: block_ty(ts) }, st1.exit_scope())),
        Err(e) => Err(e),
    }
}

pub open spec fn check_stmts(st: SpecSymbols, ss: Seq<ast::SpecStmt>, i: int, acc: Seq<tast::SpecStmt>) -> SRes<
    (Seq<tast::SpecStmt>, SpecSymbols),
>
    decreases ss, ss.len() - i,
{
    if i < 0 || i >= ss.len() {
        Ok((acc, st))
    } else {
        match check_stmt(st, ss[i]) {
            Ok((x, st1)) => check_stmts(st1, ss, i + 1, acc.push(x)),
            Err(e) => Err(e),
        }
    }
}

pub open spec fn check_elif(st: SpecSymbols, e: ast::SpecElif) -> SRes<(tast::SpecElif, SpecSymbols)>
    decreases e, 0int,
{
    match check_condition(st, e.condition) {
        Ok((c, st1)) => match check_block(st1, e.then_block) {
            Ok((b, st2)) => Ok((tast::SpecElif { condition: c, then_block: b }, st2)),
            Err(x) => Err(x),
        },
        Err(x) => Err(x),
    }
}

pub open spec fn check_elifs(st: SpecSymbols, es: Seq<ast::SpecElif>, i: int, acc: Seq<tast::SpecElif>) -> SRes<
    (Seq<tast::SpecElif>, SpecSymbols),
>
    decreases es, es.len() - i,
{
    if i < 0 || i >= es.len() {
        Ok((acc, st))
    } else {
        match check_elif(st, es[i]) {
            Ok((x, st1)) => check_elifs(st1, es, i + 1, acc.push(x)),
            Err(e) => Err(e),
        }
    }
}

pub open spec fn check_if(st: SpecSymbols, i: ast::SpecIf) -> SRes<(tast::SpecStmt, SpecSymbols)>
    decreases i, 0int,
{
    match check_condition(st, i.condition) {
        Ok((c, st1)) => match check_block(st1, i.then_block) {
            Ok((tb, st2)) => match check_elifs(st2, i.elifs, 0, Seq::empty()) {
                Ok((es, st3)) => match i.else_block {
                    Some(b) => match check_block(st3, b) {
                        Ok((eb, st4)) => Ok(
                            (
                                tast::SpecStmt::If {
                                    condition: c,
                                    then_block: tb,
                                    elifs: es,
                                    else_block: Some(eb),
                                    ty: SpecTy::Void,
                                },
                                st4,
                            ),
                        ),
                        Err(e) => Err(e),
                    },
                    None => Ok(
                        (
                            tast::SpecStmt::If {
                                condition: c,
                                then_block: tb,
                                elifs: es,
                                else_block: None,
                                ty: SpecTy::Void,
                            },
                            st3,
                        ),
                    ),
                },
                Err(e) => Err(e),
            },
            Err(e) => Err(e),
        },
        Err(e) => Err(e),
    }
}

pub open spec fn check_let(st: SpecSymbols, l: ast::SpecLet) -> SRes<(tast::SpecStmt, SpecSymbols)>
    decreases l, 0int,
{
    match check_expr(st, l.value) {
        Ok((v, st1)) => {
            let ty = match l.annot_ty {
                Some(a) => match resolve_ty(st1, a) {
                    Ok(at) => if at != v.ty() {
                        fail(SpecSemaErrorKind::LetTypeMismatch { var: l.name.value, expected: at, got: v.ty() }, l.name.span)
                    } else {
                        Ok(at)
                    },
                    Err(e) => Err(e),
                },
                None => Ok(v.ty()),
            };
            match ty {
                Ok(ty) => match define_var(st1, l.name, ty) {
                    Ok((id, st2)) => Ok(
                        (tast::SpecStmt::Local { id, value: v, value_ty: ty, ty: SpecTy::Void }, st2),
                    ),
                    Err(e) => Err(e),
                },
                Err(e) => Err(e),
            }
        },
        Err(e) => Err(e),
    }
}

/// A `return`: its value's type (`Void` without one) must be the function's return type.
pub open spec fn check_return(st: SpecSymbols, r: ast::SpecReturn) -> SRes<(tast::SpecStmt, SpecSymbols)>
    decreases r, 0int,
{
    match r.value {
        Some(e) => match check_expr(st, e) {
            Ok((v, st1)) => if v.ty() != st1.ret_ty {
                fail(SpecSemaErrorKind::ReturnValueMismatch { expected: st1.ret_ty, got: v.ty() }, r.span)
            } else {
                Ok((tast::SpecStmt::Return { value: Some(v), ty: SpecTy::Void }, st1))
            },
            Err(x) => Err(x),
        },
        None => if st.ret_ty != SpecTy::Void {
            fail(SpecSemaErrorKind::ReturnValueMismatch { expected: st.ret_ty, got: SpecTy::Void }, r.span)
        } else {
            Ok((tast::SpecStmt::Return { value: None, ty: SpecTy::Void }, st))
        },
    }
}

pub open spec fn check_assign(st: SpecSymbols, a: ast::SpecAssign) -> SRes<(tast::SpecStmt, SpecSymbols)>
    decreases a, 0int,
{
    match a.target.kind {
        ast::SpecExprKind::Identifier(t) => match st.lookup_var(t.value) {
            Some(v) => match check_expr(st, a.value) {
                Ok((val, st1)) => if v.ty != val.ty() {
                    fail(SpecSemaErrorKind::AssignTypeMismatch { var: t.value, expected: v.ty, got: val.ty() }, t.span)
                } else {
                    Ok((tast::SpecStmt::Assign { id: v.id, value: val, ty: SpecTy::Void }, st1))
                },
                Err(x) => Err(x),
            },
            None => fail(SpecSemaErrorKind::UnknownVariable { name: t.value }, t.span),
        },
        _ => fail(SpecSemaErrorKind::InvalidAssignTarget, a.target.span),
    }
}

/// A function body is checked in a scope of its own holding its parameters;
/// unless the body always returns, its type must be the return type.
pub open spec fn check_func_decl(st: SpecSymbols, f: ast::SpecFunc) -> SRes<(tast::SpecStmt, SpecSymbols)>
    decreases f, 0int,
{
    match st.lookup_func(f.name.value) {
        Some(sym) => match define_params(st.enter_func(sym.ret_ty), f.params, sym.params_ty, 0, Seq::empty()) {
            Ok((ps, st2)) => match check_block(st2, f.body) {
                Ok((body, st3)) => if !block_always_returns(body) && body.ty != sym.ret_ty {
                    fail(
                        SpecSemaErrorKind::ReturnTypeMismatch { func: f.name.value, expected: sym.ret_ty, got: body.ty },
                        f.body.span,
                    )
                } else {
                    Ok(
                        (
                            tast::SpecStmt::Func { id: sym.id, params: ps, ret_ty: sym.ret_ty, body },
                            st3.exit_func(),
                        ),
                    )
                },
                Err(e) => Err(e),
            },
            Err(e) => Err(e),
        },
        None => fail(SpecSemaErrorKind::FuncNotDeclared { name: f.name.value }, f.name.span),
    }
}

pub open spec fn check_extern(st: SpecSymbols, f: ast::SpecExternFunc) -> SRes<(tast::SpecStmt, SpecSymbols)> {
    match st.lookup_func(f.name.value) {
        Some(sym) => Ok(
            (
                tast::SpecStmt::ExternFunc {
                    id: sym.id,
                    module: f.module.value,
                    symbol: f.symbol.value,
                    params_ty: sym.params_ty,
                    ret_ty: sym.ret_ty,
                },
                st,
            ),
        ),
        None => fail(SpecSemaErrorKind::FuncNotDeclared { name: f.name.value }, f.name.span),
    }
}

pub open spec fn struct_fields(tys: Seq<SpecTy>) -> Seq<tast::SpecStructField> {
    Seq::new(tys.len(), |i: int| tast::SpecStructField { id: StructFieldId(i as u32), ty: tys[i] })
}

pub open spec fn check_struct_decl(st: SpecSymbols, s: ast::SpecStruct) -> SRes<(tast::SpecStmt, SpecSymbols)> {
    match st.lookup_struct(s.name.value) {
        Some(sym) => Ok(
            (tast::SpecStmt::Struct { id: sym.id, fields: struct_fields(sym.field_tys), ty: SpecTy::Void }, st),
        ),
        None => fail(SpecSemaErrorKind::StructNotDeclared { name: s.name.value }, s.name.span),
    }
}

pub open spec fn check_stmt(st: SpecSymbols, s: ast::SpecStmt) -> SRes<(tast::SpecStmt, SpecSymbols)>
    decreases s, 0int,
{
    match s {
        ast::SpecStmt::ExternFunc(f) => check_extern(st, f),
        ast::SpecStmt::Func(f) => check_func_decl(st, f),
        ast::SpecStmt::Struct(x) => check_struct_decl(st, x),
        ast::SpecStmt::Enum(x) => fail(SpecSemaErrorKind::NotImplemented, x.name.span),
        ast::SpecStmt::Let(l) => check_let(st, l),
        ast::SpecStmt::Return(r) => check_return(st, r),
        ast::SpecStmt::If(i) => check_if(st, i),
        ast::SpecStmt::Block(b) => match check_block(st, b) {
            Ok((tb, st1)) => Ok((tast::SpecStmt::Block(tb), st1)),
            Err(e) => Err(e),
        },
        ast::SpecStmt::Assign(a) => check_assign(st, a),
        ast::SpecStmt::Expr(e) => match check_expr(st, e) {
            Ok((te, st1)) => Ok((tast::SpecStmt::Expr(te), st1)),
            Err(x) => Err(x),
        },
    }
}

/// The whole analysis: pass 1 declares the structs, pass 2 resolves the
/// signatures and struct fields, pass 3 checks every statement.
pub open spec fn spec_check(p: ast::SpecProgram) -> SRes<tast::SpecProgram> {
    match pass1(SpecSymbols::empty(), p.stmts, 0) {
        Ok(st1) => match pass2(st1, p.stmts, 0) {
            Ok(st2) => match check_stmts(st2, p.stmts, 0, Seq::empty()) {
                Ok((ts, st3)) => Ok(
                    tast::SpecProgram {
                        stmts: ts,
                        entry: match st3.lookup_func(main_name()) {
                            Some(f) => Some(f.id),
                            None => None,
                        },
                    },
                ),
                Err(e) => Err(e),
            },
            Err(e) => Err(e),
        },
        Err(e) => Err(e),
    }
}

// ---- control flow ----

/// Whether control always leaves the statement through a `return`.
pub open spec fn stmt_always_returns(s: tast::SpecStmt) -> bool
    decreases s, 0int,
{
    match s {
        tast::SpecStmt::Return { .. } => true,
        tast::SpecStmt::Block(b) => block_always_returns(b),
        tast::SpecStmt::If { then_block, elifs, else_block, .. } => match else_block {
            Some(eb) => block_always_returns(then_block) && elifs_always_return(elifs, 0)
                && block_always_returns(eb),
            None => false,
        },
        _ => false,
    }
}

/// Whether some statement of the block always returns.
pub open spec fn block_always_returns(b: tast::SpecBlock) -> bool
    decreases b, 0int,
{
    stmts_any_returns(b.stmts, 0)
}

pub open spec fn stmts_any_returns(ss: Seq<tast::SpecStmt>, i: int) -> bool
    decreases ss, ss.len() - i,
{
    if i < 0 || i >= ss.len() {
        false
    } else {
        stmt_always_returns(ss[i]) || stmts_any_returns(ss, i + 1)
    }
}

pub open spec fn elifs_always_return(es: Seq<tast::SpecElif>, i: int) -> bool
    decreases es, es.len() - i,
{
    if i < 0 || i >= es.len() {
        true
    } else {
        block_always_returns(es[i].then_block) && elifs_always_return(es, i + 1)
    }
}

} // verus!
