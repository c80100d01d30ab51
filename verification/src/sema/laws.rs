//! What semantic analysis guarantees of the typed tree it builds.
use vstd::prelude::*;
use crate::parser::ast;
use super::rules::{
    block_always_returns, block_ty, call_target, check_args, check_assign, check_block, check_condition,
    check_elif, check_elifs, check_expr, check_extern, check_func_decl, check_if, check_let, check_return,
    check_stmt, check_stmts, check_struct_decl, define_params, first_mismatch, lit_ty, spec_check,
};
use super::symbols::SpecSymbols;
use super::tast::{SpecBlock, SpecElif, SpecExpr, SpecProgram, SpecStmt};
use super::ty::{spec_bin_op_ty, SpecTy};

verus! {

/// Every node of the expression has the type its rule gives: a literal its
/// literal's type, a binary operation the type of the operator on its
/// operands' types, a call the return type of the function it names with
/// arguments of the parameter types.
pub open spec fn typed_expr(e: SpecExpr) -> bool
    decreases e, 0int,
{
    match e {
        SpecExpr::Literal(l, ty) => ty == lit_ty(l),
        SpecExpr::FuncRef { ty, .. } => ty is Func,
        SpecExpr::VarRef { .. } => true,
        SpecExpr::BinaryOp { op, left, right, ty } => typed_expr(*left) && typed_expr(*right) && spec_bin_op_ty(
            op,
            left.ty(),
            right.ty(),
        ) == Some(ty),
        SpecExpr::UnaryOp { .. } => false,
        SpecExpr::Call { callee, args, ty } => typed_exprs(args, 0) && match *callee {
            SpecExpr::FuncRef { ty: SpecTy::Func { params, ret }, .. } => *ret == ty && args.len() == params.len()
                && forall|k: int| 0 <= k < args.len() ==> #[trigger] args[k].ty() == params[k],
            _ => false,
        },
        SpecExpr::StructLit { fields, ty, id } => typed_exprs(fields, 0) && ty == SpecTy::Struct(id),
        SpecExpr::Block(b) => typed_block(b),
    }
}

pub open spec fn typed_exprs(es: Seq<SpecExpr>, i: int) -> bool
    decreases es, es.len() - i,
{
    if i < 0 || i >= es.len() {
        true
    } else {
        typed_expr(es[i]) && typed_exprs(es, i + 1)
    }
}

/// A block's statements are typed and its type is that of its last
/// statement when that is an expression.
pub open spec fn typed_block(b: SpecBlock) -> bool
    decreases b, 0int,
{
    typed_stmts(b.stmts, 0) && b.ty == block_ty(b.stmts)
}

pub open spec fn typed_stmts(ss: Seq<SpecStmt>, i: int) -> bool
    decreases ss, ss.len() - i,
{
    if i < 0 || i >= ss.len() {
        true
    } else {
        typed_stmt(ss[i]) && typed_stmts(ss, i + 1)
    }
}

pub open spec fn typed_elifs(es: Seq<SpecElif>, i: int) -> bool
    decreases es, es.len() - i,
{
    if i < 0 || i >= es.len() {
        true
    } else {
        typed_expr(es[i].condition) && es[i].condition.ty() == SpecTy::Bool && typed_block(es[i].then_block)
            && typed_elifs(es, i + 1)
    }
}

/// Every statement is typed: a local has its value's type, a condition is
/// `Bool`, and a function body that may fall through has the return type.
pub open spec fn typed_stmt(s: SpecStmt) -> bool
    decreases s, 0int,
{
    match s {
        SpecStmt::ExternFunc { .. } => true,
        SpecStmt::Func { ret_ty, body, .. } => typed_block(body) && (block_always_returns(body) || body.ty
            == ret_ty),
        SpecStmt::Struct { .. } => true,
        SpecStmt::Local { value, value_ty, .. } => typed_expr(value) && value.ty() == value_ty,
        SpecStmt::Return { value, .. } => match value {
            Some(v) => typed_expr(v),
            None => true,
        },
        SpecStmt::If { condition, then_block, elifs, else_block, .. } => typed_expr(condition) && condition.ty()
            == SpecTy::Bool && typed_block(then_block) && typed_elifs(elifs, 0) && match else_block {
            Some(b) => typed_block(b),
            None => true,
        },
        SpecStmt::Assign { value, .. } => typed_expr(value),
        SpecStmt::Block(b) => typed_block(b),
        SpecStmt::Expr(e) => typed_expr(e),
    }
}

// ---- appending to typed lists ----

proof fn lemma_typed_exprs_push(es: Seq<SpecExpr>, x: SpecExpr, i: int)
    requires
        0 <= i <= es.len(),
        typed_exprs(es, i),
        typed_expr(x),
    ensures
        typed_exprs(es.push(x), i),
    decreases es.len() - i,
{
    if i < es.len() {
        lemma_typed_exprs_push(es, x, i + 1);
        assert(es.push(x)[i] == es[i]);
    } else {
        assert(es.push(x)[i] == x);
        assert(typed_exprs(es.push(x), i + 1));
    }
}

proof fn lemma_typed_stmts_push(ss: Seq<SpecStmt>, x: SpecStmt, i: int)
    requires
        0 <= i <= ss.len(),
        typed_stmts(ss, i),
        typed_stmt(x),
    ensures
        typed_stmts(ss.push(x), i),
    decreases ss.len() - i,
{
    if i < ss.len() {
        lemma_typed_stmts_push(ss, x, i + 1);
        assert(ss.push(x)[i] == ss[i]);
    } else {
        assert(ss.push(x)[i] == x);
        assert(typed_stmts(ss.push(x), i + 1));
    }
}

proof fn lemma_typed_elifs_push(es: Seq<SpecElif>, x: SpecElif, i: int)
    requires
        0 <= i <= es.len(),
        typed_elifs(es, i),
        typed_expr(x.condition),
        x.condition.ty() == SpecTy::Bool,
        typed_block(x.then_block),
    ensures
        typed_elifs(es.push(x), i),
    decreases es.len() - i,
{
    if i < es.len() {
        lemma_typed_elifs_push(es, x, i + 1);
        assert(es.push(x)[i] == es[i]);
    } else {
        assert(es.push(x)[i] == x);
        assert(typed_elifs(es.push(x), i + 1));
    }
}

proof fn lemma_first_mismatch(expected: Seq<SpecTy>, args: Seq<SpecExpr>, i: int)
    requires
        0 <= i,
        expected.len() == args.len(),
        first_mismatch(expected, args, i) is None,
    ensures
        forall|k: int| i <= k < args.len() ==> #[trigger] args[k].ty() == expected[k],
    decreases expected.len() - i,
{
    if i < expected.len() {
        lemma_first_mismatch(expected, args, i + 1);
    }
}

// ---- the rules give typed trees ----

proof fn lemma_call_target(st: SpecSymbols, callee: ast::SpecExpr, args: Seq<SpecExpr>)
    requires
        typed_exprs(args, 0),
    ensures
        call_target(st, callee, args) matches Ok(t) ==> typed_expr(t),
{
    match callee.kind {
        ast::SpecExprKind::Identifier(id) => match st.lookup_struct(id.value) {
            Some(s) => {},
            None => match st.lookup_func(id.value) {
                Some(f) => {
                    if args.len() == f.params_ty.len() && first_mismatch(f.params_ty, args, 0) is None {
                        lemma_first_mismatch(f.params_ty, args, 0);
                    }
                },
                None => {},
            },
        },
        _ => {},
    }
}

proof fn lemma_check_expr(st: SpecSymbols, e: ast::SpecExpr)
    ensures
        check_expr(st, e) matches Ok((t, _)) ==> typed_expr(t),
    decreases e, 0int,
{
    match e.kind {
        ast::SpecExprKind::Block(b) => {
            lemma_check_block(st, b);
        },
        ast::SpecExprKind::BinaryOp { op, left, right } => {
            lemma_check_expr(st, *left);
            if let Ok((l, st1)) = check_expr(st, *left) {
                lemma_check_expr(st1, *right);
            }
        },
        ast::SpecExprKind::Call { callee, args } => {
            lemma_check_args(st, args, 0, Seq::empty());
            if let Ok((targs, st1)) = check_args(st, args, 0, Seq::empty()) {
                lemma_call_target(st1, *callee, targs);
            }
        },
        _ => {},
    }
}

proof fn lemma_check_args(st: SpecSymbols, args: Seq<ast::SpecExpr>, i: int, acc: Seq<SpecExpr>)
    requires
        typed_exprs(acc, 0),
    ensures
        check_args(st, args, i, acc) matches Ok((r, _)) ==> typed_exprs(r, 0),
    decreases args, args.len() - i,
{
    if 0 <= i < args.len() {
        lemma_check_expr(st, args[i]);
        if let Ok((x, st1)) = check_expr(st, args[i]) {
            lemma_typed_exprs_push(acc, x, 0);
            lemma_check_args(st1, args, i + 1, acc.push(x));
        }
    }
}

proof fn lemma_check_condition(st: SpecSymbols, e: ast::SpecExpr)
    ensures
        check_condition(st, e) matches Ok((c, _)) ==> typed_expr(c) && c.ty() == SpecTy::Bool,
    decreases e, 1int,
{
    lemma_check_expr(st, e);
}

proof fn lemma_check_block(st: SpecSymbols, b: ast::SpecBlock)
    ensures
        check_block(st, b) matches Ok((tb, _)) ==> typed_block(tb),
    decreases b, 0int,
{
    lemma_check_stmts(st.enter_scope(), b.stmts, 0, Seq::empty());
}

proof fn lemma_check_stmts(st: SpecSymbols, ss: Seq<ast::SpecStmt>, i: int, acc: Seq<SpecStmt>)
    requires
        typed_stmts(acc, 0),
    ensures
        check_stmts(st, ss, i, acc) matches Ok((r, _)) ==> typed_stmts(r, 0),
    decreases ss, ss.len() - i,
{
    if 0 <= i < ss.len() {
        lemma_check_stmt(st, ss[i]);
        if let Ok((x, st1)) = check_stmt(st, ss[i]) {
            lemma_typed_stmts_push(acc, x, 0);
            lemma_check_stmts(st1, ss, i + 1, acc.push(x));
        }
    }
}

proof fn lemma_check_elif(st: SpecSymbols, e: ast::SpecElif)
    ensures
        check_elif(st, e) matches Ok((x, _)) ==> typed_expr(x.condition) && x.condition.ty() == SpecTy::Bool
            && typed_block(x.then_block),
    decreases e, 0int,
{
    lemma_check_condition(st, e.condition);
    if let Ok((c, st1)) = check_condition(st, e.condition) {
        lemma_check_block(st1, e.then_block);
    }
}

proof fn lemma_check_elifs(st: SpecSymbols, es: Seq<ast::SpecElif>, i: int, acc: Seq<SpecElif>)
    requires
        typed_elifs(acc, 0),
    ensures
        check_elifs(st, es, i, acc) matches Ok((r, _)) ==> typed_elifs(r, 0),
    decreases es, es.len() - i,
{
    if 0 <= i < es.len() {
        lemma_check_elif(st, es[i]);
        if let Ok((x, st1)) = check_elif(st, es[i]) {
            lemma_typed_elifs_push(acc, x, 0);
            lemma_check_elifs(st1, es, i + 1, acc.push(x));
        }
    }
}

proof fn lemma_check_if(st: SpecSymbols, i: ast::SpecIf)
    ensures
        check_if(st, i) matches Ok((s, _)) ==> typed_stmt(s),
    decreases i, 0int,
{
    lemma_check_condition(st, i.condition);
    if let Ok((c, st1)) = check_condition(st, i.condition) {
        lemma_check_block(st1, i.then_block);
        if let Ok((tb, st2)) = check_block(st1, i.then_block) {
            lemma_check_elifs(st2, i.elifs, 0, Seq::empty());
            if let Ok((es, st3)) = check_elifs(st2, i.elifs, 0, Seq::empty()) {
                if let Some(b) = i.else_block {
                    lemma_check_block(st3, b);
                }
            }
        }
    }
}

proof fn lemma_check_let(st: SpecSymbols, l: ast::SpecLet)
    ensures
        check_let(st, l) matches Ok((s, _)) ==> typed_stmt(s),
    decreases l, 0int,
{
    lemma_check_expr(st, l.value);
}

proof fn lemma_check_return(st: SpecSymbols, r: ast::SpecReturn)
    ensures
        check_return(st, r) matches Ok((s, _)) ==> typed_stmt(s),
    decreases r, 0int,
{
    if let Some(e) = r.value {
        lemma_check_expr(st, e);
    }
}

proof fn lemma_check_assign(st: SpecSymbols, a: ast::SpecAssign)
    ensures
        check_assign(st, a) matches Ok((s, _)) ==> typed_stmt(s),
    decreases a, 0int,
{
    lemma_check_expr(st, a.value);
}

proof fn lemma_check_func_decl(st: SpecSymbols, f: ast::SpecFunc)
    ensures
        check_func_decl(st, f) matches Ok((s, _)) ==> typed_stmt(s),
    decreases f, 0int,
{
    if let Some(sym) = st.lookup_func(f.name.value) {
        if let Ok((ps, st2)) = define_params(st.enter_func(sym.ret_ty), f.params, sym.params_ty, 0, Seq::empty()) {
            lemma_check_block(st2, f.body);
        }
    }
}

proof fn lemma_check_stmt(st: SpecSymbols, s: ast::SpecStmt)
    ensures
        check_stmt(st, s) matches Ok((t, _)) ==> typed_stmt(t),
    decreases s, 0int,
{
    match s {
        ast::SpecStmt::Func(f) => lemma_check_func_decl(st, f),
        ast::SpecStmt::Let(l) => lemma_check_let(st, l),
        ast::SpecStmt::Return(r) => lemma_check_return(st, r),
        ast::SpecStmt::If(i) => lemma_check_if(st, i),
        ast::SpecStmt::Block(b) => lemma_check_block(st, b),
        ast::SpecStmt::Assign(a) => lemma_check_assign(st, a),
        ast::SpecStmt::Expr(e) => lemma_check_expr(st, e),
        _ => {},
    }
}

/// A program that semantic analysis accepts is well typed: every expression,
/// statement and block of the typed tree has the type that its rule gives.
pub proof fn lemma_check_well_typed(p: ast::SpecProgram)
    ensures
        spec_check(p) matches Ok(t) ==> typed_stmts(t.stmts, 0),
{
    let st0 = SpecSymbols::empty();
    if let Ok(st1) = super::rules::pass1(st0, p.stmts, 0) {
        if let Ok(st2) = super::rules::pass2(st1, p.stmts, 0) {
            lemma_check_stmts(st2, p.stmts, 0, Seq::empty());
        }
    }
}

} // verus!
