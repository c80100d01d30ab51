//! What lowering makes of the typed tree, and on which trees it is defined.
//!
//! Lowering threads the list of local types of the function being lowered:
//! each `local` declaration adds the type of its value, in the order in which
//! the lowering visits it.
use vstd::prelude::*;
use crate::common::SpecLiteral;
use crate::sema::tast;
use crate::sema::ty::SpecTy;
use super::ir::{self, FuncId, IrTy, LocalId};

verus! {

// ---- which trees can be lowered ----

/// The types that have a value type in the representation.
pub open spec fn lowerable_ty(t: SpecTy) -> bool {
    t is Int || t is Float || t is Bool || t is Void
}

pub open spec fn lowerable_tys(ts: Seq<SpecTy>) -> bool {
    forall|i: int| 0 <= i < ts.len() ==> lowerable_ty(#[trigger] ts[i])
}

pub open spec fn lowerable_expr(e: tast::SpecExpr) -> bool
    decreases e, 0int,
{
    match e {
        tast::SpecExpr::Literal(_, _) => true,
        tast::SpecExpr::FuncRef { .. } => true,
        tast::SpecExpr::VarRef { ty, .. } => lowerable_ty(ty),
        tast::SpecExpr::BinaryOp { left, right, ty, .. } => lowerable_ty(ty) && lowerable_expr(*left)
            && lowerable_expr(*right),
        tast::SpecExpr::Call { callee, args, ty } => lowerable_ty(ty) && (*callee) is FuncRef && lowerable_exprs(
            args,
            0,
        ),
        tast::SpecExpr::Block(b) => lowerable_block(b),
        _ => false,
    }
}

pub open spec fn lowerable_exprs(es: Seq<tast::SpecExpr>, i: int) -> bool
    decreases es, es.len() - i,
{
    if i < 0 || i >= es.len() {
        true
    } else {
        lowerable_expr(es[i]) && lowerable_exprs(es, i + 1)
    }
}

pub open spec fn lowerable_block(b: tast::SpecBlock) -> bool
    decreases b, 0int,
{
    lowerable_ty(b.ty) && lowerable_stmts(b.stmts, 0)
}

pub open spec fn lowerable_stmts(ss: Seq<tast::SpecStmt>, i: int) -> bool
    decreases ss, ss.len() - i,
{
    if i < 0 || i >= ss.len() {
        true
    } else {
        lowerable_stmt(ss[i]) && lowerable_stmts(ss, i + 1)
    }
}

pub open spec fn lowerable_elifs(es: Seq<tast::SpecElif>, i: int) -> bool
    decreases es, es.len() - i,
{
    if i < 0 || i >= es.len() {
        true
    } else {
        lowerable_expr(es[i].condition) && lowerable_block(es[i].then_block) && lowerable_elifs(es, i + 1)
    }
}

/// A statement inside a function body.
pub open spec fn lowerable_stmt(s: tast::SpecStmt) -> bool
    decreases s, 0int,
{
    match s {
        tast::SpecStmt::Local { value, value_ty, .. } => lowerable_ty(value_ty) && lowerable_expr(value),
        tast::SpecStmt::Return { value, .. } => match value {
            Some(v) => lowerable_expr(v),
            None => true,
        },
        tast::SpecStmt::If { condition, then_block, elifs, else_block, ty } => lowerable_ty(ty)
            && lowerable_expr(condition) && lowerable_block(then_block) && lowerable_elifs(elifs, 0)
            && match else_block {
            Some(b) => lowerable_block(b),
            None => true,
        },
        tast::SpecStmt::Assign { value, .. } => lowerable_expr(value),
        tast::SpecStmt::Block(b) => lowerable_block(b),
        tast::SpecStmt::Expr(e) => lowerable_expr(e),
        _ => false,
    }
}

pub open spec fn lowerable_params(ps: Seq<tast::SpecParam>) -> bool {
    forall|i: int| 0 <= i < ps.len() ==> lowerable_ty(#[trigger] ps[i].ty)
}

/// A top-level statement: an imported or defined function whose types all lower.
pub open spec fn lowerable_top(s: tast::SpecStmt) -> bool {
    match s {
        tast::SpecStmt::ExternFunc { params_ty, ret_ty, .. } => lowerable_tys(params_ty) && lowerable_ty(ret_ty),
        tast::SpecStmt::Func { params, ret_ty, body, .. } => lowerable_params(params) && lowerable_ty(ret_ty)
            && lowerable_block(body),
        _ => false,
    }
}

/// The programs that lowering is defined on.
pub open spec fn lowerable_program(p: tast::SpecProgram) -> bool {
    forall|i: int| 0 <= i < p.stmts.len() ==> lowerable_top(#[trigger] p.stmts[i])
}

// ---- the lowering ----

pub open spec fn lower_ty(t: SpecTy) -> IrTy {
    match t {
        SpecTy::Int => IrTy::I32,
        SpecTy::Float => IrTy::F32,
        SpecTy::Bool => IrTy::I32,
        _ => IrTy::Void,
    }
}

pub open spec fn lower_literal(l: SpecLiteral) -> ir::SpecExpr {
    match l {
        SpecLiteral::Int(v) => ir::SpecExpr::ConstInt(v),
        SpecLiteral::Float(s) => ir::SpecExpr::ConstFloat(s),
        SpecLiteral::Bool(b) => ir::SpecExpr::ConstBool(b),
    }
}

pub open spec fn lower_expr(ls: Seq<IrTy>, e: tast::SpecExpr) -> (ir::SpecExpr, Seq<IrTy>)
    decreases e, 0int,
{
    match e {
        tast::SpecExpr::Literal(l, _) => (lower_literal(l), ls),
        tast::SpecExpr::VarRef { id, ty } => (ir::SpecExpr::LocalGet { id: LocalId(id.0), ty: lower_ty(ty) }, ls),
        tast::SpecExpr::FuncRef { id, .. } => (ir::SpecExpr::FuncRef(FuncId(id.0)), ls),
        tast::SpecExpr::BinaryOp { op, left, right, ty } => {
            let (l, ls1) = lower_expr(ls, *left);
            let (r, ls2) = lower_expr(ls1, *right);
            (ir::SpecExpr::Binary { op, left: Box::new(l), right: Box::new(r), ty: lower_ty(ty) }, ls2)
        },
        tast::SpecExpr::Call { callee, args, ty } => {
            let (xs, ls1) = lower_exprs(ls, args, 0, Seq::empty());
            let func = match *callee {
                tast::SpecExpr::FuncRef { id, .. } => FuncId(id.0),
                _ => FuncId(0),
            };
            (ir::SpecExpr::Call { func, args: xs, ty: lower_ty(ty) }, ls1)
        },
        tast::SpecExpr::Block(b) => {
            let (lb, ls1) = lower_block(ls, b);
            (ir::SpecExpr::Block(lb), ls1)
        },
        _ => (ir::SpecExpr::ConstInt(0), ls),
    }
}

pub open spec fn lower_exprs(ls: Seq<IrTy>, es: Seq<tast::SpecExpr>, i: int, acc: Seq<ir::SpecExpr>) -> (
    Seq<ir::SpecExpr>,
    Seq<IrTy>,
)
    decreases es, es.len() - i,
{
    if i < 0 || i >= es.len() {
        (acc, ls)
    } else {
        let (x, ls1) = lower_expr(ls, es[i]);
        lower_exprs(ls1, es, i + 1, acc.push(x))
    }
}

pub open spec fn lower_block(ls: Seq<IrTy>, b: tast::SpecBlock) -> (ir::SpecBlock, Seq<IrTy>)
    decreases b, 0int,
{
    let (xs, ls1) = lower_stmts(ls, b.stmts, 0, Seq::empty());
    (ir::SpecBlock { exprs: xs, ty: lower_ty(b.ty) }, ls1)
}

pub open spec fn lower_stmts(ls: Seq<IrTy>, ss: Seq<tast::SpecStmt>, i: int, acc: Seq<ir::SpecExpr>) -> (
    Seq<ir::SpecExpr>,
    Seq<IrTy>,
)
    decreases ss, ss.len() - i,
{
    if i < 0 || i >= ss.len() {
        (acc, ls)
    } else {
        let (x, ls1) = lower_stmt(ls, ss[i]);
        lower_stmts(ls1, ss, i + 1, acc.push(x))
    }
}

/// The `elif` branches of an `if`, from the last to the first, each becoming
/// an `if` whose else branch is what the branches after it became.
pub open spec fn fold_elifs(
    ls: Seq<IrTy>,
    es: Seq<tast::SpecElif>,
    n: int,
    base: Option<Box<ir::SpecExpr>>,
    ty: IrTy,
) -> (Option<Box<ir::SpecExpr>>, Seq<IrTy>)
    decreases es, n,
{
    if n <= 0 || n > es.len() {
        (base, ls)
    } else {
        let (c, ls1) = lower_expr(ls, es[n - 1].condition);
        let (b, ls2) = lower_block(ls1, es[n - 1].then_block);
        fold_elifs(
            ls2,
            es,
            n - 1,
            Some(
                Box::new(
                    ir::SpecExpr::If { condition: Box::new(c), then_block: Box::new(b), else_block: base, ty },
                ),
            ),
            ty,
        )
    }
}

/// An `if` statement: the else block first, then the `elif` chain from the
/// back, then the condition and the first block.
pub open spec fn lower_if(ls: Seq<IrTy>, s: tast::SpecStmt) -> (ir::SpecExpr, Seq<IrTy>)
    decreases s, 1int,
{
    match s {
        tast::SpecStmt::If { condition, then_block, elifs, else_block, ty } => {
            let t = lower_ty(ty);
            let (base, ls1) = match else_block {
                Some(b) => {
                    let (lb, l1) = lower_block(ls, b);
                    (Some(Box::new(ir::SpecExpr::Block(lb))), l1)
                },
                None => (None, ls),
            };
            let (els, ls2) = fold_elifs(ls1, elifs, elifs.len() as int, base, t);
            let (c, ls3) = lower_expr(ls2, condition);
            let (tb, ls4) = lower_block(ls3, then_block);
            (ir::SpecExpr::If { condition: Box::new(c), then_block: Box::new(tb), else_block: els, ty: t }, ls4)
        },
        _ => (ir::SpecExpr::ConstInt(0), ls),
    }
}

pub open spec fn lower_stmt(ls: Seq<IrTy>, s: tast::SpecStmt) -> (ir::SpecExpr, Seq<IrTy>)
    decreases s, 2int,
{
    match s {
        tast::SpecStmt::Local { id, value, value_ty, .. } => {
            let (v, ls1) = lower_expr(ls.push(lower_ty(value_ty)), value);
            (ir::SpecExpr::LocalSet { id: LocalId(id.0), value: Box::new(v) }, ls1)
        },
        tast::SpecStmt::Return { value, .. } => match value {
            Some(v) => {
                let (x, ls1) = lower_expr(ls, v);
                (ir::SpecExpr::Return { value: Some(Box::new(x)) }, ls1)
            },
            None => (ir::SpecExpr::Return { value: None }, ls),
        },
        tast::SpecStmt::If { .. } => lower_if(ls, s),
        tast::SpecStmt::Assign { id, value, .. } => {
            let (v, ls1) = lower_expr(ls, value);
            (ir::SpecExpr::LocalSet { id: LocalId(id.0), value: Box::new(v) }, ls1)
        },
        tast::SpecStmt::Block(b) => {
            let (lb, ls1) = lower_block(ls, b);
            (ir::SpecExpr::Block(lb), ls1)
        },
        tast::SpecStmt::Expr(e) => lower_expr(ls, e),
        _ => (ir::SpecExpr::ConstInt(0), ls),
    }
}

pub open spec fn lower_param(p: tast::SpecParam) -> ir::Param {
    ir::Param { id: LocalId(p.id.0), ty: lower_ty(p.ty) }
}

/// A function: its locals are those its body declares, in lowering order.
pub open spec fn lower_func(id: tast::FuncId, params: Seq<tast::SpecParam>, ret_ty: SpecTy, body: tast::SpecBlock) -> ir::SpecFunc {
    let (b, ls) = lower_block(Seq::empty(), body);
    ir::SpecFunc {
        id: FuncId(id.0),
        params: params.map_values(|p: tast::SpecParam| lower_param(p)),
        locals: ls,
        ret_ty: lower_ty(ret_ty),
        body: b,
    }
}

pub open spec fn lower_import(
    module: Seq<char>,
    symbol: Seq<char>,
    params_ty: Seq<SpecTy>,
    ret_ty: SpecTy,
) -> ir::SpecImportFunc {
    ir::SpecImportFunc {
        module,
        item: symbol,
        params: params_ty.map_values(|t: SpecTy| lower_ty(t)),
        ret_ty: lower_ty(ret_ty),
    }
}

/// The imports and functions of the top-level statements from `i` on.
pub open spec fn lower_items(
    ss: Seq<tast::SpecStmt>,
    i: int,
    imports: Seq<ir::SpecImportFunc>,
    funcs: Seq<ir::SpecFunc>,
) -> (Seq<ir::SpecImportFunc>, Seq<ir::SpecFunc>)
    decreases ss.len() - i,
{
    if i < 0 || i >= ss.len() {
        (imports, funcs)
    } else {
        match ss[i] {
            tast::SpecStmt::ExternFunc { module, symbol, params_ty, ret_ty, .. } => lower_items(
                ss,
                i + 1,
                imports.push(lower_import(module, symbol, params_ty, ret_ty)),
                funcs,
            ),
            tast::SpecStmt::Func { id, params, ret_ty, body } => lower_items(
                ss,
                i + 1,
                imports,
                funcs.push(lower_func(id, params, ret_ty, body)),
            ),
            _ => lower_items(ss, i + 1, imports, funcs),
        }
    }
}

pub open spec fn spec_lower(p: tast::SpecProgram) -> ir::SpecModule {
    let (imports, funcs) = lower_items(p.stmts, 0, Seq::empty(), Seq::empty());
    ir::SpecModule {
        heap_types: Seq::empty(),
        imports,
        funcs,
        entry: match p.entry {
            Some(id) => Some(FuncId(id.0)),
            None => None,
        },
    }
}

} // verus!
