//! Properties of lowering.
use vstd::prelude::*;
use crate::parser::ast;
use crate::sema::ids::{all_funcs, func_name, funcs_numbered, lemma_check_numbers_funcs};
use crate::sema::rules::{main_name, spec_check};
use crate::sema::tast;
use super::ir;
use crate::sema::laws::typed_expr;
use super::rules::{fold_elifs, lower_block, lower_if, lower_exprs, lower_expr, lower_func, lower_import, lower_items, lower_ty, lowerable_expr, spec_lower};

verus! {

/// The number of function definitions among the statements from `i` on.
pub open spec fn count_funcs(ss: Seq<tast::SpecStmt>, i: int) -> nat
    decreases ss.len() - i,
{
    if i < 0 || i >= ss.len() {
        0
    } else {
        (if ss[i] is Func { 1nat } else { 0nat }) + count_funcs(ss, i + 1)
    }
}

/// The number of imported functions among the statements from `i` on.
pub open spec fn count_externs(ss: Seq<tast::SpecStmt>, i: int) -> nat
    decreases ss.len() - i,
{
    if i < 0 || i >= ss.len() {
        0
    } else {
        (if ss[i] is ExternFunc { 1nat } else { 0nat }) + count_externs(ss, i + 1)
    }
}

proof fn lemma_lower_items_counts(
    ss: Seq<tast::SpecStmt>,
    i: int,
    imports: Seq<ir::SpecImportFunc>,
    funcs: Seq<ir::SpecFunc>,
)
    requires
        0 <= i <= ss.len(),
    ensures
        lower_items(ss, i, imports, funcs).0.len() == imports.len() + count_externs(ss, i),
        lower_items(ss, i, imports, funcs).1.len() == funcs.len() + count_funcs(ss, i),
        imports.is_prefix_of(lower_items(ss, i, imports, funcs).0),
        funcs.is_prefix_of(lower_items(ss, i, imports, funcs).1),
    decreases ss.len() - i,
{
    if i < ss.len() {
        match ss[i] {
            tast::SpecStmt::ExternFunc { module, symbol, params_ty, ret_ty, .. } => {
                let imps2 = imports.push(lower_import(module, symbol, params_ty, ret_ty));
                lemma_lower_items_counts(ss, i + 1, imps2, funcs);
                assert(imports.is_prefix_of(imps2));
            },
            tast::SpecStmt::Func { id, params, ret_ty, body } => {
                let fs2 = funcs.push(lower_func(id, params, ret_ty, body));
                lemma_lower_items_counts(ss, i + 1, imports, fs2);
                assert(funcs.is_prefix_of(fs2));
            },
            _ => {
                lemma_lower_items_counts(ss, i + 1, imports, funcs);
            },
        }
    }
}

/// Lowering makes one function of each function definition and one import of
/// each imported function, and keeps the entry.
pub proof fn lemma_lower_counts(p: tast::SpecProgram)
    ensures
        spec_lower(p).funcs.len() == count_funcs(p.stmts, 0),
        spec_lower(p).imports.len() == count_externs(p.stmts, 0),
        spec_lower(p).entry == (match p.entry {
            Some(id) => Some(ir::FuncId(id.0)),
            None => None::<ir::FuncId>,
        }),
{
    lemma_lower_items_counts(p.stmts, 0, Seq::empty(), Seq::empty());
}

/// Lowering keeps types: a well-typed expression that can be lowered becomes
/// an expression of the lowered type.
pub proof fn lemma_lower_expr_ty(ls: Seq<ir::IrTy>, e: tast::SpecExpr)
    requires
        typed_expr(e),
        lowerable_expr(e),
    ensures
        lower_expr(ls, e).0.ty() == lower_ty(e.ty()),
{
    match e {
        tast::SpecExpr::Literal(l, ty) => {
            assert(ty == crate::sema::rules::lit_ty(l));
        },
        tast::SpecExpr::BinaryOp { op, left, right, ty } => {
            let (l, ls1) = lower_expr(ls, *left);
            let (r, ls2) = lower_expr(ls1, *right);
            assert(lower_expr(ls, e).0 == ir::SpecExpr::Binary { op, left: Box::new(l), right: Box::new(r), ty: lower_ty(ty) });
        },
        tast::SpecExpr::Call { callee, args, ty } => {
            assert(lower_expr(ls, e).0.ty() == lower_ty(ty));
        },
        tast::SpecExpr::Block(b) => {
            assert(super::rules::lower_block(ls, b).0.ty == lower_ty(b.ty));
            assert(lower_expr(ls, e).0 == ir::SpecExpr::Block(super::rules::lower_block(ls, b).0));
        },
        _ => {},
    }
}

/// An expression without a block inside it (a block may declare locals).
pub open spec fn block_free(e: tast::SpecExpr) -> bool
    decreases e, 0int,
{
    match e {
        tast::SpecExpr::BinaryOp { left, right, .. } => block_free(*left) && block_free(*right),
        tast::SpecExpr::UnaryOp { operand, .. } => block_free(*operand),
        tast::SpecExpr::Call { callee, args, .. } => block_free(*callee) && block_free_all(args, 0),
        tast::SpecExpr::StructLit { fields, .. } => block_free_all(fields, 0),
        tast::SpecExpr::Block(_) => false,
        _ => true,
    }
}

pub open spec fn block_free_all(es: Seq<tast::SpecExpr>, i: int) -> bool
    decreases es, es.len() - i,
{
    if i < 0 || i >= es.len() {
        true
    } else {
        block_free(es[i]) && block_free_all(es, i + 1)
    }
}

proof fn lemma_lower_exprs_locals(ls: Seq<ir::IrTy>, es: Seq<tast::SpecExpr>, i: int, acc: Seq<ir::SpecExpr>)
    requires
        block_free_all(es, i),
    ensures
        lower_exprs(ls, es, i, acc).1 == ls,
    decreases es, es.len() - i,
{
    if 0 <= i < es.len() {
        lemma_lower_expr_locals(ls, es[i]);
        let (x, ls1) = lower_expr(ls, es[i]);
        lemma_lower_exprs_locals(ls1, es, i + 1, acc.push(x));
    }
}

/// Lowering an expression that holds no block leaves the locals alone: only
/// a `local` declaration adds one, and only a block holds declarations.
pub proof fn lemma_lower_expr_locals(ls: Seq<ir::IrTy>, e: tast::SpecExpr)
    requires
        block_free(e),
    ensures
        lower_expr(ls, e).1 == ls,
    decreases e, 0int,
{
    match e {
        tast::SpecExpr::BinaryOp { left, right, .. } => {
            lemma_lower_expr_locals(ls, *left);
            lemma_lower_expr_locals(lower_expr(ls, *left).1, *right);
        },
        tast::SpecExpr::Call { args, .. } => {
            lemma_lower_exprs_locals(ls, args, 0, Seq::empty());
        },
        _ => {},
    }
}

proof fn lemma_lower_numbered(
    ss: Seq<tast::SpecStmt>,
    i: int,
    imports: Seq<ir::SpecImportFunc>,
    funcs: Seq<ir::SpecFunc>,
)
    requires
        funcs_numbered(ss),
        0 <= i <= ss.len(),
        imports.len() == 0,
        funcs.len() == i,
        forall|k: int| 0 <= k < i ==> (#[trigger] funcs[k]).id == ir::FuncId(k as u32),
    ensures
        lower_items(ss, i, imports, funcs).0.len() == 0,
        lower_items(ss, i, imports, funcs).1.len() == ss.len(),
        forall|k: int|
            0 <= k < ss.len() ==> (#[trigger] lower_items(ss, i, imports, funcs).1[k]).id == ir::FuncId(k as u32),
    decreases ss.len() - i,
{
    if i < ss.len() {
        assert(ss[i] is Func);
        let x = ss[i];
        let f = lower_func(x->Func_id, x->Func_params, x->Func_ret_ty, x->Func_body);
        let funcs1 = funcs.push(f);
        assert(lower_items(ss, i, imports, funcs) == lower_items(ss, i + 1, imports, funcs1));
        assert forall|k: int| 0 <= k < i + 1 implies (#[trigger] funcs1[k]).id == ir::FuncId(k as u32) by {
            if k < i {
                assert(funcs1[k] == funcs[k]);
            }
        }
        lemma_lower_numbered(ss, i + 1, imports, funcs1);
    }
}

/// Function ids carry through checking and lowering: when every top-level
/// statement of a program is a function definition and the program checks,
/// the lowered module has no import and one function per definition, the
/// function at position `k` has id `k`, and the entry is the position of the
/// function named `main`, or none when no function has that name.
pub proof fn lemma_function_ids(p: ast::SpecProgram)
    requires
        all_funcs(p.stmts),
        spec_check(p) is Ok,
    ensures
        spec_lower(spec_check(p)->Ok_0).imports.len() == 0,
        spec_lower(spec_check(p)->Ok_0).heap_types.len() == 0,
        spec_lower(spec_check(p)->Ok_0).funcs.len() == p.stmts.len(),
        forall|k: int|
            0 <= k < p.stmts.len() ==> (#[trigger] spec_lower(spec_check(p)->Ok_0).funcs[k]).id == ir::FuncId(
                k as u32,
            ),
        forall|k: int|
            0 <= k < p.stmts.len() && #[trigger] func_name(p.stmts[k]) == main_name() ==> spec_lower(
                spec_check(p)->Ok_0,
            ).entry == Some(ir::FuncId(k as u32)),
        (forall|k: int| 0 <= k < p.stmts.len() ==> #[trigger] func_name(p.stmts[k]) != main_name()) ==> spec_lower(
            spec_check(p)->Ok_0,
        ).entry is None,
{
    lemma_check_numbers_funcs(p);
    let t = spec_check(p)->Ok_0;
    lemma_lower_numbered(t.stmts, 0, Seq::empty(), Seq::empty());
}

/// What is `k` links down a chain of `else` branches: `o` itself for `k == 0`,
/// then the `else` branch of the `if` found there, and so on.
pub open spec fn else_link(o: Option<Box<ir::SpecExpr>>, k: nat) -> Option<Box<ir::SpecExpr>>
    decreases k,
{
    if k == 0 {
        o
    } else {
        match o {
            Some(b) => match *b {
                ir::SpecExpr::If { else_block, .. } => else_link(else_block, (k - 1) as nat),
                _ => None,
            },
            None => None,
        }
    }
}

/// `x` is an `if` that tests condition `c` and runs block `b`, both lowered,
/// the block after the condition.
pub open spec fn lowered_branch(x: ir::SpecExpr, c: tast::SpecExpr, b: tast::SpecBlock, ls: Seq<ir::IrTy>) -> bool {
    &&& x is If
    &&& *x->If_condition == lower_expr(ls, c).0
    &&& *x->If_then_block == lower_block(lower_expr(ls, c).1, b).0
}

/// `x` is the lowering of an `elif` branch.
pub open spec fn lowers_elif(x: ir::SpecExpr, e: tast::SpecElif) -> bool {
    exists|ls: Seq<ir::IrTy>| #[trigger] lowered_branch(x, e.condition, e.then_block, ls)
}

/// The link holds the lowering of an `elif` branch.
pub open spec fn link_lowers_elif(o: Option<Box<ir::SpecExpr>>, e: tast::SpecElif) -> bool {
    match o {
        Some(b) => lowers_elif(*b, e),
        None => false,
    }
}

pub open spec fn lowered_else(o: Option<Box<ir::SpecExpr>>, b: tast::SpecBlock, ls: Seq<ir::IrTy>) -> bool {
    o == Some(Box::new(ir::SpecExpr::Block(lower_block(ls, b).0)))
}

/// `o` is the lowering of the final `else` block: nothing when there is none.
pub open spec fn lowers_else(o: Option<Box<ir::SpecExpr>>, eb: Option<tast::SpecBlock>) -> bool {
    match eb {
        Some(b) => exists|ls: Seq<ir::IrTy>| #[trigger] lowered_else(o, b, ls),
        None => o is None,
    }
}

proof fn lemma_else_link_step(o: Option<Box<ir::SpecExpr>>, m: nat)
    ensures
        else_link(o, m + 1) == (match else_link(o, m) {
            Some(b) => match *b {
                ir::SpecExpr::If { else_block, .. } => else_block,
                _ => None,
            },
            None => None,
        }),
    decreases m,
{
    match o {
        Some(b) => match *b {
            ir::SpecExpr::If { else_block, .. } => {
                if m > 0 {
                    lemma_else_link_step(else_block, (m - 1) as nat);
                } else {
                    assert(else_link(else_block, 0) == else_block);
                }
            },
            _ => {},
        },
        None => {},
    }
}

proof fn lemma_fold_elifs_chain(
    ls: Seq<ir::IrTy>,
    es: Seq<tast::SpecElif>,
    n: int,
    base: Option<Box<ir::SpecExpr>>,
    ty: ir::IrTy,
)
    requires
        0 <= n <= es.len(),
    ensures
        forall|k: nat|
            k < n ==> link_lowers_elif(#[trigger] else_link(fold_elifs(ls, es, n, base, ty).0, k), es[k as int]),
        else_link(fold_elifs(ls, es, n, base, ty).0, n as nat) == base,
    decreases n,
{
    if n > 0 {
        let (c, ls1) = lower_expr(ls, es[n - 1].condition);
        let (b, ls2) = lower_block(ls1, es[n - 1].then_block);
        let x = ir::SpecExpr::If { condition: Box::new(c), then_block: Box::new(b), else_block: base, ty };
        let base1 = Some(Box::new(x));
        lemma_fold_elifs_chain(ls2, es, n - 1, base1, ty);
        let r = fold_elifs(ls, es, n, base, ty).0;
        assert(r == fold_elifs(ls2, es, n - 1, base1, ty).0);
        assert(lowered_branch(x, es[n - 1].condition, es[n - 1].then_block, ls));
        lemma_else_link_step(r, (n - 1) as nat);
        assert forall|k: nat| k < n implies link_lowers_elif(#[trigger] else_link(r, k), es[k as int]) by {
            if k == n - 1 {
                assert(else_link(r, k) == base1);
            }
        }
    }
}

/// An `if` with `elif` branches lowers to a chain of nested `if`s in source
/// order: the outer `if` tests the first condition; `k` links down its
/// `else` branches (the `else` branch itself being link 0) stands the `if`
/// of the `k`-th `elif`, for `k` from 0 on; and the link after the last
/// `elif` is the lowered `else` block, or nothing when there is none.
pub proof fn lemma_lower_if_chain(ls: Seq<ir::IrTy>, s: tast::SpecStmt)
    requires
        s is If,
    ensures
        exists|l: Seq<ir::IrTy>| #[trigger] lowered_branch(lower_if(ls, s).0, s->If_condition, s->If_then_block, l),
        forall|k: nat|
            k < s->If_elifs.len() ==> link_lowers_elif(
                #[trigger] else_link(lower_if(ls, s).0->If_else_block, k),
                s->If_elifs[k as int],
            ),
        lowers_else(else_link(lower_if(ls, s).0->If_else_block, s->If_elifs.len()), s->If_else_block),
{
    match s {
        tast::SpecStmt::If { condition, then_block, elifs, else_block, ty } => {
            let t = crate::lower::rules::lower_ty(ty);
            let (base, ls1) = match else_block {
                Some(b) => {
                    let (lb, l1) = lower_block(ls, b);
                    (Some(Box::new(ir::SpecExpr::Block(lb))), l1)
                },
                None => (None, ls),
            };
            if let Some(b) = else_block {
                assert(lowered_else(base, b, ls));
            }
            lemma_fold_elifs_chain(ls1, elifs, elifs.len() as int, base, t);
            let (els, ls2) = fold_elifs(ls1, elifs, elifs.len() as int, base, t);
            let r = lower_if(ls, s).0;
            assert(lowered_branch(r, condition, then_block, ls2));
            assert(r->If_else_block == els);
        },
        _ => {},
    }
}

} // verus!
