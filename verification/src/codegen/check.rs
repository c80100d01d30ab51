//! Whether a module is one that code generation is defined on.
use vstd::prelude::*;
use crate::common::op::BinOpKind;
use crate::lower::ir::{self, IrTy};
use super::rules;

verus! {

fn op_ok(op: BinOpKind, ty: IrTy) -> (b: bool)
    ensures
        b == rules::bin_op_ok(op, ty),
{
    match ty {
        IrTy::I32 => true,
        IrTy::F32 => !(matches!(op, BinOpKind::And) || matches!(op, BinOpKind::Or)),
        IrTy::Void => false,
    }
}

#[verifier::loop_isolation(false)]
fn expr_ok(e: &ir::Expr) -> (b: bool)
    ensures
        b == rules::emittable_expr(e@),
    decreases e,
{
    match e {
        ir::Expr::ConstInt(_) | ir::Expr::ConstBool(_) | ir::Expr::LocalGet(_) => true,
        ir::Expr::LocalSet(s) => expr_ok(&s.value),
        ir::Expr::Return(r) => match &r.value {
            Some(v) => expr_ok(v),
            None => true,
        },
        ir::Expr::Call(c) => {
            let ghost av = ir::exprs_view(c.args@);
            proof {
                ir::lemma_exprs_view(c.args@);
            }
            let mut i: usize = 0;
            while i < c.args.len()
                invariant
                    i <= c.args.len(),
                    av.len() == c.args.len(),
                    forall|k: int| 0 <= k < c.args.len() ==> #[trigger] av[k] == c.args@[k]@,
                    rules::emittable_exprs(av, i as int) == rules::emittable_exprs(av, 0),
                decreases c.args.len() - i,
            {
                assert(decreases_to!(*e => *c));
                assert(decreases_to!(*c => c.args));
                assert(decreases_to!(c.args => c.args@));
                assert(decreases_to!(c.args@ => c.args@[i as int]));
                if !expr_ok(&c.args[i]) {
                    return false;
                }
                i = i + 1;
            }
            true
        },
        ir::Expr::Binary(b) => {
            if !expr_ok(&b.left) || !expr_ok(&b.right) {
                return false;
            }
            op_ok(b.op, b.left.ty())
        },
        _ => false,
    }
}

#[verifier::loop_isolation(false)]
fn func_ok(f: &ir::Func) -> (b: bool)
    ensures
        b == rules::emittable_func(f@),
{
    let ghost pts = f@.params.map_values(|p: ir::Param| p.ty);
    let mut i: usize = 0;
    while i < f.params.len()
        invariant
            i <= f.params.len(),
            pts.len() == f.params.len(),
            forall|k: int| 0 <= k < i ==> !(#[trigger] pts[k] is Void),
        decreases f.params.len() - i,
    {
        if matches!(f.params[i].ty, IrTy::Void) {
            assert(pts[i as int] is Void);
            return false;
        }
        i = i + 1;
    }
    let mut j: usize = 0;
    while j < f.locals.len()
        invariant
            j <= f.locals.len(),
            forall|k: int| 0 <= k < j ==> !(#[trigger] f.locals@[k] is Void),
        decreases f.locals.len() - j,
    {
        if matches!(f.locals[j], IrTy::Void) {
            return false;
        }
        j = j + 1;
    }
    let ghost ev = ir::exprs_view(f.body.exprs@);
    proof {
        ir::lemma_exprs_view(f.body.exprs@);
    }
    let mut k: usize = 0;
    while k < f.body.exprs.len()
        invariant
            k <= f.body.exprs.len(),
            ev == f@.body.exprs,
            ev.len() == f.body.exprs.len(),
            forall|n: int| 0 <= n < f.body.exprs.len() ==> #[trigger] ev[n] == f.body.exprs@[n]@,
            forall|n: int| 0 <= n < k ==> rules::emittable_expr(#[trigger] ev[n]),
        decreases f.body.exprs.len() - k,
    {
        if !expr_ok(&f.body.exprs[k]) {
            assert(!rules::emittable_expr(ev[k as int]));
            return false;
        }
        k = k + 1;
    }
    true
}

/// Whether code generation is defined on the module: no `Void` parameter or
/// local, only constants, locals, calls, returns and binary operators with
/// an instruction for their operand type in function bodies, and fewer than
/// 2^32 - 1 imports and functions together.
#[verifier::loop_isolation(false)]
pub fn emittable(m: &ir::Module) -> (b: bool)
    ensures
        b == rules::emittable_module(m@),
{
    let a: usize = m.imports.len();
    let b: usize = m.funcs.len();
    if a >= 0xFFFF_FFFF || b >= 0xFFFF_FFFF - a {
        return false;
    }
    let mut i: usize = 0;
    while i < m.imports.len()
        invariant
            i <= m.imports.len(),
            forall|k: int| 0 <= k < i ==> rules::not_void(#[trigger] m@.imports[k].params),
        decreases m.imports.len() - i,
    {
        let ps = &m.imports[i].params;
        let mut j: usize = 0;
        while j < ps.len()
            invariant
                j <= ps.len(),
                *ps == m.imports@[i as int].params,
                forall|k: int| 0 <= k < j ==> !(#[trigger] ps@[k] is Void),
            decreases ps.len() - j,
        {
            if matches!(ps[j], IrTy::Void) {
                assert(!rules::not_void(m@.imports[i as int].params));
                return false;
            }
            j = j + 1;
        }
        i = i + 1;
    }
    let mut k: usize = 0;
    while k < m.funcs.len()
        invariant
            k <= m.funcs.len(),
            forall|n: int| 0 <= n < k ==> rules::emittable_func(#[trigger] m@.funcs[n]),
        decreases m.funcs.len() - k,
    {
        if !func_ok(&m.funcs[k]) {
            assert(!rules::emittable_func(m@.funcs[k as int]));
            return false;
        }
        k = k + 1;
    }
    true
}

} // verus!
