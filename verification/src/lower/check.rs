//! Whether a typed program is one that lowering is defined on.
use vstd::prelude::*;
use crate::sema::tast;
use crate::sema::ty::{lemma_tys_view, tys_view, Ty};
use super::rules;

verus! {

fn ty_ok(t: &Ty) -> (b: bool)
    ensures
        b == rules::lowerable_ty(t@),
{
    matches!(t, Ty::Int) || matches!(t, Ty::Float) || matches!(t, Ty::Bool) || matches!(t, Ty::Void)
}

#[verifier::loop_isolation(false)]
fn expr_ok(e: &tast::Expr) -> (b: bool)
    ensures
        b == rules::lowerable_expr(e@),
    decreases e, 0int,
{
    match e {
        tast::Expr::Literal(_, _) => true,
        tast::Expr::FuncRef(_) => true,
        tast::Expr::VarRef(v) => ty_ok(&v.ty),
        tast::Expr::BinaryOp(b) => ty_ok(&b.ty) && expr_ok(&b.left) && expr_ok(&b.right),
        tast::Expr::Call(c) => {
            let is_ref = match &*c.callee {
                tast::Expr::FuncRef(_) => true,
                _ => false,
            };
            assert(is_ref == ((*c.callee)@ is FuncRef));
            if !ty_ok(&c.ty) || !is_ref {
                return false;
            }
            let ghost av = tast::exprs_view(c.args@);
            proof {
                tast::lemma_exprs_view(c.args@);
            }
            let mut i: usize = 0;
            while i < c.args.len()
                invariant
                    i <= c.args.len(),
                    av.len() == c.args.len(),
                    forall|k: int| 0 <= k < c.args.len() ==> #[trigger] av[k] == c.args@[k]@,
                    rules::lowerable_exprs(av, i as int) == rules::lowerable_exprs(av, 0),
                decreases c.args.len() - i,
            {
                assert(decreases_to!(*e => *c));
                assert(decreases_to!(*c => c.args));
                assert(decreases_to!(c.args => c.args@));
                assert(decreases_to!(c.args@ => c.args@[i as int]));
                if !expr_ok(&c.args[i]) {
                    return false;
                }
                i = i + 1;
            }
            true
        },
        tast::Expr::Block(b) => {
            assert(e@ == tast::SpecExpr::Block(b@));
            block_ok(b)
        },
        _ => false,
    }
}

#[verifier::loop_isolation(false)]
fn block_ok(b: &tast::Block) -> (r: bool)
    ensures
        r == rules::lowerable_block(b@),
    decreases b, 0int,
{
    if !ty_ok(&b.ty) {
        return false;
    }
    let ghost sv = tast::stmts_view(b.stmts@);
    proof {
        tast::lemma_stmts_view(b.stmts@);
    }
    let mut i: usize = 0;
    while i < b.stmts.len()
        invariant
            i <= b.stmts.len(),
            sv.len() == b.stmts.len(),
            forall|k: int| 0 <= k < b.stmts.len() ==> #[trigger] sv[k] == b.stmts@[k]@,
            rules::lowerable_stmts(sv, i as int) == rules::lowerable_stmts(sv, 0),
        decreases b.stmts.len() - i,
    {
        assert(decreases_to!(*b => b.stmts));
        assert(decreases_to!(b.stmts => b.stmts@));
        assert(decreases_to!(b.stmts@ => b.stmts@[i as int]));
        if !stmt_ok(&b.stmts[i]) {
            return false;
        }
        i = i + 1;
    }
    true
}

#[verifier::loop_isolation(false)]
fn stmt_ok(s: &tast::Stmt) -> (r: bool)
    ensures
        r == rules::lowerable_stmt(s@),
    decreases s, 0int,
{
    match s {
        tast::Stmt::Local(l) => ty_ok(&l.value_ty) && expr_ok(&l.value),
        tast::Stmt::Return(ret) => match &ret.value {
            Some(v) => expr_ok(v),
            None => true,
        },
        tast::Stmt::If(i) => {
            if !ty_ok(&i.ty) || !expr_ok(&i.condition) || !block_ok(&i.then_block) {
                return false;
            }
            let ghost ev = tast::elifs_view(i.elifs@);
            proof {
                tast::lemma_elifs_view(i.elifs@);
            }
            let mut k: usize = 0;
            while k < i.elifs.len()
                invariant
                    k <= i.elifs.len(),
                    ev.len() == i.elifs.len(),
                    forall|j: int| 0 <= j < i.elifs.len() ==> #[trigger] ev[j] == i.elifs@[j]@,
                    rules::lowerable_elifs(ev, k as int) == rules::lowerable_elifs(ev, 0),
                decreases i.elifs.len() - k,
            {
                let elif = &i.elifs[k];
                assert(decreases_to!(*s => *i));
                assert(decreases_to!(*i => i.elifs));
                assert(decreases_to!(i.elifs => i.elifs@));
                assert(decreases_to!(i.elifs@ => i.elifs@[k as int]));
                assert(decreases_to!(*elif => elif.condition));
                assert(decreases_to!(*elif => elif.then_block));
                if !expr_ok(&elif.condition) || !block_ok(&elif.then_block) {
                    return false;
                }
                k = k + 1;
            }
            match &i.else_block {
                Some(b) => block_ok(b),
                None => true,
            }
        },
        tast::Stmt::Assign(a) => expr_ok(&a.value),
        tast::Stmt::Block(b) => block_ok(b),
        tast::Stmt::Expr(e) => expr_ok(e),
        _ => false,
    }
}

fn tys_ok(ts: &Vec<Ty>) -> (b: bool)
    ensures
        b == rules::lowerable_tys(tys_view(ts@)),
{
    proof {
        lemma_tys_view(ts@);
    }
    let mut i: usize = 0;
    while i < ts.len()
        invariant
            i <= ts.len(),
            tys_view(ts@).len() == ts.len(),
            forall|k: int| 0 <= k < ts.len() ==> #[trigger] tys_view(ts@)[k] == ts@[k]@,
            forall|k: int| 0 <= k < i ==> rules::lowerable_ty(#[trigger] tys_view(ts@)[k]),
        decreases ts.len() - i,
    {
        if !ty_ok(&ts[i]) {
            assert(!rules::lowerable_ty(tys_view(ts@)[i as int]));
            return false;
        }
        i = i + 1;
    }
    true
}

#[verifier::loop_isolation(false)]
fn top_ok(s: &tast::Stmt) -> (b: bool)
    ensures
        b == rules::lowerable_top(s@),
{
    match s {
        tast::Stmt::ExternFunc(f) => tys_ok(&f.params_ty) && ty_ok(&f.ret_ty),
        tast::Stmt::Func(f) => {
            let ghost pv = tast::params_view(f.params@);
            let mut i: usize = 0;
            while i < f.params.len()
                invariant
                    i <= f.params.len(),
                    pv == tast::params_view(f.params@),
                    forall|k: int| 0 <= k < i ==> rules::lowerable_ty(#[trigger] pv[k].ty),
                decreases f.params.len() - i,
            {
                if !ty_ok(&f.params[i].ty) {
                    assert(!rules::lowerable_ty(pv[i as int].ty));
                    assert(s@ is Func);
                    assert(s@->Func_params == pv);
                    return false;
                }
                i = i + 1;
            }
            ty_ok(&f.ret_ty) && block_ok(&f.body)
        },
        _ => false,
    }
}

/// Whether lowering is defined on the program: only functions at the top
/// level, only `Int`, `Float`, `Bool` and `Void` types, and no unary
/// operator, struct literal, or call of anything but a named function.
#[verifier::loop_isolation(false)]
pub fn lowerable(p: &tast::Program) -> (b: bool)
    ensures
        b == rules::lowerable_program(p@),
{
    let ghost sv = tast::stmts_view(p.stmts@);
    proof {
        tast::lemma_stmts_view(p.stmts@);
    }
    let mut i: usize = 0;
    while i < p.stmts.len()
        invariant
            i <= p.stmts.len(),
            sv == tast::stmts_view(p.stmts@),
            sv.len() == p.stmts.len(),
            forall|k: int| 0 <= k < p.stmts.len() ==> #[trigger] sv[k] == p.stmts@[k]@,
            forall|k: int| 0 <= k < i ==> rules::lowerable_top(#[trigger] sv[k]),
        decreases p.stmts.len() - i,
    {
        if !top_ok(&p.stmts[i]) {
            assert(!rules::lowerable_top(sv[i as int]));
            assert(p@.stmts == sv);
            return false;
        }
        i = i + 1;
    }
    true
}

} // verus!
