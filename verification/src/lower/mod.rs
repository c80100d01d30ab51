//! Lowering: from the typed tree to the intermediate representation.
//!
//! `Int` and `Bool` become `I32`, `Float` becomes `F32`, `Void` stays
//! `Void`; an `elif` chain becomes nested `if`s.
pub mod ir;
pub mod rules;
pub mod laws;
mod check;

pub use check::lowerable;

use vstd::prelude::*;
use crate::common::Literal;
use crate::sema::tast;
use crate::sema::ty::{lemma_tys_view, tys_view, SpecTy, Ty};
use ir::{FuncId, IrTy, LocalId};

verus! {

/// The lowering state: the local types of the function being lowered.
pub struct Lower {
    pub locals: Vec<IrTy>,
}

pub open spec fn if_view(i: &tast::If) -> tast::SpecStmt {
    tast::SpecStmt::If {
        condition: i.condition@,
        then_block: i.then_block@,
        elifs: tast::elifs_view(i.elifs@),
        else_block: match &i.else_block {
            Some(b) => Some(b@),
            None => None,
        },
        ty: i.ty@,
    }
}

pub open spec fn ir_if_view(i: &ir::If) -> ir::SpecExpr {
    ir::SpecExpr::If {
        condition: Box::new((*i.condition)@),
        then_block: Box::new((*i.then_block)@),
        else_block: match &i.else_block {
            Some(e) => Some(Box::new((**e)@)),
            None => None,
        },
        ty: i.ty,
    }
}

pub open spec fn ir_return_view(r: &ir::Return) -> ir::SpecExpr {
    ir::SpecExpr::Return {
        value: match &r.value {
            Some(v) => Some(Box::new((**v)@)),
            None => None,
        },
    }
}

/// Lowers a program that [`lowerable`] accepts.
pub fn lower(tast: tast::Program) -> (m: ir::Module)
    requires
        rules::lowerable_program(tast@),
    ensures
        m@ == rules::spec_lower(tast@),
{
    let mut l = Lower::new();
    l.lower_module(tast)
}

impl Lower {
    pub fn new() -> (l: Lower)
        ensures
            l.locals@ == Seq::<IrTy>::empty(),
    {
        Lower { locals: Vec::new() }
    }

    pub fn lower_ty(&self, ty: &Ty) -> (t: IrTy)
        requires
            rules::lowerable_ty(ty@),
        ensures
            t == rules::lower_ty(ty@),
    {
        match ty {
            Ty::Int => IrTy::I32,
            Ty::Float => IrTy::F32,
            Ty::Bool => IrTy::I32,
            _ => IrTy::Void,
        }
    }

    pub fn lower_module(&mut self, tast: tast::Program) -> (m: ir::Module)
        requires
            rules::lowerable_program(tast@),
        ensures
            m@ == rules::spec_lower(tast@),
    {
        let ghost sv = tast::stmts_view(tast.stmts@);
        proof {
            tast::lemma_stmts_view(tast.stmts@);
        }
        let mut imports: Vec<ir::ImportFunc> = Vec::new();
        let mut funcs: Vec<ir::Func> = Vec::new();
        assert(ir::imports_view(imports@) =~= Seq::<ir::SpecImportFunc>::empty());
        assert(ir::funcs_view(funcs@) =~= Seq::<ir::SpecFunc>::empty());
        let mut i: usize = 0;
        while i < tast.stmts.len()
            invariant
                i <= tast.stmts.len(),
                sv == tast::stmts_view(tast.stmts@),
                sv.len() == tast.stmts.len(),
                forall|j: int| 0 <= j < tast.stmts.len() ==> #[trigger] sv[j] == tast.stmts@[j]@,
                forall|j: int| 0 <= j < sv.len() ==> rules::lowerable_top(#[trigger] sv[j]),
                rules::lower_items(sv, i as int, ir::imports_view(imports@), ir::funcs_view(funcs@))
                    == rules::lower_items(sv, 0, Seq::empty(), Seq::empty()),
            decreases tast.stmts.len() - i,
        {
            assert(rules::lowerable_top(sv[i as int]));
            match &tast.stmts[i] {
                tast::Stmt::ExternFunc(f) => {
                    let imp = self.lower_import(f);
                    let ghost old_imports = imports@;
                    imports.push(imp);
                    assert(ir::imports_view(imports@) =~= ir::imports_view(old_imports).push(imp@));
                },
                tast::Stmt::Func(f) => {
                    let func = self.lower_func_decl(f);
                    let ghost old_funcs = funcs@;
                    funcs.push(func);
                    assert(ir::funcs_view(funcs@) =~= ir::funcs_view(old_funcs).push(func@));
                },
                _ => {},
            }
            i = i + 1;
        }
        let entry = match tast.entry {
            Some(id) => Some(FuncId(id.0)),
            None => None,
        };
        let heap_types: Vec<ir::HeapType> = Vec::new();
        assert(ir::heap_types_view(heap_types@) =~= Seq::<Seq<IrTy>>::empty());
        ir::Module { heap_types, imports, funcs, entry }
    }

    fn lower_import(&self, f: &tast::ExternFunc) -> (imp: ir::ImportFunc)
        requires
            rules::lowerable_tys(tys_view(f.params_ty@)),
            rules::lowerable_ty(f.ret_ty@),
        ensures
            imp@ == rules::lower_import(f.module@, f.symbol@, tys_view(f.params_ty@), f.ret_ty@),
    {
        proof {
            lemma_tys_view(f.params_ty@);
        }
        let mut params: Vec<IrTy> = Vec::new();
        let mut i: usize = 0;
        while i < f.params_ty.len()
            invariant
                i <= f.params_ty.len(),
                tys_view(f.params_ty@).len() == f.params_ty.len(),
                forall|j: int| 0 <= j < f.params_ty.len() ==> #[trigger] tys_view(f.params_ty@)[j] == f.params_ty@[j]@,
                rules::lowerable_tys(tys_view(f.params_ty@)),
                params@ =~= tys_view(f.params_ty@).take(i as int).map_values(|t: SpecTy| rules::lower_ty(t)),
            decreases f.params_ty.len() - i,
        {
            assert(rules::lowerable_ty(tys_view(f.params_ty@)[i as int]));
            let t = self.lower_ty(&f.params_ty[i]);
            params.push(t);
            i = i + 1;
        }
        assert(tys_view(f.params_ty@).take(f.params_ty.len() as int) =~= tys_view(f.params_ty@));
        ir::ImportFunc {
            module: f.module.clone(),
            item: f.symbol.clone(),
            params,
            ret_ty: self.lower_ty(&f.ret_ty),
        }
    }

    pub fn lower_func_decl(&mut self, func: &tast::Func) -> (f: ir::Func)
        requires
            rules::lowerable_params(tast::params_view(func.params@)),
            rules::lowerable_ty(func.ret_ty@),
            rules::lowerable_block(func.body@),
        ensures
            f@ == rules::lower_func(func.id, tast::params_view(func.params@), func.ret_ty@, func.body@),
            final(self).locals@ == Seq::<IrTy>::empty(),
    {
        self.locals = Vec::new();
        let ghost pv = tast::params_view(func.params@);
        let mut params: Vec<ir::Param> = Vec::new();
        let mut i: usize = 0;
        while i < func.params.len()
            invariant
                i <= func.params.len(),
                pv == tast::params_view(func.params@),
                rules::lowerable_params(pv),
                params@ =~= pv.take(i as int).map_values(|p: tast::SpecParam| rules::lower_param(p)),
            decreases func.params.len() - i,
        {
            assert(rules::lowerable_ty(pv[i as int].ty));
            let p = &func.params[i];
            let t = self.lower_ty(&p.ty);
            params.push(ir::Param { id: LocalId(p.id.0), ty: t });
            i = i + 1;
        }
        assert(pv.take(func.params.len() as int) =~= pv);
        let body = self.lower_block(&func.body);
        let mut locals: Vec<IrTy> = Vec::new();
        std::mem::swap(&mut locals, &mut self.locals);
        let ret_ty = self.lower_ty(&func.ret_ty);
        ir::Func { id: FuncId(func.id.0), params, locals, ret_ty, body }
    }

    #[verifier::loop_isolation(false)]
    pub fn lower_block(&mut self, block: &tast::Block) -> (b: ir::Block)
        requires
            rules::lowerable_block(block@),
        ensures
            (b@, final(self).locals@) == rules::lower_block(old(self).locals@, block@),
        decreases block, 0int,
    {
        let ghost sv = tast::stmts_view(block.stmts@);
        let ghost ls0 = self.locals@;
        proof {
            tast::lemma_stmts_view(block.stmts@);
        }
        let mut exprs: Vec<ir::Expr> = Vec::new();
        assert(ir::exprs_view(exprs@) =~= Seq::<ir::SpecExpr>::empty());
        let mut i: usize = 0;
        while i < block.stmts.len()
            invariant
                i <= block.stmts.len(),
                sv.len() == block.stmts.len(),
                forall|j: int| 0 <= j < block.stmts.len() ==> #[trigger] sv[j] == block.stmts@[j]@,
                rules::lowerable_stmts(sv, i as int),
                rules::lower_stmts(self.locals@, sv, i as int, ir::exprs_view(exprs@)) == rules::lower_stmts(
                    ls0,
                    sv,
                    0,
                    Seq::empty(),
                ),
            decreases block.stmts.len() - i,
        {
            assert(decreases_to!(*block => block.stmts));
            assert(decreases_to!(block.stmts => block.stmts@));
            assert(decreases_to!(block.stmts@ => block.stmts@[i as int]));
            let x = self.lower_stmt(&block.stmts[i]);
            proof {
                ir::lemma_exprs_view_push(exprs@, x);
            }
            exprs.push(x);
            i = i + 1;
        }
        let ty = self.lower_ty(&block.ty);
        ir::Block { exprs, ty }
    }

    pub fn lower_stmt(&mut self, stmt: &tast::Stmt) -> (e: ir::Expr)
        requires
            rules::lowerable_stmt(stmt@),
        ensures
            (e@, final(self).locals@) == rules::lower_stmt(old(self).locals@, stmt@),
        decreases stmt, 2int,
    {
        match stmt {
            tast::Stmt::Local(local) => self.lower_local_decl(local.id, &local.value_ty, &local.value),
            tast::Stmt::Return(ret) => {
                let r = self.lower_return(ret);
                assert(ir::Expr::Return(r)@ == ir_return_view(&r));
                ir::Expr::Return(r)
            },
            tast::Stmt::If(if_stmt) => {
                assert(stmt@ == if_view(if_stmt));
                let r = self.lower_if(if_stmt);
                assert(ir::Expr::If(r)@ == ir_if_view(&r));
                ir::Expr::If(r)
            },
            tast::Stmt::Block(block) => ir::Expr::Block(self.lower_block(block)),
            tast::Stmt::Assign(assign) => {
                let value = self.lower_expr(&assign.value);
                ir::Expr::LocalSet(ir::LocalSet { id: LocalId(assign.id.0), value: Box::new(value) })
            },
            tast::Stmt::Expr(expr) => self.lower_expr(expr),
            _ => ir::Expr::ConstInt(0),
        }
    }

    pub fn lower_local_decl(&mut self, id: tast::VarId, value_ty: &Ty, value: &tast::Expr) -> (e: ir::Expr)
        requires
            rules::lowerable_ty(value_ty@),
            rules::lowerable_expr(value@),
        ensures
            (e@, final(self).locals@) == ({
                let (v, ls1) = rules::lower_expr(old(self).locals@.push(rules::lower_ty(value_ty@)), value@);
                (ir::SpecExpr::LocalSet { id: LocalId(id.0), value: Box::new(v) }, ls1)
            }),
        decreases value, 1int,
    {
        let t = self.lower_ty(value_ty);
        self.locals.push(t);
        let value = self.lower_expr(value);
        ir::Expr::LocalSet(ir::LocalSet { id: LocalId(id.0), value: Box::new(value) })
    }

    pub fn lower_return(&mut self, ret: &tast::Return) -> (r: ir::Return)
        requires
            match &ret.value {
                Some(v) => rules::lowerable_expr(v@),
                None => true,
            },
        ensures
            (ir_return_view(&r), final(self).locals@) == (match &ret.value {
                Some(v) => {
                    let (x, ls1) = rules::lower_expr(old(self).locals@, v@);
                    (ir::SpecExpr::Return { value: Some(Box::new(x)) }, ls1)
                },
                None => (ir::SpecExpr::Return { value: None }, old(self).locals@),
            }),
        decreases ret, 0int,
    {
        match &ret.value {
            Some(v) => ir::Return { value: Some(Box::new(self.lower_expr(v))) },
            None => ir::Return { value: None },
        }
    }

    #[verifier::loop_isolation(false)]
    pub fn lower_if(&mut self, if_stmt: &tast::If) -> (r: ir::If)
        requires
            rules::lowerable_stmt(if_view(if_stmt)),
        ensures
            (ir_if_view(&r), final(self).locals@) == rules::lower_if(old(self).locals@, if_view(if_stmt)),
        decreases if_stmt, 1int,
    {
        let ty = self.lower_ty(&if_stmt.ty);
        let mut else_block: Option<Box<ir::Expr>> = match &if_stmt.else_block {
            Some(block) => {
                let b = self.lower_block(block);
                let e = ir::Expr::Block(b);
                assert(e@ == ir::SpecExpr::Block(b@));
                Some(Box::new(e))
            },
            None => None,
        };
        let ghost ev = tast::elifs_view(if_stmt.elifs@);
        let ghost ls1 = self.locals@;
        let ghost base = match &else_block {
            Some(e) => Some(Box::new((**e)@)),
            None => None,
        };
        proof {
            tast::lemma_elifs_view(if_stmt.elifs@);
        }
        let mut j: usize = if_stmt.elifs.len();
        while j > 0
            invariant
                j <= if_stmt.elifs.len(),
                ev.len() == if_stmt.elifs.len(),
                forall|k: int| 0 <= k < if_stmt.elifs.len() ==> #[trigger] ev[k] == if_stmt.elifs@[k]@,
                rules::lowerable_elifs(ev, 0),
                rules::fold_elifs(
                    self.locals@,
                    ev,
                    j as int,
                    match &else_block {
                        Some(e) => Some(Box::new((**e)@)),
                        None => None,
                    },
                    ty,
                ) == rules::fold_elifs(ls1, ev, ev.len() as int, base, ty),
            decreases j,
        {
            let elif = &if_stmt.elifs[j - 1];
            proof {
                lemma_lowerable_elifs(ev, 0, j - 1);
            }
            assert(decreases_to!(*if_stmt => if_stmt.elifs));
            assert(decreases_to!(if_stmt.elifs => if_stmt.elifs@));
            assert(decreases_to!(if_stmt.elifs@ => if_stmt.elifs@[j - 1]));
            assert(decreases_to!(*elif => elif.condition));
            assert(decreases_to!(*elif => elif.then_block));
            let condition = self.lower_expr(&elif.condition);
            let then_block = self.lower_block(&elif.then_block);
            let ghost prev = match &else_block {
                Some(e) => Some(Box::new((**e)@)),
                None => None,
            };
            let n = ir::If { condition: Box::new(condition), then_block: Box::new(then_block), else_block, ty };
            let e = ir::Expr::If(n);
            assert(e@ == ir::SpecExpr::If {
                condition: Box::new(condition@),
                then_block: Box::new(then_block@),
                else_block: prev,
                ty,
            });
            else_block = Some(Box::new(e));
            j = j - 1;
        }
        let condition = self.lower_expr(&if_stmt.condition);
        let then_block = self.lower_block(&if_stmt.then_block);
        ir::If { condition: Box::new(condition), then_block: Box::new(then_block), else_block, ty }
    }

    #[verifier::loop_isolation(false)]
    pub fn lower_expr(&mut self, expr: &tast::Expr) -> (e: ir::Expr)
        requires
            rules::lowerable_expr(expr@),
        ensures
            (e@, final(self).locals@) == rules::lower_expr(old(self).locals@, expr@),
        decreases expr, 0int,
    {
        match expr {
            tast::Expr::Literal(lit, _) => match lit {
                Literal::Int(v) => ir::Expr::ConstInt(*v),
                Literal::Float(s) => ir::Expr::ConstFloat(s.clone()),
                Literal::Bool(b) => ir::Expr::ConstBool(*b),
            },
            tast::Expr::VarRef(var_ref) => {
                let ty = self.lower_ty(&var_ref.ty);
                ir::Expr::LocalGet(ir::LocalGet { id: LocalId(var_ref.id.0), ty })
            },
            tast::Expr::FuncRef(func_ref) => ir::Expr::FuncRef(FuncId(func_ref.id.0)),
            tast::Expr::BinaryOp(binop) => {
                let ty = self.lower_ty(&binop.ty);
                let left = self.lower_expr(&binop.left);
                let right = self.lower_expr(&binop.right);
                ir::Expr::Binary(ir::Binary { op: binop.op, left: Box::new(left), right: Box::new(right), ty })
            },
            tast::Expr::Call(call) => {
                let ty = self.lower_ty(&call.ty);
                let ghost av = tast::exprs_view(call.args@);
                let ghost ls0 = self.locals@;
                proof {
                    tast::lemma_exprs_view(call.args@);
                }
                let mut args: Vec<ir::Expr> = Vec::new();
                assert(ir::exprs_view(args@) =~= Seq::<ir::SpecExpr>::empty());
                let mut i: usize = 0;
                while i < call.args.len()
                    invariant
                        i <= call.args.len(),
                        av.len() == call.args.len(),
                        forall|k: int| 0 <= k < call.args.len() ==> #[trigger] av[k] == call.args@[k]@,
                        rules::lowerable_exprs(av, i as int),
                        rules::lower_exprs(self.locals@, av, i as int, ir::exprs_view(args@)) == rules::lower_exprs(
                            ls0,
                            av,
                            0,
                            Seq::empty(),
                        ),
                    decreases call.args.len() - i,
                {
                    assert(decreases_to!(*expr => *call));
                    assert(decreases_to!(*call => call.args));
                    assert(decreases_to!(call.args => call.args@));
                    assert(decreases_to!(call.args@ => call.args@[i as int]));
                    let x = self.lower_expr(&call.args[i]);
                    proof {
                        ir::lemma_exprs_view_push(args@, x);
                    }
                    args.push(x);
                    i = i + 1;
                }
                let func = match &*call.callee {
                    tast::Expr::FuncRef(func_ref) => {
                        assert((*call.callee)@ == tast::SpecExpr::FuncRef { id: func_ref.id, ty: func_ref.ty@ });
                        FuncId(func_ref.id.0)
                    },
                    _ => FuncId(0),
                };
                ir::Expr::Call(ir::Call { func, args, ty })
            },
            tast::Expr::Block(block) => {
                assert(expr@ == tast::SpecExpr::Block(block@));
                let b = self.lower_block(block);
                let e = ir::Expr::Block(b);
                assert(e@ == ir::SpecExpr::Block(b@));
                e
            },
            _ => ir::Expr::ConstInt(0),
        }
    }
}

/// Every `elif` from `i` on lowers when all from `start` on do.
pub proof fn lemma_lowerable_elifs(es: Seq<tast::SpecElif>, start: int, i: int)
    requires
        0 <= start <= i < es.len(),
        rules::lowerable_elifs(es, start),
    ensures
        rules::lowerable_expr(es[i].condition),
        rules::lowerable_block(es[i].then_block),
        rules::lowerable_elifs(es, i),
    decreases i - start,
{
    if start < i {
        lemma_lowerable_elifs(es, start + 1, i);
    }
}

} // verus!
