//! The checker state and the checking of expressions.
use vstd::prelude::*;
use crate::common::{Literal, SpecLiteral};
use crate::parser::ast;
use super::error::{SemaError, SemaErrorKind, SpecSemaError};
use super::resolve::{outcome, sema_err};
use super::rules::{self, SRes};
use super::symbols::{SpecSymbols, SymbolTable};
use super::tast::{self, exprs_view, lemma_exprs_view, lemma_exprs_view_push};
use super::ty::{bin_op_ty, lemma_tys_view, lemma_tys_view_push, opt_ty_view, tys_view, SpecTy, Ty};

verus! {

/// The state of the analysis: the symbol table.
pub struct Sema {
    pub sym_table: SymbolTable,
}

impl View for Sema {
    type V = SpecSymbols;

    open spec fn view(&self) -> SpecSymbols {
        self.sym_table@
    }
}

/// The outcome of a step, with the table after it, in the terms of the rules.
pub open spec fn outcome_st<T: View>(r: Result<T, SemaError>, st: SpecSymbols) -> SRes<(T::V, SpecSymbols)> {
    match r {
        Ok(v) => Ok((v@, st)),
        Err(e) => Err(e@),
    }
}

pub open spec fn outcome_exprs(r: Result<Vec<tast::Expr>, SemaError>, st: SpecSymbols) -> SRes<
    (Seq<tast::SpecExpr>, SpecSymbols),
> {
    match r {
        Ok(v) => Ok((exprs_view(v@), st)),
        Err(e) => Err(e@),
    }
}

/// The type of a literal.
pub fn lit_ty(l: &Literal) -> (t: Ty)
    ensures
        t@ == rules::lit_ty(l@),
{
    match l {
        Literal::Int(_) => Ty::Int,
        Literal::Float(_) => Ty::Float,
        Literal::Bool(_) => Ty::Bool,
    }
}

/// A copy of a list of types with the same model.
pub fn dup_tys(v: &Vec<Ty>) -> (r: Vec<Ty>)
    ensures
        tys_view(r@) == tys_view(v@),
{
    let mut out: Vec<Ty> = Vec::new();
    proof {
        lemma_tys_view(v@);
    }
    let mut i: usize = 0;
    while i < v.len()
        invariant
            i <= v.len(),
            tys_view(v@).len() == v.len(),
            forall|j: int| 0 <= j < v.len() ==> #[trigger] tys_view(v@)[j] == v@[j]@,
            tys_view(out@) == tys_view(v@).take(i as int),
        decreases v.len() - i,
    {
        let t = v[i].duplicate();
        proof {
            lemma_tys_view_push(out@, t);
            assert(tys_view(v@).take(i + 1) =~= tys_view(v@).take(i as int).push(t@));
        }
        out.push(t);
        i = i + 1;
    }
    assert(tys_view(v@).take(v.len() as int) =~= tys_view(v@));
    out
}

/// The first index where an argument's type differs from the expected one.
pub fn first_mismatch(expected: &Vec<Ty>, args: &Vec<tast::Expr>) -> (r: Option<usize>)
    requires
        expected.len() == args.len(),
    ensures
        match r {
            Some(i) => i < args.len() && rules::first_mismatch(tys_view(expected@), exprs_view(args@), 0)
                == Some(i as int),
            None => rules::first_mismatch(tys_view(expected@), exprs_view(args@), 0) is None,
        },
{
    proof {
        lemma_tys_view(expected@);
        lemma_exprs_view(args@);
    }
    let mut i: usize = 0;
    while i < args.len()
        invariant
            i <= args.len(),
            expected.len() == args.len(),
            tys_view(expected@).len() == expected.len(),
            exprs_view(args@).len() == args.len(),
            forall|j: int| 0 <= j < expected.len() ==> #[trigger] tys_view(expected@)[j] == expected@[j]@,
            forall|j: int| 0 <= j < args.len() ==> #[trigger] exprs_view(args@)[j] == args@[j]@,
            rules::first_mismatch(tys_view(expected@), exprs_view(args@), i as int) == rules::first_mismatch(
                tys_view(expected@),
                exprs_view(args@),
                0,
            ),
        decreases args.len() - i,
    {
        if !expected[i].same(args[i].ty()) {
            return Some(i);
        }
        i = i + 1;
    }
    None
}

impl Sema {
    pub fn new() -> (s: Sema)
        ensures
            s@ == SpecSymbols::empty(),
    {
        Sema { sym_table: SymbolTable::new() }
    }

    /// What a call with checked arguments makes of its callee: a struct
    /// literal when the name is a struct's, else a call of the function of
    /// that name.
    pub fn call_target(&self, callee: &ast::Expr, args: Vec<tast::Expr>) -> (res: Result<tast::Expr, SemaError>)
        ensures
            outcome(res) == rules::call_target(self@, callee@, exprs_view(args@)),
    {
        proof {
            lemma_exprs_view(args@);
        }
        match &callee.kind {
            ast::ExprKind::Identifier(id) => {
                match self.sym_table.lookup_struct(&id.value) {
                    Some(s) => {
                        proof {
                            lemma_tys_view(s.field_tys@);
                        }
                        if args.len() != s.field_tys.len() {
                            return Err(
                                sema_err(
                                    SemaErrorKind::FieldCount {
                                        name: id.value.clone(),
                                        expected: s.field_tys.len(),
                                        got: args.len(),
                                    },
                                    callee.span,
                                ),
                            );
                        }
                        match first_mismatch(&s.field_tys, &args) {
                            Some(i) => {
                                let expected = s.field_tys[i].duplicate();
                                let got = args[i].ty().duplicate();
                                Err(
                                    sema_err(
                                        SemaErrorKind::FieldTypeMismatch { name: id.value.clone(), expected, got },
                                        callee.span,
                                    ),
                                )
                            },
                            None => {
                                let id = s.id;
                                let ty = Ty::Struct(id);
                                assert(ty@ == SpecTy::Struct(id));
                                Ok(tast::Expr::StructLit(tast::StructLit { id, fields: args, ty }))
                            },
                        }
                    },
                    None => match self.sym_table.lookup_func(&id.value) {
                        Some(f) => {
                            proof {
                                lemma_tys_view(f.params_ty@);
                            }
                            if args.len() != f.params_ty.len() {
                                return Err(
                                    sema_err(
                                        SemaErrorKind::ArgCount {
                                            name: id.value.clone(),
                                            expected: f.params_ty.len(),
                                            got: args.len(),
                                        },
                                        callee.span,
                                    ),
                                );
                            }
                            match first_mismatch(&f.params_ty, &args) {
                                Some(i) => {
                                    let expected = f.params_ty[i].duplicate();
                                    let got = args[i].ty().duplicate();
                                    Err(
                                        sema_err(
                                            SemaErrorKind::ArgTypeMismatch { func: id.value.clone(), expected, got },
                                            callee.span,
                                        ),
                                    )
                                },
                                None => {
                                    let ghost fv = f@;
                                    let fty = Ty::Func { params: dup_tys(&f.params_ty), ret: Box::new(f.ret_ty.duplicate()) };
                                    assert(fty@ == SpecTy::Func { params: fv.params_ty, ret: Box::new(fv.ret_ty) });
                                    let fref = tast::Expr::FuncRef(tast::FuncRef { id: f.id, ty: fty });
                                    assert(fref@ == tast::SpecExpr::FuncRef {
                                        id: fv.id,
                                        ty: SpecTy::Func { params: fv.params_ty, ret: Box::new(fv.ret_ty) },
                                    });
                                    let ret = f.ret_ty.duplicate();
                                    Ok(tast::Expr::Call(tast::Call { callee: Box::new(fref), args, ty: ret }))
                                },
                            }
                        },
                        None => Err(sema_err(SemaErrorKind::UnknownFunction { name: id.value.clone() }, id.span)),
                    },
                }
            },
            _ => Err(sema_err(SemaErrorKind::CalleeNotIdentifier, callee.span)),
        }
    }

    #[verifier::loop_isolation(false)]
    pub fn check_expr(&mut self, e: &ast::Expr) -> (res: Result<tast::Expr, SemaError>)
        ensures
            outcome_st(res, final(self)@) == rules::check_expr(old(self)@, e@),
        decreases e, 0int,
    {
        match &e.kind {
            ast::ExprKind::Literal(l) => {
                let ty = lit_ty(l);
                Ok(tast::Expr::Literal(l.duplicate(), ty))
            },
            ast::ExprKind::Block(b) => match self.check_block(b) {
                Ok(tb) => Ok(tast::Expr::Block(tb)),
                Err(x) => Err(x),
            },
            ast::ExprKind::Identifier(id) => match self.sym_table.lookup_var(&id.value) {
                Some(v) => Ok(tast::Expr::VarRef(tast::VarRef { id: v.id, ty: v.ty.duplicate() })),
                None => Err(sema_err(SemaErrorKind::UnknownVariable { name: id.value.clone() }, id.span)),
            },
            ast::ExprKind::BinaryOp(b) => {
                let l = match self.check_expr(&*b.left) {
                    Ok(l) => l,
                    Err(x) => return Err(x),
                };
                let r = match self.check_expr(&*b.right) {
                    Ok(r) => r,
                    Err(x) => return Err(x),
                };
                match bin_op_ty(b.op, l.ty(), r.ty()) {
                    Some(ty) => Ok(tast::Expr::BinaryOp(tast::BinaryOp { op: b.op, left: Box::new(l), right: Box::new(r), ty })),
                    None => {
                        let left = l.ty().duplicate();
                        let right = r.ty().duplicate();
                        Err(sema_err(SemaErrorKind::InvalidBinaryOp { op: b.op, left, right }, b.left.span))
                    },
                }
            },
            ast::ExprKind::Call(c) => {
                let ghost av = ast::exprs_view(c.args@);
                let ghost st0 = self@;
                proof {
                    ast::lemma_exprs_view(c.args@);
                }
                let mut args: Vec<tast::Expr> = Vec::new();
                assert(exprs_view(args@) =~= Seq::<tast::SpecExpr>::empty());
                let mut i: usize = 0;
                while i < c.args.len()
                    invariant
                        i <= c.args.len(),
                        av == ast::exprs_view(c.args@),
                        av.len() == c.args.len(),
                        forall|j: int| 0 <= j < c.args.len() ==> #[trigger] av[j] == c.args@[j]@,
                        rules::check_args(self@, av, i as int, exprs_view(args@)) == rules::check_args(
                            st0,
                            av,
                            0,
                            Seq::empty(),
                        ),
                    decreases c.args.len() - i,
                {
                    assert(decreases_to!(*e => e.kind));
                    assert(decreases_to!(e.kind => *c));
                    assert(decreases_to!(*c => c.args));
                    assert(decreases_to!(c.args => c.args@));
                    assert(decreases_to!(c.args@ => c.args@[i as int]));
                    match self.check_expr(&c.args[i]) {
                        Ok(x) => {
                            proof {
                                lemma_exprs_view_push(args@, x);
                            }
                            args.push(x);
                        },
                        Err(x) => {
                            return Err(x);
                        },
                    }
                    i = i + 1;
                }
                self.call_target(&*c.callee, args)
            },
            _ => Err(sema_err(SemaErrorKind::UnsupportedExpression, e.span)),
        }
    }

    /// A condition: an expression of type `Bool`.
    pub fn check_condition(&mut self, e: &ast::Expr) -> (res: Result<tast::Expr, SemaError>)
        ensures
            outcome_st(res, final(self)@) == rules::check_condition(old(self)@, e@),
        decreases e, 1int,
    {
        let c = match self.check_expr(e) {
            Ok(c) => c,
            Err(x) => return Err(x),
        };
        let b = Ty::Bool;
        assert(b@ == SpecTy::Bool);
        if !c.ty().same(&b) {
            let got = c.ty().duplicate();
            return Err(sema_err(SemaErrorKind::ConditionNotBool { got }, e.span));
        }
        Ok(c)
    }
}

} // verus!
