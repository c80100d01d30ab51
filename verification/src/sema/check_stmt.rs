//! The checking of blocks, statements and declarations.
use vstd::prelude::*;
use crate::parser::ast;
use super::check::{dup_tys, outcome_st, Sema};
use super::error::{SemaError, SemaErrorKind, SpecSemaError};
use super::resolve::sema_err;
use super::rules::{self, SRes};
use super::symbols::SpecSymbols;
use super::tast::{
    self, elifs_view, lemma_elifs_view, lemma_elifs_view_push, lemma_stmts_view, lemma_stmts_view_push,
    params_view, fields_view, stmts_view, StructFieldId,
};
use super::ty::{lemma_tys_view, tys_view, SpecTy, Ty};

verus! {

pub open spec fn outcome_stmts(r: Result<Vec<tast::Stmt>, SemaError>, st: SpecSymbols) -> SRes<
    (Seq<tast::SpecStmt>, SpecSymbols),
> {
    match r {
        Ok(v) => Ok((stmts_view(v@), st)),
        Err(e) => Err(e@),
    }
}

/// The type of a block with these statements.
pub fn block_ty(stmts: &Vec<tast::Stmt>) -> (t: Ty)
    ensures
        t@ == rules::block_ty(stmts_view(stmts@)),
{
    proof {
        lemma_stmts_view(stmts@);
    }
    if stmts.len() > 0 {
        match &stmts[stmts.len() - 1] {
            tast::Stmt::Expr(e) => e.ty().duplicate(),
            _ => Ty::Void,
        }
    } else {
        Ty::Void
    }
}

pub open spec fn outcome_elifs(r: Result<Vec<tast::Elif>, SemaError>, st: SpecSymbols) -> SRes<
    (Seq<tast::SpecElif>, SpecSymbols),
> {
    match r {
        Ok(v) => Ok((elifs_view(v@), st)),
        Err(e) => Err(e@),
    }
}

impl tast::Stmt {
    /// Whether control always leaves this statement through a `return`.
    #[verifier::loop_isolation(false)]
    pub fn always_returns(&self) -> (b: bool)
        ensures
            b == rules::stmt_always_returns(self@),
        decreases self, 0int,
    {
        match self {
            tast::Stmt::Return(_) => true,
            tast::Stmt::Block(block) => block.always_returns(),
            tast::Stmt::If(if_stmt) => {
                match &if_stmt.else_block {
                    None => false,
                    Some(else_block) => {
                        if !if_stmt.then_block.always_returns() {
                            return false;
                        }
                        proof {
                            lemma_elifs_view(if_stmt.elifs@);
                        }
                        let ghost ev = elifs_view(if_stmt.elifs@);
                        let mut i: usize = 0;
                        while i < if_stmt.elifs.len()
                            invariant
                                i <= if_stmt.elifs.len(),
                                rules::elifs_always_return(ev, i as int) == rules::elifs_always_return(ev, 0),
                            decreases if_stmt.elifs.len() - i,
                        {
                            assert(decreases_to!(*self => *if_stmt));
                            assert(decreases_to!(*if_stmt => if_stmt.elifs));
                            assert(decreases_to!(if_stmt.elifs => if_stmt.elifs@));
                            assert(decreases_to!(if_stmt.elifs@ => if_stmt.elifs@[i as int]));
                            if !if_stmt.elifs[i].then_block.always_returns() {
                                return false;
                            }
                            i = i + 1;
                        }
                        else_block.always_returns()
                    },
                }
            },
            _ => false,
        }
    }
}

impl tast::Block {
    /// Whether control always leaves this block through a `return`.
    #[verifier::loop_isolation(false)]
    pub fn always_returns(&self) -> (b: bool)
        ensures
            b == rules::block_always_returns(self@),
        decreases self, 0int,
    {
        proof {
            lemma_stmts_view(self.stmts@);
        }
        let ghost sv = stmts_view(self.stmts@);
        let mut i: usize = 0;
        while i < self.stmts.len()
            invariant
                i <= self.stmts.len(),
                rules::stmts_any_returns(sv, i as int) == rules::stmts_any_returns(sv, 0),
            decreases self.stmts.len() - i,
        {
            assert(decreases_to!(*self => self.stmts));
            assert(decreases_to!(self.stmts => self.stmts@));
            assert(decreases_to!(self.stmts@ => self.stmts@[i as int]));
            if self.stmts[i].always_returns() {
                return true;
            }
            i = i + 1;
        }
        false
    }
}

impl Sema {
    #[verifier::loop_isolation(false)]
    pub fn check_block(&mut self, b: &ast::Block) -> (res: Result<tast::Block, SemaError>)
        ensures
            outcome_st(res, final(self)@) == rules::check_block(old(self)@, b@),
        decreases b, 0int,
    {
        self.sym_table.enter_scope();
        let ghost st0 = self@;
        let ghost sv = ast::stmts_view(b.stmts@);
        proof {
            ast::lemma_stmts_view(b.stmts@);
        }
        let mut stmts: Vec<tast::Stmt> = Vec::new();
        assert(stmts_view(stmts@) =~= Seq::<tast::SpecStmt>::empty());
        let mut i: usize = 0;
        while i < b.stmts.len()
            invariant
                i <= b.stmts.len(),
                sv.len() == b.stmts.len(),
                forall|j: int| 0 <= j < b.stmts.len() ==> #[trigger] sv[j] == b.stmts@[j]@,
                rules::check_stmts(self@, sv, i as int, stmts_view(stmts@)) == rules::check_stmts(
                    st0,
                    sv,
                    0,
                    Seq::empty(),
                ),
            decreases b.stmts.len() - i,
        {
            assert(decreases_to!(*b => b.stmts));
            assert(decreases_to!(b.stmts => b.stmts@));
            assert(decreases_to!(b.stmts@ => b.stmts@[i as int]));
            match self.check_stmt(&b.stmts[i]) {
                Ok(x) => {
                    proof {
                        lemma_stmts_view_push(stmts@, x);
                    }
                    stmts.push(x);
                },
                Err(x) => {
                    return Err(x);
                },
            }
            i = i + 1;
        }
        self.sym_table.exit_scope();
        let ty = block_ty(&stmts);
        Ok(tast::Block { stmts, ty })
    }

    pub fn check_stmt(&mut self, s: &ast::Stmt) -> (res: Result<tast::Stmt, SemaError>)
        ensures
            outcome_st(res, final(self)@) == rules::check_stmt(old(self)@, s@),
        decreases s, 0int,
    {
        match s {
            ast::Stmt::ExternFunc(f) => self.check_extern(f),
            ast::Stmt::Func(f) => self.check_func_decl(f),
            ast::Stmt::Struct(x) => self.check_struct_decl(x),
            ast::Stmt::Enum(x) => Err(sema_err(SemaErrorKind::NotImplemented, x.name.span)),
            ast::Stmt::Let(l) => self.check_let(l),
            ast::Stmt::Return(r) => self.check_return(r),
            ast::Stmt::If(i) => self.check_if(i),
            ast::Stmt::Block(b) => match self.check_block(b) {
                Ok(tb) => Ok(tast::Stmt::Block(tb)),
                Err(x) => Err(x),
            },
            ast::Stmt::Assign(a) => self.check_assign(a),
            ast::Stmt::Expr(e) => match self.check_expr(e) {
                Ok(te) => Ok(tast::Stmt::Expr(te)),
                Err(x) => Err(x),
            },
        }
    }

    pub fn check_let(&mut self, l: &ast::Let) -> (res: Result<tast::Stmt, SemaError>)
        ensures
            outcome_st(res, final(self)@) == rules::check_let(old(self)@, l@),
        decreases l, 0int,
    {
        let v = match self.check_expr(&l.value) {
            Ok(v) => v,
            Err(x) => return Err(x),
        };
        let ty = match &l.annot_ty {
            Some(a) => {
                let at = match self.sym_table.resolve_ty(a) {
                    Ok(t) => t,
                    Err(x) => return Err(x),
                };
                if !at.same(v.ty()) {
                    let got = v.ty().duplicate();
                    return Err(
                        sema_err(SemaErrorKind::LetTypeMismatch { var: l.name.value.clone(), expected: at, got }, l.name.span),
                    );
                }
                at
            },
            None => v.ty().duplicate(),
        };
        let id = match self.sym_table.define_var(&l.name, ty.duplicate()) {
            Ok(id) => id,
            Err(x) => return Err(x),
        };
        let void = Ty::Void;
        assert(void@ == SpecTy::Void);
        Ok(tast::Stmt::Local(tast::Local { id, value: v, value_ty: ty, ty: void }))
    }

    pub fn check_return(&mut self, r: &ast::Return) -> (res: Result<tast::Stmt, SemaError>)
        ensures
            outcome_st(res, final(self)@) == rules::check_return(old(self)@, r@),
        decreases r, 0int,
    {
        let void = Ty::Void;
        assert(void@ == SpecTy::Void);
        match &r.value {
            Some(e) => {
                let v = match self.check_expr(e) {
                    Ok(v) => v,
                    Err(x) => return Err(x),
                };
                if !v.ty().same(self.sym_table.cur_ret_ty()) {
                    let expected = self.sym_table.cur_ret_ty().duplicate();
                    let got = v.ty().duplicate();
                    return Err(sema_err(SemaErrorKind::ReturnValueMismatch { expected, got }, r.span));
                }
                Ok(tast::Stmt::Return(tast::Return { value: Some(v), ty: void }))
            },
            None => {
                if !void.same(self.sym_table.cur_ret_ty()) {
                    let expected = self.sym_table.cur_ret_ty().duplicate();
                    return Err(sema_err(SemaErrorKind::ReturnValueMismatch { expected, got: void }, r.span));
                }
                Ok(tast::Stmt::Return(tast::Return { value: None, ty: void }))
            },
        }
    }

    pub fn check_elif(&mut self, elif: &ast::Elif) -> (res: Result<tast::Elif, SemaError>)
        ensures
            outcome_st(res, final(self)@) == rules::check_elif(old(self)@, elif@),
        decreases elif, 0int,
    {
        let c = match self.check_condition(&elif.condition) {
            Ok(c) => c,
            Err(x) => return Err(x),
        };
        let b = match self.check_block(&elif.then_block) {
            Ok(b) => b,
            Err(x) => return Err(x),
        };
        Ok(tast::Elif { condition: c, then_block: b })
    }

    #[verifier::loop_isolation(false)]
    pub fn check_elifs(&mut self, es: &Vec<ast::Elif>) -> (res: Result<Vec<tast::Elif>, SemaError>)
        ensures
            outcome_elifs(res, final(self)@) == rules::check_elifs(old(self)@, ast::elifs_view(es@), 0, Seq::empty()),
        decreases es, 0int,
    {
        let ghost st0 = self@;
        let ghost ev = ast::elifs_view(es@);
        proof {
            ast::lemma_elifs_view(es@);
        }
        let mut elifs: Vec<tast::Elif> = Vec::new();
        assert(elifs_view(elifs@) =~= Seq::<tast::SpecElif>::empty());
        let mut k: usize = 0;
        while k < es.len()
            invariant
                k <= es.len(),
                ev.len() == es.len(),
                forall|j: int| 0 <= j < es.len() ==> #[trigger] ev[j] == es@[j]@,
                rules::check_elifs(self@, ev, k as int, elifs_view(elifs@)) == rules::check_elifs(
                    st0,
                    ev,
                    0,
                    Seq::empty(),
                ),
            decreases es.len() - k,
        {
            assert(decreases_to!(*es => es@));
            assert(decreases_to!(es@ => es@[k as int]));
            let e = match self.check_elif(&es[k]) {
                Ok(e) => e,
                Err(x) => return Err(x),
            };
            proof {
                lemma_elifs_view_push(elifs@, e);
            }
            elifs.push(e);
            k = k + 1;
        }
        Ok(elifs)
    }

    pub fn check_if(&mut self, i: &ast::If) -> (res: Result<tast::Stmt, SemaError>)
        ensures
            outcome_st(res, final(self)@) == rules::check_if(old(self)@, i@),
        decreases i, 0int,
    {
        let condition = match self.check_condition(&i.condition) {
            Ok(c) => c,
            Err(x) => return Err(x),
        };
        let then_block = match self.check_block(&i.then_block) {
            Ok(b) => b,
            Err(x) => return Err(x),
        };
        let elifs = match self.check_elifs(&i.elifs) {
            Ok(es) => es,
            Err(x) => return Err(x),
        };
        let else_block = match &i.else_block {
            Some(b) => match self.check_block(b) {
                Ok(tb) => Some(tb),
                Err(x) => return Err(x),
            },
            None => None,
        };
        let void = Ty::Void;
        assert(void@ == SpecTy::Void);
        Ok(tast::Stmt::If(tast::If { condition, then_block, elifs, else_block, ty: void }))
    }

    pub fn check_assign(&mut self, a: &ast::Assign) -> (res: Result<tast::Stmt, SemaError>)
        ensures
            outcome_st(res, final(self)@) == rules::check_assign(old(self)@, a@),
        decreases a, 0int,
    {
        match &a.target.kind {
            ast::ExprKind::Identifier(t) => {
                let (id, vty) = match self.sym_table.lookup_var(&t.value) {
                    Some(v) => (v.id, v.ty.duplicate()),
                    None => {
                        return Err(sema_err(SemaErrorKind::UnknownVariable { name: t.value.clone() }, t.span));
                    },
                };
                let value = match self.check_expr(&a.value) {
                    Ok(v) => v,
                    Err(x) => return Err(x),
                };
                if !vty.same(value.ty()) {
                    let got = value.ty().duplicate();
                    return Err(
                        sema_err(SemaErrorKind::AssignTypeMismatch { var: t.value.clone(), expected: vty, got }, t.span),
                    );
                }
                let void = Ty::Void;
                assert(void@ == SpecTy::Void);
                Ok(tast::Stmt::Assign(tast::Assign { id, value, ty: void }))
            },
            _ => Err(sema_err(SemaErrorKind::InvalidAssignTarget, a.target.span)),
        }
    }

    #[verifier::loop_isolation(false)]
    pub fn check_func_decl(&mut self, f: &ast::Func) -> (res: Result<tast::Stmt, SemaError>)
        ensures
            outcome_st(res, final(self)@) == rules::check_func_decl(old(self)@, f@),
        decreases f, 0int,
    {
        let (id, params_ty, ret_ty) = match self.sym_table.lookup_func(&f.name.value) {
            Some(sym) => (sym.id, dup_tys(&sym.params_ty), sym.ret_ty.duplicate()),
            None => {
                return Err(sema_err(SemaErrorKind::FuncNotDeclared { name: f.name.value.clone() }, f.name.span));
            },
        };
        self.sym_table.enter_func(ret_ty.duplicate());
        let ghost st1 = self@;
        let ghost pv = ast::params_view(f.params@);
        let ghost tv = tys_view(params_ty@);
        proof {
            lemma_tys_view(params_ty@);
        }
        let mut params: Vec<tast::Param> = Vec::new();
        assert(params_view(params@) =~= Seq::<tast::SpecParam>::empty());
        let mut k: usize = 0;
        while k < f.params.len() && k < params_ty.len()
            invariant
                k <= f.params.len(),
                k <= params_ty.len(),
                pv == ast::params_view(f.params@),
                tv == tys_view(params_ty@),
                tv.len() == params_ty.len(),
                forall|j: int| 0 <= j < params_ty.len() ==> #[trigger] tv[j] == params_ty@[j]@,
                rules::define_params(self@, pv, tv, k as int, params_view(params@)) == rules::define_params(
                    st1,
                    pv,
                    tv,
                    0,
                    Seq::empty(),
                ),
            decreases f.params.len() - k,
        {
            let pid = match self.sym_table.define_var(&f.params[k].name, params_ty[k].duplicate()) {
                Ok(pid) => pid,
                Err(x) => return Err(x),
            };
            let p = tast::Param { id: pid, ty: params_ty[k].duplicate() };
            let ghost old_params = params@;
            params.push(p);
            assert(params_view(params@) =~= params_view(old_params).push(p@));
            k = k + 1;
        }
        assert(decreases_to!(*f => f.body));
        let body = match self.check_block(&f.body) {
            Ok(b) => b,
            Err(x) => return Err(x),
        };
        self.sym_table.exit_func();
        if !body.always_returns() && !body.ty.same(&ret_ty) {
            let got = body.ty.duplicate();
            return Err(
                sema_err(
                    SemaErrorKind::ReturnTypeMismatch { func: f.name.value.clone(), expected: ret_ty, got },
                    f.body.span,
                ),
            );
        }
        Ok(tast::Stmt::Func(tast::Func { id, params, ret_ty, body }))
    }

    pub fn check_extern(&self, f: &ast::ExternFunc) -> (res: Result<tast::Stmt, SemaError>)
        ensures
            outcome_st(res, self@) == rules::check_extern(self@, f@),
    {
        match self.sym_table.lookup_func(&f.name.value) {
            Some(sym) => Ok(
                tast::Stmt::ExternFunc(
                    tast::ExternFunc {
                        id: sym.id,
                        module: f.module.value.clone(),
                        symbol: f.symbol.value.clone(),
                        params_ty: dup_tys(&sym.params_ty),
                        ret_ty: sym.ret_ty.duplicate(),
                    },
                ),
            ),
            None => Err(sema_err(SemaErrorKind::FuncNotDeclared { name: f.name.value.clone() }, f.name.span)),
        }
    }

    pub fn check_struct_decl(&self, s: &ast::Struct) -> (res: Result<tast::Stmt, SemaError>)
        ensures
            outcome_st(res, self@) == rules::check_struct_decl(self@, s@),
    {
        match self.sym_table.lookup_struct(&s.name.value) {
            Some(sym) => {
                proof {
                    lemma_tys_view(sym.field_tys@);
                }
                let mut fields: Vec<tast::StructField> = Vec::new();
                let mut i: usize = 0;
                while i < sym.field_tys.len()
                    invariant
                        i <= sym.field_tys.len(),
                        tys_view(sym.field_tys@).len() == sym.field_tys.len(),
                        forall|j: int| 0 <= j < sym.field_tys.len() ==> #[trigger] tys_view(sym.field_tys@)[j] == sym.field_tys@[j]@,
                        fields_view(fields@) =~= rules::struct_fields(tys_view(sym.field_tys@)).take(i as int),
                    decreases sym.field_tys.len() - i,
                {
                    let fid = StructFieldId(i as u32);
                    let f = tast::StructField { id: fid, ty: sym.field_tys[i].duplicate() };
                    let ghost old_fields = fields@;
                    fields.push(f);
                    assert(fields_view(fields@) =~= fields_view(old_fields).push(f@));
                    assert(rules::struct_fields(tys_view(sym.field_tys@)).take(i + 1) =~= rules::struct_fields(
                        tys_view(sym.field_tys@),
                    ).take(i as int).push(f@));
                    i = i + 1;
                }
                assert(rules::struct_fields(tys_view(sym.field_tys@)).take(sym.field_tys.len() as int)
                    =~= rules::struct_fields(tys_view(sym.field_tys@)));
                let void = Ty::Void;
                assert(void@ == SpecTy::Void);
                Ok(tast::Stmt::Struct(tast::Struct { id: sym.id, fields, ty: void }))
            },
            None => Err(sema_err(SemaErrorKind::StructNotDeclared { name: s.name.value.clone() }, s.name.span)),
        }
    }
}

} // verus!
