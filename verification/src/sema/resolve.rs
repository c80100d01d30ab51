//! Type resolution and declarations in the symbol table.
use vstd::prelude::*;
use crate::parser::ast;
use super::error::{SemaError, SemaErrorKind};
use super::rules::{self, SRes};
use super::symbols::{
    field_map_contains, field_map_insert, field_map_keys, field_map_new, is_pascal_case, is_snake_case, text_is,
    StructSymbol, SymbolTable, FuncSymbol, structs_view, funcs_view,
};
use super::tast::{self, FuncId, VarId};
use super::ty::{lemma_tys_view, lemma_tys_view_push, tys_view, SpecTy, StructId, Ty};

verus! {

/// The outcome of a step in the terms of the rules.
pub open spec fn outcome<T: View>(r: Result<T, SemaError>) -> SRes<T::V> {
    match r {
        Ok(v) => Ok(v@),
        Err(e) => Err(e@),
    }
}

pub open spec fn outcome_tys(r: Result<Vec<Ty>, SemaError>) -> SRes<Seq<SpecTy>> {
    match r {
        Ok(v) => Ok(tys_view(v@)),
        Err(e) => Err(e@),
    }
}

pub fn sema_err(kind: SemaErrorKind, span: crate::common::span::Span) -> (e: SemaError)
    ensures
        e@ == (super::error::SpecSemaError { kind: kind@, span }),
{
    SemaError { kind, span }
}

impl SymbolTable {
    /// The type that a written type names.
    #[verifier::loop_isolation(false)]
    pub fn resolve_ty(&self, ty: &ast::Ty) -> (res: Result<Ty, SemaError>)
        ensures
            outcome(res) == rules::resolve_ty(self@, ty@),
        decreases ty,
    {
        match ty {
            ast::Ty::Named { name } => {
                if text_is(&name.value, &['I', 'n', 't']) {
                    assert(name.value@ == rules::int_name());
                    Ok(Ty::Int)
                } else if text_is(&name.value, &['F', 'l', 'o', 'a', 't']) {
                    Ok(Ty::Float)
                } else if text_is(&name.value, &['B', 'o', 'o', 'l']) {
                    Ok(Ty::Bool)
                } else {
                    assert(name.value@ != rules::int_name());
                    assert(name.value@ != rules::float_name());
                    assert(name.value@ != rules::bool_name());
                    match self.lookup_struct_id(&name.value) {
                        Some(id) => Ok(Ty::Struct(id)),
                        None => Err(sema_err(SemaErrorKind::UnknownType { name: name.value.clone() }, name.span)),
                    }
                }
            },
            ast::Ty::Array(inner) => {
                match self.resolve_ty(&**inner) {
                    Ok(t) => Ok(Ty::Array(Box::new(t))),
                    Err(e) => Err(e),
                }
            },
            ast::Ty::Func { params, ret } => {
                let ghost pv = ast::tys_view(params@);
                proof {
                    ast::lemma_tys_view(params@);
                }
                let mut ps: Vec<Ty> = Vec::new();
                let mut i: usize = 0;
                assert(tys_view(ps@) =~= Seq::<SpecTy>::empty());
                while i < params.len()
                    invariant
                        i <= params.len(),
                        pv.len() == params.len(),
                        forall|j: int| 0 <= j < params.len() ==> #[trigger] pv[j] == params@[j]@,
                        rules::resolve_tys(self@, pv, i as int, tys_view(ps@)) == rules::resolve_tys(
                            self@,
                            pv,
                            0,
                            Seq::empty(),
                        ),
                    decreases params.len() - i,
                {
                    assert(decreases_to!(*ty => *params));
                    assert(decreases_to!(*params => params@));
                    assert(decreases_to!(params@ => params@[i as int]));
                    match self.resolve_ty(&params[i]) {
                        Ok(t) => {
                            proof {
                                lemma_tys_view_push(ps@, t);
                            }
                            ps.push(t);
                        },
                        Err(e) => {
                            return Err(e);
                        },
                    }
                    i = i + 1;
                }
                assert(rules::resolve_tys(self@, pv, params.len() as int, tys_view(ps@)) == Ok::<Seq<SpecTy>, super::error::SpecSemaError>(tys_view(ps@)));
                let ghost psv = tys_view(ps@);
                let res = match ret {
                    Some(r) => match self.resolve_ty(&**r) {
                        Ok(rt) => {
                            let ghost rtv = rt@;
                            let out = Ty::Func { params: ps, ret: Box::new(rt) };
                            assert(out@ == SpecTy::Func { params: psv, ret: Box::new(rtv) });
                            Ok(out)
                        },
                        Err(e) => Err(e),
                    },
                    None => {
                        let void = Ty::Void;
                        assert(void@ == SpecTy::Void);
                        let out = Ty::Func { params: ps, ret: Box::new(void) };
                        assert(out@ == SpecTy::Func { params: psv, ret: Box::new(SpecTy::Void) });
                        Ok(out)
                    },
                };
                res
            },
        }
    }
}

impl SymbolTable {
    /// The parameter types of a signature; a parameter written without a type gets `Infer`.
    pub fn resolve_params_ty(&self, params: &Vec<ast::Param>) -> (res: Result<Vec<Ty>, SemaError>)
        ensures
            outcome_tys(res) == rules::resolve_params(self@, ast::params_view(params@), 0, Seq::empty()),
    {
        let ghost pv = ast::params_view(params@);
        let mut ps: Vec<Ty> = Vec::new();
        assert(tys_view(ps@) =~= Seq::<SpecTy>::empty());
        let mut i: usize = 0;
        while i < params.len()
            invariant
                i <= params.len(),
                pv == ast::params_view(params@),
                rules::resolve_params(self@, pv, i as int, tys_view(ps@)) == rules::resolve_params(
                    self@,
                    pv,
                    0,
                    Seq::empty(),
                ),
            decreases params.len() - i,
        {
            assert(pv[i as int] == params@[i as int]@);
            match &params[i].ty {
                Some(t) => match self.resolve_ty(t) {
                    Ok(r) => {
                        proof {
                            lemma_tys_view_push(ps@, r);
                        }
                        ps.push(r);
                    },
                    Err(e) => {
                        return Err(e);
                    },
                },
                None => {
                    let r = Ty::Infer;
                    assert(r@ == SpecTy::Infer);
                    proof {
                        lemma_tys_view_push(ps@, r);
                    }
                    ps.push(r);
                },
            }
            i = i + 1;
        }
        Ok(ps)
    }

    fn resolve_ret(&self, ret: &Option<ast::Ty>) -> (res: Result<Ty, SemaError>)
        ensures
            outcome(res) == rules::resolve_ret(self@, ast::opt_ty_view(*ret)),
    {
        match ret {
            Some(t) => self.resolve_ty(t),
            None => {
                let r = Ty::Void;
                assert(r@ == SpecTy::Void);
                Ok(r)
            },
        }
    }

    /// Pass 1: a struct name enters the table.
    pub fn define_struct(&mut self, name: &ast::Identifier) -> (res: Result<StructId, SemaError>)
        ensures
            match res {
                Ok(id) => rules::define_struct(old(self)@, name@) == Ok::<_, super::error::SpecSemaError>(final(self)@),
                Err(e) => rules::define_struct(old(self)@, name@) == Err::<super::symbols::SpecSymbols, _>(e@)
                    && final(self)@ == old(self)@,
            },
    {
        if !is_pascal_case(name.value.as_str()) {
            return Err(sema_err(SemaErrorKind::StructNotPascalCase { name: name.value.clone() }, name.span));
        }
        if self.lookup_struct_id(&name.value).is_some() {
            return Err(sema_err(SemaErrorKind::StructAlreadyDefined { name: name.value.clone() }, name.span));
        }
        let id = StructId(self.structs.len() as u32);
        let sym = StructSymbol {
            name: name.value.clone(),
            id,
            fields: field_map_new(),
            field_tys: Vec::new(),
            defined: false,
        };
        assert(tys_view(sym.field_tys@) =~= Seq::<SpecTy>::empty());
        let ghost old_structs = self.structs@;
        self.structs.push(sym);
        assert(structs_view(self.structs@) =~= structs_view(old_structs).push(sym@));
        Ok(id)
    }

    /// Pass 2: a function signature enters the table.
    pub fn define_func(&mut self, name: &ast::Identifier, params: &Vec<ast::Param>, ret: &Option<ast::Ty>) -> (res: Result<(), SemaError>)
        ensures
            match res {
                Ok(_) => rules::define_func(old(self)@, name@, ast::params_view(params@), ast::opt_ty_view(*ret))
                    == Ok::<_, super::error::SpecSemaError>(final(self)@),
                Err(e) => rules::define_func(old(self)@, name@, ast::params_view(params@), ast::opt_ty_view(*ret))
                    == Err::<super::symbols::SpecSymbols, _>(e@) && final(self)@ == old(self)@,
            },
    {
        if !is_snake_case(name.value.as_str()) {
            return Err(sema_err(SemaErrorKind::FuncNotSnakeCase { name: name.value.clone() }, name.span));
        }
        let params_ty = match self.resolve_params_ty(params) {
            Ok(p) => p,
            Err(e) => return Err(e),
        };
        let ret_ty = match self.resolve_ret(ret) {
            Ok(r) => r,
            Err(e) => return Err(e),
        };
        if self.lookup_func(&name.value).is_some() {
            return Err(sema_err(SemaErrorKind::FuncAlreadyDefined { name: name.value.clone() }, name.span));
        }
        let id = FuncId(self.funcs.len() as u32);
        let sym = FuncSymbol { name: name.value.clone(), id, params_ty, ret_ty };
        let ghost old_funcs = self.funcs@;
        self.funcs.push(sym);
        assert(funcs_view(self.funcs@) =~= funcs_view(old_funcs).push(sym@));
        Ok(())
    }

    /// Pass 2: the fields of a declared struct are resolved, in order.
    pub fn define_struct_fields(&mut self, s: &ast::Struct) -> (res: Result<StructId, SemaError>)
        ensures
            match res {
                Ok(_) => rules::define_struct_fields(old(self)@, s@) == Ok::<_, super::error::SpecSemaError>(final(self)@),
                Err(e) => rules::define_struct_fields(old(self)@, s@) == Err::<super::symbols::SpecSymbols, _>(e@)
                    && final(self)@ == old(self)@,
            },
    {
        let idx = match self.struct_index(&s.name.value) {
            Some(i) => i,
            None => {
                return Err(sema_err(SemaErrorKind::StructNotDeclared { name: s.name.value.clone() }, s.name.span));
            },
        };
        let ghost fv = ast::fields_view(s.fields@);
        let mut map = field_map_new();
        let mut tys: Vec<Ty> = Vec::new();
        assert(tys_view(tys@) =~= Seq::<SpecTy>::empty());
        let mut i: usize = 0;
        while i < s.fields.len()
            invariant
                i <= s.fields.len(),
                fv == ast::fields_view(s.fields@),
                idx < self.structs.len(),
                super::symbols::find_struct(self@.structs, s.name.value@, 0) == Some(idx as int),
                rules::resolve_fields(self@, fv, i as int, field_map_keys(map), tys_view(tys@))
                    == rules::resolve_fields(self@, fv, 0, Seq::empty(), Seq::empty()),
            decreases s.fields.len() - i,
        {
            let f = &s.fields[i];
            assert(fv[i as int] == f@);
            if field_map_contains(&map, &f.name.value) {
                return Err(sema_err(SemaErrorKind::FieldAlreadyDefined { name: f.name.value.clone() }, f.name.span));
            }
            let t = match self.resolve_ty(&f.ty) {
                Ok(t) => t,
                Err(e) => return Err(e),
            };
            field_map_insert(&mut map, f.name.value.clone(), i);
            proof {
                lemma_tys_view_push(tys@, t);
            }
            tys.push(t);
            i = i + 1;
        }
        let id = self.structs[idx].id;
        let sym = StructSymbol { name: self.structs[idx].name.clone(), id, fields: map, field_tys: tys, defined: true };
        let ghost old_structs = self.structs@;
        self.structs[idx] = sym;
        assert(structs_view(self.structs@) =~= structs_view(old_structs).update(idx as int, sym@));
        Ok(id)
    }

    /// A variable enters the innermost scope with the next id.
    pub fn define_var(&mut self, name: &ast::Identifier, ty: Ty) -> (res: Result<VarId, SemaError>)
        ensures
            match res {
                Ok(id) => rules::define_var(old(self)@, name@, ty@) == Ok::<_, super::error::SpecSemaError>((id, final(self)@)),
                Err(e) => rules::define_var(old(self)@, name@, ty@) == Err::<(VarId, super::symbols::SpecSymbols), _>(e@)
                    && final(self)@ == old(self)@,
            },
    {
        if !is_snake_case(name.value.as_str()) {
            return Err(sema_err(SemaErrorKind::VarNotSnakeCase { name: name.value.clone() }, name.span));
        }
        if self.var_in_innermost(&name.value) {
            return Err(sema_err(SemaErrorKind::VarAlreadyDefined { name: name.value.clone() }, name.span));
        }
        Ok(self.add_var(name.value.clone(), ty))
    }
}

} // verus!
