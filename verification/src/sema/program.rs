//! The three passes over the top level of a program.
use vstd::prelude::*;
use crate::parser::ast;
use super::check::Sema;
use super::check_stmt;
use super::error::{SemaError, SemaErrorKind, SpecSemaError};
use super::resolve::{outcome, sema_err};
use super::rules;
use super::symbols::SpecSymbols;
use super::tast;

verus! {

impl Sema {
    /// Pass 1: the structs are declared, and statements that cannot stand at
    /// the top level are refused.
    #[verifier::loop_isolation(false)]
    pub fn declare_structs(&mut self, stmts: &Vec<ast::Stmt>) -> (res: Result<(), SemaError>)
        ensures
            match res {
                Ok(_) => rules::pass1(old(self)@, ast::stmts_view(stmts@), 0) == Ok::<_, SpecSemaError>(final(self)@),
                Err(e) => rules::pass1(old(self)@, ast::stmts_view(stmts@), 0) == Err::<SpecSymbols, _>(e@),
            },
    {
        let ghost sv = ast::stmts_view(stmts@);
        let ghost st0 = self@;
        proof {
            ast::lemma_stmts_view(stmts@);
        }
        let mut i: usize = 0;
        while i < stmts.len()
            invariant
                i <= stmts.len(),
                sv.len() == stmts.len(),
                forall|j: int| 0 <= j < stmts.len() ==> #[trigger] sv[j] == stmts@[j]@,
                rules::pass1(self@, sv, i as int) == rules::pass1(st0, sv, 0),
            decreases stmts.len() - i,
        {
            let r = match &stmts[i] {
                ast::Stmt::ExternFunc(_) | ast::Stmt::Func(_) => Ok(()),
                ast::Stmt::Struct(s) => match self.sym_table.define_struct(&s.name) {
                    Ok(_) => Ok(()),
                    Err(e) => Err(e),
                },
                ast::Stmt::Enum(x) => Err(sema_err(SemaErrorKind::NotImplemented, x.name.span)),
                ast::Stmt::Let(x) => Err(sema_err(SemaErrorKind::TopLevelLet, x.name.span)),
                ast::Stmt::Return(x) => Err(sema_err(SemaErrorKind::TopLevelReturn, x.span)),
                ast::Stmt::If(x) => Err(sema_err(SemaErrorKind::TopLevelIf, x.condition.span)),
                ast::Stmt::Block(x) => Err(sema_err(SemaErrorKind::TopLevelBlock, x.span)),
                ast::Stmt::Assign(x) => Err(sema_err(SemaErrorKind::TopLevelAssign, x.target.span)),
                ast::Stmt::Expr(x) => Err(sema_err(SemaErrorKind::TopLevelExpr, x.span)),
            };
            if let Err(e) = r {
                return Err(e);
            }
            i = i + 1;
        }
        Ok(())
    }

    /// Pass 2: function signatures and struct fields are resolved.
    #[verifier::loop_isolation(false)]
    pub fn declare_signatures(&mut self, stmts: &Vec<ast::Stmt>) -> (res: Result<(), SemaError>)
        ensures
            match res {
                Ok(_) => rules::pass2(old(self)@, ast::stmts_view(stmts@), 0) == Ok::<_, SpecSemaError>(final(self)@),
                Err(e) => rules::pass2(old(self)@, ast::stmts_view(stmts@), 0) == Err::<SpecSymbols, _>(e@),
            },
    {
        let ghost sv = ast::stmts_view(stmts@);
        let ghost st0 = self@;
        proof {
            ast::lemma_stmts_view(stmts@);
        }
        let mut i: usize = 0;
        while i < stmts.len()
            invariant
                i <= stmts.len(),
                sv.len() == stmts.len(),
                forall|j: int| 0 <= j < stmts.len() ==> #[trigger] sv[j] == stmts@[j]@,
                rules::pass2(self@, sv, i as int) == rules::pass2(st0, sv, 0),
            decreases stmts.len() - i,
        {
            let r = match &stmts[i] {
                ast::Stmt::ExternFunc(f) => self.sym_table.define_func(&f.name, &f.params, &f.ret),
                ast::Stmt::Func(f) => self.sym_table.define_func(&f.name, &f.params, &f.ret),
                ast::Stmt::Struct(s) => match self.sym_table.define_struct_fields(s) {
                    Ok(_) => Ok(()),
                    Err(e) => Err(e),
                },
                _ => Ok(()),
            };
            if let Err(e) = r {
                return Err(e);
            }
            i = i + 1;
        }
        Ok(())
    }

    /// Pass 3 over the top level.
    #[verifier::loop_isolation(false)]
    pub fn check_top_level(&mut self, stmts: &Vec<ast::Stmt>) -> (res: Result<Vec<tast::Stmt>, SemaError>)
        ensures
            check_stmt::outcome_stmts(res, final(self)@) == rules::check_stmts(
                old(self)@,
                ast::stmts_view(stmts@),
                0,
                Seq::empty(),
            ),
    {
        let ghost st0 = self@;
        let ghost sv = ast::stmts_view(stmts@);
        proof {
            ast::lemma_stmts_view(stmts@);
        }
        let mut out: Vec<tast::Stmt> = Vec::new();
        assert(tast::stmts_view(out@) =~= Seq::<tast::SpecStmt>::empty());
        let mut i: usize = 0;
        while i < stmts.len()
            invariant
                i <= stmts.len(),
                sv.len() == stmts.len(),
                forall|j: int| 0 <= j < stmts.len() ==> #[trigger] sv[j] == stmts@[j]@,
                rules::check_stmts(self@, sv, i as int, tast::stmts_view(out@)) == rules::check_stmts(
                    st0,
                    sv,
                    0,
                    Seq::empty(),
                ),
            decreases stmts.len() - i,
        {
            match self.check_stmt(&stmts[i]) {
                Ok(x) => {
                    proof {
                        tast::lemma_stmts_view_push(out@, x);
                    }
                    out.push(x);
                },
                Err(x) => {
                    return Err(x);
                },
            }
            i = i + 1;
        }
        Ok(out)
    }

    pub fn check_program(&mut self, program: &ast::Program) -> (res: Result<tast::Program, SemaError>)
        requires
            old(self)@ == SpecSymbols::empty(),
        ensures
            outcome(res) == rules::spec_check(program@),
    {
        match self.declare_structs(&program.stmts) {
            Ok(_) => {},
            Err(e) => return Err(e),
        }
        match self.declare_signatures(&program.stmts) {
            Ok(_) => {},
            Err(e) => return Err(e),
        }
        let stmts = match self.check_top_level(&program.stmts) {
            Ok(s) => s,
            Err(e) => return Err(e),
        };
        let main = String::from_str("main");
        proof {
            reveal_strlit("main");
        }
        assert(main@ == rules::main_name());
        let entry = match self.sym_table.lookup_func(&main) {
            Some(f) => Some(f.id),
            None => None,
        };
        Ok(tast::Program { stmts, entry })
    }
}

} // verus!
