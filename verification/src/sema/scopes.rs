//! The scope discipline of semantic analysis: what a block declares goes
//! with it.
use vstd::prelude::*;
use crate::parser::ast;
use super::rules::{
    check_args, check_assign, check_block, check_condition, check_elif, check_elifs, check_expr, check_func_decl,
    check_if, check_let, check_return, check_stmt, check_stmts, define_params, define_var,
};
use super::symbols::{find_var, lookup_var_in, SpecSymbols, SpecVarSymbol};
use super::tast::{SpecElif, SpecExpr, SpecParam, SpecStmt};
use super::ty::SpecTy;

verus! {

/// `st2` has the scopes of `st` but for the innermost one, and the same
/// functions and structs.
pub open spec fn keeps_outer(st: SpecSymbols, st2: SpecSymbols) -> bool {
    &&& st2.scopes.len() == st.scopes.len()
    &&& forall|k: int| 0 <= k < st.scopes.len() - 1 ==> #[trigger] st2.scopes[k] == st.scopes[k]
    &&& st2.funcs == st.funcs
    &&& st2.structs == st.structs
}

proof fn lemma_keeps_outer_trans(a: SpecSymbols, b: SpecSymbols, c: SpecSymbols)
    requires
        keeps_outer(a, b),
        keeps_outer(b, c),
    ensures
        keeps_outer(a, c),
{
    assert forall|k: int| 0 <= k < a.scopes.len() - 1 implies #[trigger] c.scopes[k] == a.scopes[k] by {
        assert(c.scopes[k] == b.scopes[k]);
        assert(b.scopes[k] == a.scopes[k]);
    }
}

proof fn lemma_define_var(st: SpecSymbols, name: ast::SpecIdentifier, ty: SpecTy)
    requires
        st.scopes.len() > 0,
    ensures
        define_var(st, name, ty) matches Ok((_, st2)) ==> keeps_outer(st, st2),
{
    if let Ok((_, st2)) = define_var(st, name, ty) {
        assert forall|k: int| 0 <= k < st.scopes.len() - 1 implies #[trigger] st2.scopes[k] == st.scopes[k] by {}
    }
}

proof fn lemma_define_params(
    st: SpecSymbols,
    ps: Seq<ast::SpecParam>,
    tys: Seq<SpecTy>,
    i: int,
    acc: Seq<SpecParam>,
)
    requires
        st.scopes.len() > 0,
    ensures
        define_params(st, ps, tys, i, acc) matches Ok((_, st2)) ==> keeps_outer(st, st2),
    decreases ps.len() - i,
{
    if 0 <= i < ps.len() && i < tys.len() {
        lemma_define_var(st, ps[i].name, tys[i]);
        if let Ok((id, st1)) = define_var(st, ps[i].name, tys[i]) {
            lemma_define_params(st1, ps, tys, i + 1, acc.push(SpecParam { id, ty: tys[i] }));
            if let Ok((_, st2)) = define_params(st1, ps, tys, i + 1, acc.push(SpecParam { id, ty: tys[i] })) {
                lemma_keeps_outer_trans(st, st1, st2);
            }
        }
    }
}

proof fn lemma_expr(st: SpecSymbols, e: ast::SpecExpr)
    requires
        st.scopes.len() > 0,
    ensures
        check_expr(st, e) matches Ok((_, st2)) ==> keeps_outer(st, st2),
    decreases e, 0int,
{
    match e.kind {
        ast::SpecExprKind::Block(b) => {
            lemma_block(st, b);
        },
        ast::SpecExprKind::BinaryOp { op, left, right } => {
            lemma_expr(st, *left);
            if let Ok((l, st1)) = check_expr(st, *left) {
                lemma_expr(st1, *right);
                if let Ok((r, st2)) = check_expr(st1, *right) {
                    lemma_keeps_outer_trans(st, st1, st2);
                }
            }
        },
        ast::SpecExprKind::Call { callee, args } => {
            lemma_args(st, args, 0, Seq::empty());
        },
        _ => {},
    }
}

proof fn lemma_args(st: SpecSymbols, args: Seq<ast::SpecExpr>, i: int, acc: Seq<SpecExpr>)
    requires
        st.scopes.len() > 0,
    ensures
        check_args(st, args, i, acc) matches Ok((_, st2)) ==> keeps_outer(st, st2),
    decreases args, args.len() - i,
{
    if 0 <= i < args.len() {
        lemma_expr(st, args[i]);
        if let Ok((x, st1)) = check_expr(st, args[i]) {
            lemma_args(st1, args, i + 1, acc.push(x));
            if let Ok((_, st2)) = check_args(st1, args, i + 1, acc.push(x)) {
                lemma_keeps_outer_trans(st, st1, st2);
            }
        }
    }
}

proof fn lemma_condition(st: SpecSymbols, e: ast::SpecExpr)
    requires
        st.scopes.len() > 0,
    ensures
        check_condition(st, e) matches Ok((_, st2)) ==> keeps_outer(st, st2),
    decreases e, 1int,
{
    lemma_expr(st, e);
}

proof fn lemma_block(st: SpecSymbols, b: ast::SpecBlock)
    ensures
        check_block(st, b) matches Ok((_, st2)) ==> st2.scopes == st.scopes && st2.funcs == st.funcs
            && st2.structs == st.structs,
    decreases b, 0int,
{
    let st1 = st.enter_scope();
    lemma_stmts(st1, b.stmts, 0, Seq::empty());
    if let Ok((ts, st2)) = check_stmts(st1, b.stmts, 0, Seq::empty()) {
        assert(st2.exit_scope().scopes =~= st.scopes) by {
            assert forall|k: int| 0 <= k < st.scopes.len() implies #[trigger] st2.scopes[k] == st.scopes[k] by {
                assert(st1.scopes[k] == st.scopes[k]);
            }
        }
    }
}

proof fn lemma_stmts(st: SpecSymbols, ss: Seq<ast::SpecStmt>, i: int, acc: Seq<SpecStmt>)
    requires
        st.scopes.len() > 0,
    ensures
        check_stmts(st, ss, i, acc) matches Ok((_, st2)) ==> keeps_outer(st, st2),
    decreases ss, ss.len() - i,
{
    if 0 <= i < ss.len() {
        lemma_stmt(st, ss[i]);
        if let Ok((x, st1)) = check_stmt(st, ss[i]) {
            lemma_stmts(st1, ss, i + 1, acc.push(x));
            if let Ok((_, st2)) = check_stmts(st1, ss, i + 1, acc.push(x)) {
                lemma_keeps_outer_trans(st, st1, st2);
            }
        }
    }
}

proof fn lemma_elif(st: SpecSymbols, e: ast::SpecElif)
    requires
        st.scopes.len() > 0,
    ensures
        check_elif(st, e) matches Ok((_, st2)) ==> keeps_outer(st, st2),
    decreases e, 0int,
{
    lemma_condition(st, e.condition);
    if let Ok((c, st1)) = check_condition(st, e.condition) {
        lemma_block(st1, e.then_block);
        if let Ok((_, st2)) = check_block(st1, e.then_block) {
            assert(keeps_outer(st1, st2));
            lemma_keeps_outer_trans(st, st1, st2);
        }
    }
}

proof fn lemma_elifs(st: SpecSymbols, es: Seq<ast::SpecElif>, i: int, acc: Seq<SpecElif>)
    requires
        st.scopes.len() > 0,
    ensures
        check_elifs(st, es, i, acc) matches Ok((_, st2)) ==> keeps_outer(st, st2),
    decreases es, es.len() - i,
{
    if 0 <= i < es.len() {
        lemma_elif(st, es[i]);
        if let Ok((x, st1)) = check_elif(st, es[i]) {
            lemma_elifs(st1, es, i + 1, acc.push(x));
            if let Ok((_, st2)) = check_elifs(st1, es, i + 1, acc.push(x)) {
                lemma_keeps_outer_trans(st, st1, st2);
            }
        }
    }
}

proof fn lemma_if(st: SpecSymbols, i: ast::SpecIf)
    requires
        st.scopes.len() > 0,
    ensures
        check_if(st, i) matches Ok((_, st2)) ==> keeps_outer(st, st2),
    decreases i, 0int,
{
    lemma_condition(st, i.condition);
    if let Ok((c, st1)) = check_condition(st, i.condition) {
        lemma_block(st1, i.then_block);
        if let Ok((tb, st2)) = check_block(st1, i.then_block) {
            assert(keeps_outer(st1, st2));
            lemma_keeps_outer_trans(st, st1, st2);
            lemma_elifs(st2, i.elifs, 0, Seq::empty());
            if let Ok((es, st3)) = check_elifs(st2, i.elifs, 0, Seq::empty()) {
                lemma_keeps_outer_trans(st, st2, st3);
                if let Some(b) = i.else_block {
                    lemma_block(st3, b);
                    if let Ok((_, st4)) = check_block(st3, b) {
                        assert(keeps_outer(st3, st4));
                        lemma_keeps_outer_trans(st, st3, st4);
                    }
                }
            }
        }
    }
}

proof fn lemma_let(st: SpecSymbols, l: ast::SpecLet)
    requires
        st.scopes.len() > 0,
    ensures
        check_let(st, l) matches Ok((_, st2)) ==> keeps_outer(st, st2),
    decreases l, 0int,
{
    lemma_expr(st, l.value);
    if let Ok((v, st1)) = check_expr(st, l.value) {
        lemma_define_var(st1, l.name, v.ty());
        if let Some(a) = l.annot_ty {
            if let Ok(at) = super::rules::resolve_ty(st1, a) {
                lemma_define_var(st1, l.name, at);
                if let Ok((_, st2)) = define_var(st1, l.name, at) {
                    lemma_keeps_outer_trans(st, st1, st2);
                }
            }
        } else {
            if let Ok((_, st2)) = define_var(st1, l.name, v.ty()) {
                lemma_keeps_outer_trans(st, st1, st2);
            }
        }
    }
}

proof fn lemma_return(st: SpecSymbols, r: ast::SpecReturn)
    requires
        st.scopes.len() > 0,
    ensures
        check_return(st, r) matches Ok((_, st2)) ==> keeps_outer(st, st2),
    decreases r, 0int,
{
    if let Some(e) = r.value {
        lemma_expr(st, e);
    }
}

proof fn lemma_assign(st: SpecSymbols, a: ast::SpecAssign)
    requires
        st.scopes.len() > 0,
    ensures
        check_assign(st, a) matches Ok((_, st2)) ==> keeps_outer(st, st2),
    decreases a, 0int,
{
    lemma_expr(st, a.value);
}

pub(crate) proof fn lemma_func_decl(st: SpecSymbols, f: ast::SpecFunc)
    ensures
        check_func_decl(st, f) matches Ok((_, st2)) ==> st2.scopes == st.scopes && st2.funcs == st.funcs
            && st2.structs == st.structs,
    decreases f, 0int,
{
    if let Some(sym) = st.lookup_func(f.name.value) {
        let st1 = st.enter_func(sym.ret_ty);
        lemma_define_params(st1, f.params, sym.params_ty, 0, Seq::empty());
        if let Ok((ps, st2)) = define_params(st1, f.params, sym.params_ty, 0, Seq::empty()) {
            lemma_block(st2, f.body);
            if let Ok((body, st3)) = check_block(st2, f.body) {
                assert(st3.exit_func().scopes =~= st.scopes) by {
                    assert forall|k: int| 0 <= k < st.scopes.len() implies #[trigger] st3.scopes[k] == st.scopes[k] by {
                        assert(st2.scopes[k] == st1.scopes[k]);
                        assert(st1.scopes[k] == st.scopes[k]);
                    }
                }
            }
        }
    }
}

proof fn lemma_stmt(st: SpecSymbols, s: ast::SpecStmt)
    requires
        st.scopes.len() > 0,
    ensures
        check_stmt(st, s) matches Ok((_, st2)) ==> keeps_outer(st, st2),
    decreases s, 0int,
{
    match s {
        ast::SpecStmt::Func(f) => {
            lemma_func_decl(st, f);
        },
        ast::SpecStmt::Let(l) => lemma_let(st, l),
        ast::SpecStmt::Return(r) => lemma_return(st, r),
        ast::SpecStmt::If(i) => lemma_if(st, i),
        ast::SpecStmt::Block(b) => {
            lemma_block(st, b);
        },
        ast::SpecStmt::Assign(a) => lemma_assign(st, a),
        ast::SpecStmt::Expr(e) => lemma_expr(st, e),
        _ => {},
    }
}

/// Checking a block leaves the scopes around it as they were: the variables
/// that the block (and every block inside it) declares leave with it, and
/// the functions and structs in the table do not change.
pub proof fn lemma_block_restores_scopes(st: SpecSymbols, b: ast::SpecBlock)
    ensures
        check_block(st, b) matches Ok((_, st2)) ==> st2.scopes == st.scopes && st2.funcs == st.funcs
            && st2.structs == st.structs,
{
    lemma_block(st, b);
}

/// The table after the variables of `defs` from `i` on are defined in turn.
pub open spec fn define_all(st: SpecSymbols, defs: Seq<(ast::SpecIdentifier, SpecTy)>, i: int) -> super::rules::SRes<
    SpecSymbols,
>
    decreases defs.len() - i,
{
    if i < 0 || i >= defs.len() {
        Ok(st)
    } else {
        match define_var(st, defs[i].0, defs[i].1) {
            Ok((_, st1)) => define_all(st1, defs, i + 1),
            Err(e) => Err(e),
        }
    }
}

proof fn lemma_define_all(st: SpecSymbols, defs: Seq<(ast::SpecIdentifier, SpecTy)>, i: int)
    requires
        st.scopes.len() > 0,
    ensures
        define_all(st, defs, i) matches Ok(st2) ==> keeps_outer(st, st2),
    decreases defs.len() - i,
{
    if 0 <= i < defs.len() {
        lemma_define_var(st, defs[i].0, defs[i].1);
        if let Ok((_, st1)) = define_var(st, defs[i].0, defs[i].1) {
            lemma_define_all(st1, defs, i + 1);
            if let Ok(st2) = define_all(st1, defs, i + 1) {
                lemma_keeps_outer_trans(st, st1, st2);
            }
        }
    }
}

/// Entering a scope, defining variables in it (shadowing outer ones is
/// allowed), then leaving it gives back the scopes of before: every name
/// looks up what it looked up before.
pub proof fn lemma_scope_round_trip(st: SpecSymbols, defs: Seq<(ast::SpecIdentifier, SpecTy)>)
    ensures
        define_all(st.enter_scope(), defs, 0) matches Ok(st2) ==> st2.exit_scope().scopes == st.scopes
            && forall|n: Seq<char>| #[trigger] st2.exit_scope().lookup_var(n) == st.lookup_var(n),
{
    let st1 = st.enter_scope();
    lemma_define_all(st1, defs, 0);
    if let Ok(st2) = define_all(st1, defs, 0) {
        assert(st2.exit_scope().scopes =~= st.scopes) by {
            assert forall|k: int| 0 <= k < st.scopes.len() implies #[trigger] st2.scopes[k] == st.scopes[k] by {
                assert(st1.scopes[k] == st.scopes[k]);
            }
        }
    }
}

proof fn lemma_find_var_at(vs: Seq<SpecVarSymbol>, name: Seq<char>, i: int, j: int)
    requires
        0 <= i <= j < vs.len(),
        vs[j].name == name,
        forall|l: int| 0 <= l < j ==> #[trigger] vs[l].name != name,
    ensures
        find_var(vs, name, i) == Some(j),
    decreases j - i,
{
    if i < j {
        lemma_find_var_at(vs, name, i + 1, j);
    }
}

proof fn lemma_find_var_none(vs: Seq<SpecVarSymbol>, name: Seq<char>, i: int)
    requires
        0 <= i,
        forall|l: int| i <= l < vs.len() ==> #[trigger] vs[l].name != name,
    ensures
        find_var(vs, name, i) is None,
    decreases vs.len() - i,
{
    if i < vs.len() {
        lemma_find_var_none(vs, name, i + 1);
    }
}

proof fn lemma_find_var_none_means_absent(vs: Seq<SpecVarSymbol>, name: Seq<char>, i: int)
    requires
        0 <= i,
        find_var(vs, name, i) is None,
    ensures
        forall|l: int| i <= l < vs.len() ==> #[trigger] vs[l].name != name,
    decreases vs.len() - i,
{
    if i < vs.len() {
        lemma_find_var_none_means_absent(vs, name, i + 1);
    }
}

proof fn lemma_lookup_in(scopes: Seq<Seq<SpecVarSymbol>>, name: Seq<char>, n: int, i: int, j: int)
    requires
        0 <= i < n <= scopes.len(),
        0 <= j < scopes[i].len(),
        scopes[i][j].name == name,
        forall|l: int| 0 <= l < j ==> #[trigger] scopes[i][l].name != name,
        forall|m: int, l: int| i < m < scopes.len() && 0 <= l < scopes[m].len() ==> #[trigger] scopes[m][l].name != name,
    ensures
        lookup_var_in(scopes, name, n) == Some(scopes[i][j]),
    decreases n,
{
    if n == i + 1 {
        lemma_find_var_at(scopes[i], name, 0, j);
    } else {
        assert forall|l: int| 0 <= l < scopes[n - 1].len() implies #[trigger] scopes[n - 1][l].name != name by {
            assert(scopes[n - 1][l].name != name);
        }
        lemma_find_var_none(scopes[n - 1], name, 0);
        lemma_lookup_in(scopes, name, n - 1, i, j);
    }
}

/// Names resolve to the innermost declaration: when the innermost scope that
/// holds a variable named `name` is scope `i`, and its first such variable is
/// at `j`, looking the name up gives that variable, whatever outer scopes hold
/// under the same name.
pub proof fn lemma_lookup_innermost(st: SpecSymbols, name: Seq<char>, i: int, j: int)
    requires
        0 <= i < st.scopes.len(),
        0 <= j < st.scopes[i].len(),
        st.scopes[i][j].name == name,
        forall|l: int| 0 <= l < j ==> #[trigger] st.scopes[i][l].name != name,
        forall|m: int, l: int|
            i < m < st.scopes.len() && 0 <= l < st.scopes[m].len() ==> #[trigger] st.scopes[m][l].name != name,
    ensures
        st.lookup_var(name) == Some(st.scopes[i][j]),
{
    lemma_lookup_in(st.scopes, name, st.scopes.len() as int, i, j);
}

proof fn lemma_lookup_in_none(scopes: Seq<Seq<SpecVarSymbol>>, name: Seq<char>, n: int)
    requires
        0 <= n <= scopes.len(),
        forall|m: int, l: int| 0 <= m < n && 0 <= l < scopes[m].len() ==> #[trigger] scopes[m][l].name != name,
    ensures
        lookup_var_in(scopes, name, n) is None,
    decreases n,
{
    if n > 0 {
        assert forall|l: int| 0 <= l < scopes[n - 1].len() implies #[trigger] scopes[n - 1][l].name != name by {
            assert(scopes[n - 1][l].name != name);
        }
        lemma_find_var_none(scopes[n - 1], name, 0);
        lemma_lookup_in_none(scopes, name, n - 1);
    }
}

/// A name that no scope holds resolves to nothing.
pub proof fn lemma_lookup_absent(st: SpecSymbols, name: Seq<char>)
    requires
        forall|m: int, l: int|
            0 <= m < st.scopes.len() && 0 <= l < st.scopes[m].len() ==> #[trigger] st.scopes[m][l].name != name,
    ensures
        st.lookup_var(name) is None,
{
    lemma_lookup_in_none(st.scopes, name, st.scopes.len() as int);
}

/// A variable just defined is what its name resolves to, shadowing any outer
/// variable of the same name: it has the id `define_var` returned and the
/// type it was defined with.
pub proof fn lemma_define_then_lookup(st: SpecSymbols, name: ast::SpecIdentifier, ty: SpecTy)
    ensures
        define_var(st, name, ty) matches Ok((id, st2)) ==> st2.lookup_var(name.value) == Some(
            SpecVarSymbol { name: name.value, id, ty },
        ),
{
    if let Ok((id, st2)) = define_var(st, name, ty) {
        let v = SpecVarSymbol { name: name.value, id, ty };
        let i = st2.scopes.len() - 1;
        if st.scopes.len() > 0 {
            let last = st.scopes.last();
            assert(find_var(last, name.value, 0) is None);
            lemma_find_var_none_means_absent(last, name.value, 0);
            assert(st2.scopes[i] == last.push(v));
            lemma_lookup_innermost(st2, name.value, i, last.len() as int);
        } else {
            assert(st2.scopes == seq![seq![v]]);
            lemma_lookup_innermost(st2, name.value, 0, 0);
        }
    }
}

} // verus!
