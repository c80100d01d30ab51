//! How checking numbers the functions of a program: in the order of their
//! declarations, with the entry the function named `main`.
use vstd::prelude::*;
use crate::parser::ast;
use super::rules::{check_func_decl, check_stmt, check_stmts, declare_sig, define_func, main_name, pass1, pass2, spec_check};
use super::scopes::lemma_func_decl;
use super::symbols::{find_func, SpecFuncSymbol, SpecSymbols};
use super::tast::{self, FuncId};

verus! {

/// Every top-level statement is a function definition.
pub open spec fn all_funcs(ss: Seq<ast::SpecStmt>) -> bool {
    forall|i: int| 0 <= i < ss.len() ==> #[trigger] ss[i] is Func
}

/// The name of a function definition.
pub open spec fn func_name(s: ast::SpecStmt) -> Seq<char> {
    match s {
        ast::SpecStmt::Func(f) => f.name.value,
        _ => Seq::empty(),
    }
}

/// The symbols are the functions of the first `n` statements, in order, each
/// with its position as id, and no two share a name.
pub open spec fn declared_in_order(fs: Seq<SpecFuncSymbol>, ss: Seq<ast::SpecStmt>, n: int) -> bool {
    &&& fs.len() == n
    &&& forall|k: int| 0 <= k < n ==> (#[trigger] fs[k]).name == func_name(ss[k]) && fs[k].id == FuncId(k as u32)
    &&& forall|j: int, k: int| 0 <= j < k < n ==> #[trigger] fs[j].name != #[trigger] fs[k].name
}

/// The statements are function definitions whose ids are their positions.
pub open spec fn funcs_numbered(ts: Seq<tast::SpecStmt>) -> bool {
    forall|k: int| 0 <= k < ts.len() ==> (#[trigger] ts[k] is Func) && ts[k]->Func_id == FuncId(k as u32)
}

proof fn lemma_pass1(st: SpecSymbols, ss: Seq<ast::SpecStmt>, i: int)
    requires
        all_funcs(ss),
        0 <= i,
    ensures
        pass1(st, ss, i) == Ok::<SpecSymbols, super::error::SpecSemaError>(st),
    decreases ss.len() - i,
{
    if i < ss.len() {
        assert(ss[i] is Func);
        lemma_pass1(st, ss, i + 1);
    }
}

proof fn lemma_find_func_at(fs: Seq<SpecFuncSymbol>, name: Seq<char>, i: int, k: int)
    requires
        0 <= i <= k < fs.len(),
        fs[k].name == name,
        forall|j: int| 0 <= j < k ==> #[trigger] fs[j].name != name,
    ensures
        find_func(fs, name, i) == Some(k),
    decreases k - i,
{
    if i < k {
        lemma_find_func_at(fs, name, i + 1, k);
    }
}

proof fn lemma_find_func_none(fs: Seq<SpecFuncSymbol>, name: Seq<char>, i: int)
    requires
        0 <= i,
    ensures
        find_func(fs, name, i) is None <==> forall|j: int| i <= j < fs.len() ==> #[trigger] fs[j].name != name,
    decreases fs.len() - i,
{
    if i < fs.len() {
        lemma_find_func_none(fs, name, i + 1);
    }
}

proof fn lemma_pass2(st: SpecSymbols, ss: Seq<ast::SpecStmt>, i: int)
    requires
        all_funcs(ss),
        0 <= i <= ss.len(),
        declared_in_order(st.funcs, ss, i),
    ensures
        pass2(st, ss, i) matches Ok(st2) ==> declared_in_order(st2.funcs, ss, ss.len() as int),
    decreases ss.len() - i,
{
    if i < ss.len() {
        assert(ss[i] is Func);
        let f = ss[i]->Func_0;
        assert(declare_sig(st, ss[i]) == define_func(st, f.name, f.params, f.ret));
        if let Ok(st1) = define_func(st, f.name, f.params, f.ret) {
            lemma_find_func_none(st.funcs, f.name.value, 0);
            assert(find_func(st.funcs, f.name.value, 0) is None);
            let pts = super::rules::resolve_params(st, f.params, 0, Seq::empty())->Ok_0;
            let rt = super::rules::resolve_ret(st, f.ret)->Ok_0;
            assert(st1 == st.add_func(f.name.value, pts, rt));
            assert(declared_in_order(st1.funcs, ss, i + 1)) by {
                assert forall|j: int, k: int| 0 <= j < k < i + 1 implies #[trigger] st1.funcs[j].name
                    != #[trigger] st1.funcs[k].name by {
                    if k == i {
                        assert(st.funcs[j].name != f.name.value);
                    } else {
                        assert(st1.funcs[j] == st.funcs[j]);
                        assert(st1.funcs[k] == st.funcs[k]);
                    }
                }
            }
            lemma_pass2(st1, ss, i + 1);
        }
    }
}

proof fn lemma_check_funcs(st: SpecSymbols, ss: Seq<ast::SpecStmt>, i: int, acc: Seq<tast::SpecStmt>)
    requires
        all_funcs(ss),
        0 <= i <= ss.len(),
        declared_in_order(st.funcs, ss, ss.len() as int),
        acc.len() == i,
        funcs_numbered(acc),
    ensures
        check_stmts(st, ss, i, acc) matches Ok((ts, st3)) ==> st3.funcs == st.funcs && ts.len() == ss.len()
            && funcs_numbered(ts),
    decreases ss.len() - i,
{
    if i < ss.len() {
        assert(ss[i] is Func);
        let f = ss[i]->Func_0;
        lemma_func_decl(st, f);
        lemma_find_func_at(st.funcs, f.name.value, 0, i);
        assert(st.lookup_func(f.name.value) == Some(st.funcs[i]));
        assert(check_stmt(st, ss[i]) == check_func_decl(st, f));
        if let Ok((x, st1)) = check_func_decl(st, f) {
            assert(x is Func && x->Func_id == FuncId(i as u32));
            let acc1 = acc.push(x);
            assert(funcs_numbered(acc1)) by {
                assert forall|k: int| 0 <= k < acc1.len() implies (#[trigger] acc1[k] is Func) && acc1[k]->Func_id
                    == FuncId(k as u32) by {
                    if k < i {
                        assert(acc1[k] == acc[k]);
                    }
                }
            }
            lemma_check_funcs(st1, ss, i + 1, acc1);
            assert(check_stmts(st, ss, i, acc) == check_stmts(st1, ss, i + 1, acc1));
        }
    }
}

/// Checking a program made of function definitions only numbers them in the
/// order of their declarations: the typed statement at position `k` is the
/// function with id `k`. No two of them share a name, and the entry is the
/// function named `main` if there is one, else none.
pub proof fn lemma_check_numbers_funcs(p: ast::SpecProgram)
    requires
        all_funcs(p.stmts),
        spec_check(p) is Ok,
    ensures
        spec_check(p)->Ok_0.stmts.len() == p.stmts.len(),
        funcs_numbered(spec_check(p)->Ok_0.stmts),
        forall|j: int, k: int|
            0 <= j < k < p.stmts.len() ==> #[trigger] func_name(p.stmts[j]) != #[trigger] func_name(p.stmts[k]),
        forall|k: int|
            0 <= k < p.stmts.len() && #[trigger] func_name(p.stmts[k]) == main_name() ==> spec_check(p)->Ok_0.entry
                == Some(FuncId(k as u32)),
        (forall|k: int| 0 <= k < p.stmts.len() ==> #[trigger] func_name(p.stmts[k]) != main_name())
            ==> spec_check(p)->Ok_0.entry is None,
{
    let ss = p.stmts;
    let st0 = SpecSymbols::empty();
    lemma_pass1(st0, ss, 0);
    lemma_pass2(st0, ss, 0);
    let st2 = pass2(st0, ss, 0)->Ok_0;
    lemma_check_funcs(st2, ss, 0, Seq::empty());
    let st3 = check_stmts(st2, ss, 0, Seq::empty())->Ok_0.1;
    assert forall|j: int, k: int|
        0 <= j < k < ss.len() implies #[trigger] func_name(ss[j]) != #[trigger] func_name(ss[k]) by {
        assert(st2.funcs[j].name != st2.funcs[k].name);
    }
    assert forall|k: int| 0 <= k < ss.len() && #[trigger] func_name(ss[k]) == main_name() implies spec_check(
        p,
    )->Ok_0.entry == Some(FuncId(k as u32)) by {
        assert forall|j: int| 0 <= j < k implies #[trigger] st3.funcs[j].name != main_name() by {
            assert(st2.funcs[j].name != st2.funcs[k].name);
        }
        assert(st3.funcs[k].name == main_name());
        lemma_find_func_at(st3.funcs, main_name(), 0, k);
    }
    if forall|k: int| 0 <= k < ss.len() ==> #[trigger] func_name(ss[k]) != main_name() {
        assert forall|j: int| 0 <= j < st3.funcs.len() implies #[trigger] st3.funcs[j].name != main_name() by {
            assert(func_name(ss[j]) != main_name());
        }
        lemma_find_func_none(st3.funcs, main_name(), 0);
    }
}

} // verus!
