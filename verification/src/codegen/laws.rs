//! Properties of the sections that code generation builds.
use vstd::prelude::*;
use crate::common::op::BinOpKind;
use crate::lower::ir::{self, IrTy};
use super::rules::{
    bin_op_code, declare_func, declare_funcs, declare_import, declare_imports, emit_bodies, export_entry, find_sig, func_code,
    param_codes, result_codes, sig_index, spec_sections, SpecGen,
};

verus! {

/// No function type occurs twice.
pub open spec fn distinct(types: Seq<(Seq<u8>, Seq<u8>)>) -> bool {
    forall|i: int, j: int| 0 <= i < j < types.len() ==> types[i] != types[j]
}

/// `a` is a prefix of `b`.
pub open spec fn prefix(a: Seq<(Seq<u8>, Seq<u8>)>, b: Seq<(Seq<u8>, Seq<u8>)>) -> bool {
    a.len() <= b.len() && forall|k: int| 0 <= k < a.len() ==> #[trigger] b[k] == a[k]
}

/// The type of an import's function signature.
pub open spec fn import_sig(imp: ir::SpecImportFunc) -> (Seq<u8>, Seq<u8>) {
    (param_codes(imp.params), result_codes(imp.ret_ty))
}

/// The type of a function's signature.
pub open spec fn func_sig(f: ir::SpecFunc) -> (Seq<u8>, Seq<u8>) {
    (param_codes(f.params.map_values(|p: ir::Param| p.ty)), result_codes(f.ret_ty))
}

proof fn lemma_find_sig(types: Seq<(Seq<u8>, Seq<u8>)>, sig: (Seq<u8>, Seq<u8>), i: int)
    requires
        0 <= i,
    ensures
        match find_sig(types, sig, i) {
            Some(k) => i <= k < types.len() && types[k] == sig,
            None => forall|k: int| i <= k < types.len() ==> types[k] != sig,
        },
    decreases types.len() - i,
{
    if i < types.len() && types[i] != sig {
        lemma_find_sig(types, sig, i + 1);
    }
}

/// The index that `sig_index` gives holds the signature; the types before stay.
proof fn lemma_sig_index(types: Seq<(Seq<u8>, Seq<u8>)>, sig: (Seq<u8>, Seq<u8>))
    requires
        distinct(types),
        types.len() < u32::MAX,
    ensures
        ({
            let (idx, t2) = sig_index(types, sig);
            &&& distinct(t2)
            &&& idx < t2.len()
            &&& t2[idx as int] == sig
            &&& prefix(types, t2)
            &&& t2.len() <= types.len() + 1
        }),
{
    lemma_find_sig(types, sig, 0);
}

proof fn lemma_declare_imports(g: SpecGen, imps: Seq<ir::SpecImportFunc>, i: int)
    requires
        0 <= i <= imps.len(),
        distinct(g.types),
        g.types.len() + (imps.len() - i) < u32::MAX,
        g.imports.len() == i,
        forall|k: int| 0 <= k < i ==> (#[trigger] g.imports[k]).2 < g.types.len() && g.types[g.imports[k].2 as int]
            == import_sig(imps[k]),
    ensures
        ({
            let r = declare_imports(g, imps, i);
            &&& distinct(r.types)
            &&& r.types.len() <= g.types.len() + (imps.len() - i)
            &&& r.imports.len() == imps.len()
            &&& forall|k: int| 0 <= k < imps.len() ==> (#[trigger] r.imports[k]).2 < r.types.len() && r.types[r.imports[k].2 as int]
                == import_sig(imps[k])
            &&& r.funcs == g.funcs
            &&& r.exports == g.exports
            &&& r.code == g.code
        }),
    decreases imps.len() - i,
{
    if i < imps.len() {
        let sig = import_sig(imps[i]);
        lemma_sig_index(g.types, sig);
        let (idx, t2) = sig_index(g.types, sig);
        let g2 = declare_import(g, imps[i]);
        assert(g2.types == t2);
        assert(g2.imports == g.imports.push((imps[i].module, imps[i].item, idx)));
        assert forall|k: int| 0 <= k < i + 1 implies (#[trigger] g2.imports[k]).2 < g2.types.len() && g2.types[g2.imports[k].2 as int]
            == import_sig(imps[k]) by {
            if k < i {
                assert(g2.imports[k] == g.imports[k]);
                assert(g.types[g.imports[k].2 as int] == import_sig(imps[k]));
                assert(t2[g.imports[k].2 as int] == g.types[g.imports[k].2 as int]);
            } else {
                assert(g2.imports[k].2 == idx);
            }
        }
        lemma_declare_imports(g2, imps, i + 1);
    }
}

proof fn lemma_declare_funcs(g: SpecGen, fs: Seq<ir::SpecFunc>, i: int)
    requires
        0 <= i <= fs.len(),
        distinct(g.types),
        g.types.len() + (fs.len() - i) < u32::MAX,
        g.funcs.len() == i,
        forall|k: int| 0 <= k < i ==> (#[trigger] g.funcs[k]) < g.types.len() && g.types[g.funcs[k] as int] == func_sig(
            fs[k],
        ),
    ensures
        ({
            let r = declare_funcs(g, fs, i);
            &&& distinct(r.types)
            &&& prefix(g.types, r.types)
            &&& r.funcs.len() == fs.len()
            &&& forall|k: int| 0 <= k < fs.len() ==> (#[trigger] r.funcs[k]) < r.types.len() && r.types[r.funcs[k] as int]
                == func_sig(fs[k])
            &&& r.imports == g.imports
            &&& r.exports == g.exports
            &&& r.code == g.code
        }),
    decreases fs.len() - i,
{
    if i < fs.len() {
        let sig = func_sig(fs[i]);
        lemma_sig_index(g.types, sig);
        let (idx, t2) = sig_index(g.types, sig);
        let g2 = declare_func(g, fs[i]);
        assert(g2.types == t2);
        assert(g2.funcs == g.funcs.push(idx));
        assert forall|k: int| 0 <= k < i + 1 implies (#[trigger] g2.funcs[k]) < g2.types.len() && g2.types[g2.funcs[k] as int]
            == func_sig(fs[k]) by {
            if k < i {
                assert(g2.funcs[k] == g.funcs[k]);
                assert(g.types[g.funcs[k] as int] == func_sig(fs[k]));
                assert(t2[g.funcs[k] as int] == g.types[g.funcs[k] as int]);
            } else {
                assert(g2.funcs[k] == idx);
            }
        }
        lemma_declare_funcs(g2, fs, i + 1);
        let r = declare_funcs(g2, fs, i + 1);
        assert forall|k: int| 0 <= k < g.types.len() implies #[trigger] r.types[k] == g.types[k] by {
            assert(g2.types[k] == g.types[k]);
        }
    }
}

proof fn lemma_emit_bodies(g: SpecGen, fs: Seq<ir::SpecFunc>, i: int)
    requires
        0 <= i <= fs.len(),
    ensures
        ({
            let r = emit_bodies(g, fs, i);
            &&& r.types == g.types
            &&& r.imports == g.imports
            &&& r.funcs == g.funcs
            &&& r.exports == g.exports
            &&& r.code.len() == g.code.len() + (fs.len() - i)
        }),
    decreases fs.len() - i,
{
    if i < fs.len() {
        let g2 = SpecGen { code: g.code.push((param_codes(fs[i].locals), func_code(fs[i]))), ..g };
        lemma_emit_bodies(g2, fs, i + 1);
    }
}

/// The sections of a module: every function type occurs once in the type
/// section; there is one import entry per import and one function entry and
/// one body per function, each entry pointing at the type of its own
/// signature; `main` is exported exactly when the module has an entry.
pub proof fn lemma_sections(m: ir::SpecModule)
    requires
        m.imports.len() + m.funcs.len() < u32::MAX,
    ensures
        ({
            let g = spec_sections(m);
            &&& distinct(g.types)
            &&& g.imports.len() == m.imports.len()
            &&& g.funcs.len() == m.funcs.len()
            &&& g.code.len() == m.funcs.len()
            &&& forall|k: int| 0 <= k < m.imports.len() ==> (#[trigger] g.imports[k]).2 < g.types.len() && g.types[g.imports[k].2 as int]
                == import_sig(m.imports[k])
            &&& forall|k: int| 0 <= k < m.funcs.len() ==> (#[trigger] g.funcs[k]) < g.types.len() && g.types[g.funcs[k] as int]
                == func_sig(m.funcs[k])
            &&& g.exports.len() == (if m.entry is Some { 1int } else { 0int })
        }),
{
    let g0 = SpecGen::empty();
    lemma_declare_imports(g0, m.imports, 0);
    let g1 = declare_imports(g0, m.imports, 0);
    lemma_declare_funcs(g1, m.funcs, 0);
    let g2 = declare_funcs(g1, m.funcs, 0);
    let g3 = export_entry(g2, m.entry);
    lemma_emit_bodies(g3, m.funcs, 0);
    assert forall|k: int| 0 <= k < m.imports.len() implies (#[trigger] g2.imports[k]).2 < g2.types.len() && g2.types[g2.imports[k].2 as int]
        == import_sig(m.imports[k]) by {
        assert(g2.imports[k] == g1.imports[k]);
        assert(g1.types[g1.imports[k].2 as int] == import_sig(m.imports[k]));
        assert(g2.types[g1.imports[k].2 as int] == g1.types[g1.imports[k].2 as int]);
    }
    assert(g3.types == g2.types);
}

/// Signatures are shared: a function type already in the section keeps its
/// index and adds nothing; a new one is added once, last, at the next index.
pub proof fn lemma_sig_index_dedup(types: Seq<(Seq<u8>, Seq<u8>)>, sig: (Seq<u8>, Seq<u8>))
    requires
        types.len() < u32::MAX,
    ensures
        (exists|k: int| 0 <= k < types.len() && types[k] == sig) ==> ({
            let (idx, t2) = sig_index(types, sig);
            &&& t2 == types
            &&& idx < types.len()
            &&& types[idx as int] == sig
        }),
        !(exists|k: int| 0 <= k < types.len() && types[k] == sig) ==> sig_index(types, sig) == (
            types.len() as u32,
            types.push(sig),
        ),
{
    lemma_find_sig(types, sig, 0);
}

/// The instruction of each operator is the one the WebAssembly specification
/// gives it: on `i32`, `+ - * /` are `i32.add` (0x6A), `i32.sub` (0x6B),
/// `i32.mul` (0x6C), `i32.div_s` (0x6D); `< > <= >=` are `i32.lt_s` (0x48),
/// `i32.gt_s` (0x4A), `i32.le_s` (0x4C), `i32.ge_s` (0x4E); `== !=` are
/// `i32.eq` (0x46), `i32.ne` (0x47); `&& ||` are `i32.and` (0x71), `i32.or`
/// (0x72). On `f32`: `f32.add` (0x92), `f32.sub` (0x93), `f32.mul` (0x94),
/// `f32.div` (0x95), `f32.lt` (0x5D), `f32.gt` (0x5E), `f32.le` (0x5F),
/// `f32.ge` (0x60), `f32.eq` (0x5B), `f32.ne` (0x5C). `bin_op` emits exactly
/// this code.
pub proof fn lemma_bin_op_opcodes()
    ensures
        bin_op_code(BinOpKind::Add, IrTy::I32) == 0x6Au8,
        bin_op_code(BinOpKind::Sub, IrTy::I32) == 0x6Bu8,
        bin_op_code(BinOpKind::Mul, IrTy::I32) == 0x6Cu8,
        bin_op_code(BinOpKind::Div, IrTy::I32) == 0x6Du8,
        bin_op_code(BinOpKind::Lt, IrTy::I32) == 0x48u8,
        bin_op_code(BinOpKind::Gt, IrTy::I32) == 0x4Au8,
        bin_op_code(BinOpKind::LtEq, IrTy::I32) == 0x4Cu8,
        bin_op_code(BinOpKind::GtEq, IrTy::I32) == 0x4Eu8,
        bin_op_code(BinOpKind::EqEq, IrTy::I32) == 0x46u8,
        bin_op_code(BinOpKind::NotEq, IrTy::I32) == 0x47u8,
        bin_op_code(BinOpKind::And, IrTy::I32) == 0x71u8,
        bin_op_code(BinOpKind::Or, IrTy::I32) == 0x72u8,
        bin_op_code(BinOpKind::Add, IrTy::F32) == 0x92u8,
        bin_op_code(BinOpKind::Sub, IrTy::F32) == 0x93u8,
        bin_op_code(BinOpKind::Mul, IrTy::F32) == 0x94u8,
        bin_op_code(BinOpKind::Div, IrTy::F32) == 0x95u8,
        bin_op_code(BinOpKind::Lt, IrTy::F32) == 0x5Du8,
        bin_op_code(BinOpKind::Gt, IrTy::F32) == 0x5Eu8,
        bin_op_code(BinOpKind::LtEq, IrTy::F32) == 0x5Fu8,
        bin_op_code(BinOpKind::GtEq, IrTy::F32) == 0x60u8,
        bin_op_code(BinOpKind::EqEq, IrTy::F32) == 0x5Bu8,
        bin_op_code(BinOpKind::NotEq, IrTy::F32) == 0x5Cu8,
{
}

} // verus!
