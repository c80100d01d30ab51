//! What code generation puts in each section, and on which modules it is defined.
use vstd::prelude::*;
use crate::common::op::BinOpKind;
use crate::lower::ir::{self, FuncId, IrTy};
use super::wasm::module_bytes;

verus! {

/// The sections being built, by their contents.
pub struct SpecGen {
    pub types: Seq<(Seq<u8>, Seq<u8>)>,
    pub imports: Seq<(Seq<char>, Seq<char>, u32)>,
    pub funcs: Seq<u32>,
    pub exports: Seq<(Seq<char>, u32)>,
    pub code: Seq<(Seq<u8>, Seq<(u8, i64)>)>,
}

impl SpecGen {
    pub open spec fn empty() -> SpecGen {
        SpecGen {
            types: Seq::empty(),
            imports: Seq::empty(),
            funcs: Seq::empty(),
            exports: Seq::empty(),
            code: Seq::empty(),
        }
    }
}

/// The binary code of a value type (`Void` has none and never reaches it).
pub open spec fn ir_code(t: IrTy) -> u8 {
    match t {
        IrTy::I32 => 0x7F,
        IrTy::F32 => 0x7D,
        IrTy::Void => 0x40,
    }
}

pub open spec fn param_codes(ts: Seq<IrTy>) -> Seq<u8> {
    ts.map_values(|t: IrTy| ir_code(t))
}

/// No result for `Void`, else one.
pub open spec fn result_codes(t: IrTy) -> Seq<u8> {
    if t is Void {
        Seq::empty()
    } else {
        seq![ir_code(t)]
    }
}

/// The first index from `i` of a type equal to `sig`.
pub open spec fn find_sig(types: Seq<(Seq<u8>, Seq<u8>)>, sig: (Seq<u8>, Seq<u8>), i: int) -> Option<int>
    decreases types.len() - i,
{
    if i < 0 || i >= types.len() {
        None
    } else if types[i] == sig {
        Some(i)
    } else {
        find_sig(types, sig, i + 1)
    }
}

/// The index of a function type, added last when it is new: each distinct
/// type is in the section once.
pub open spec fn sig_index(types: Seq<(Seq<u8>, Seq<u8>)>, sig: (Seq<u8>, Seq<u8>)) -> (u32, Seq<(Seq<u8>, Seq<u8>)>) {
    match find_sig(types, sig, 0) {
        Some(i) => (i as u32, types),
        None => (types.len() as u32, types.push(sig)),
    }
}

// ---- the instructions of an expression ----

/// The opcode of the `i32` instruction for a binary operator
/// (ordering on signed values, division signed).
pub open spec fn i32_opcode(op: BinOpKind) -> u8 {
    match op {
        BinOpKind::Add => 0x6A,
        BinOpKind::Sub => 0x6B,
        BinOpKind::Mul => 0x6C,
        BinOpKind::Div => 0x6D,
        BinOpKind::Lt => 0x48,
        BinOpKind::Gt => 0x4A,
        BinOpKind::LtEq => 0x4C,
        BinOpKind::GtEq => 0x4E,
        BinOpKind::EqEq => 0x46,
        BinOpKind::NotEq => 0x47,
        BinOpKind::And => 0x71,
        BinOpKind::Or => 0x72,
    }
}

/// The opcode of the `f32` instruction for an arithmetic or comparison operator.
pub open spec fn f32_opcode(op: BinOpKind) -> u8 {
    match op {
        BinOpKind::Add => 0x92,
        BinOpKind::Sub => 0x93,
        BinOpKind::Mul => 0x94,
        BinOpKind::Div => 0x95,
        BinOpKind::Lt => 0x5D,
        BinOpKind::Gt => 0x5E,
        BinOpKind::LtEq => 0x5F,
        BinOpKind::GtEq => 0x60,
        BinOpKind::EqEq => 0x5B,
        BinOpKind::NotEq => 0x5C,
        _ => 0x00,
    }
}

/// The opcode of a binary operator on operands of a type.
pub open spec fn bin_op_code(op: BinOpKind, ty: IrTy) -> u8 {
    if ty is F32 {
        f32_opcode(op)
    } else {
        i32_opcode(op)
    }
}

/// The operator has an instruction for operands of the type.
pub open spec fn bin_op_ok(op: BinOpKind, ty: IrTy) -> bool {
    ty is I32 || (ty is F32 && !(op is And || op is Or))
}

pub open spec fn emittable_expr(e: ir::SpecExpr) -> bool
    decreases e, 0int,
{
    match e {
        ir::SpecExpr::ConstInt(_) => true,
        ir::SpecExpr::ConstBool(_) => true,
        ir::SpecExpr::LocalGet { .. } => true,
        ir::SpecExpr::LocalSet { value, .. } => emittable_expr(*value),
        ir::SpecExpr::Return { value } => match value {
            Some(v) => emittable_expr(*v),
            None => true,
        },
        ir::SpecExpr::Call { args, .. } => emittable_exprs(args, 0),
        ir::SpecExpr::Binary { op, left, right, .. } => bin_op_ok(op, left.ty()) && emittable_expr(*left)
            && emittable_expr(*right),
        _ => false,
    }
}

pub open spec fn emittable_exprs(es: Seq<ir::SpecExpr>, i: int) -> bool
    decreases es, es.len() - i,
{
    if i < 0 || i >= es.len() {
        true
    } else {
        emittable_expr(es[i]) && emittable_exprs(es, i + 1)
    }
}

pub open spec fn expr_code(e: ir::SpecExpr) -> Seq<(u8, i64)>
    decreases e, 0int,
{
    match e {
        ir::SpecExpr::ConstInt(v) => seq![(0x41u8, v as i64)],
        ir::SpecExpr::ConstBool(b) => seq![(0x41u8, if b { 1i64 } else { 0i64 })],
        ir::SpecExpr::LocalGet { id, .. } => seq![(0x20u8, id.0 as i64)],
        ir::SpecExpr::LocalSet { id, value } => expr_code(*value).push((0x21u8, id.0 as i64)),
        ir::SpecExpr::Return { value } => match value {
            Some(v) => expr_code(*v).push((0x0Fu8, 0i64)),
            None => seq![(0x0Fu8, 0i64)],
        },
        ir::SpecExpr::Call { func, args, .. } => exprs_code(args, 0).push((0x10u8, func.0 as i64)),
        ir::SpecExpr::Binary { op, left, right, .. } => (expr_code(*left) + expr_code(*right)).push(
            (bin_op_code(op, left.ty()), 0i64),
        ),
        _ => Seq::empty(),
    }
}

/// The instructions of the expressions from `i` on, one after the other.
pub open spec fn exprs_code(es: Seq<ir::SpecExpr>, i: int) -> Seq<(u8, i64)>
    decreases es, es.len() - i,
{
    if i < 0 || i >= es.len() {
        Seq::empty()
    } else {
        expr_code(es[i]) + exprs_code(es, i + 1)
    }
}

/// An expression in statement position: a value it leaves is dropped.
pub open spec fn stmt_code(e: ir::SpecExpr) -> Seq<(u8, i64)> {
    if e.ty() is Void {
        expr_code(e)
    } else {
        expr_code(e).push((0x1Au8, 0i64))
    }
}

pub open spec fn stmts_code(es: Seq<ir::SpecExpr>, i: int) -> Seq<(u8, i64)>
    decreases es.len() - i,
{
    if i < 0 || i >= es.len() {
        Seq::empty()
    } else {
        stmt_code(es[i]) + stmts_code(es, i + 1)
    }
}

/// A function body: its statements, then `end`.
pub open spec fn func_code(f: ir::SpecFunc) -> Seq<(u8, i64)> {
    stmts_code(f.body.exprs, 0).push((0x0Bu8, 0i64))
}

// ---- the module ----

pub open spec fn not_void(ts: Seq<IrTy>) -> bool {
    forall|i: int| 0 <= i < ts.len() ==> !(#[trigger] ts[i] is Void)
}

pub open spec fn emittable_func(f: ir::SpecFunc) -> bool {
    &&& not_void(f.params.map_values(|p: ir::Param| p.ty))
    &&& not_void(f.locals)
    &&& forall|i: int| 0 <= i < f.body.exprs.len() ==> emittable_expr(#[trigger] f.body.exprs[i])
}

/// The modules that code generation is defined on: every type it meets has a
/// value type, every expression has an instruction, and the sections fit
/// their 32-bit counts.
pub open spec fn emittable_module(m: ir::SpecModule) -> bool {
    &&& forall|i: int| 0 <= i < m.imports.len() ==> not_void(#[trigger] m.imports[i].params)
    &&& forall|i: int| 0 <= i < m.funcs.len() ==> emittable_func(#[trigger] m.funcs[i])
    &&& m.imports.len() + m.funcs.len() < u32::MAX
}

pub open spec fn declare_import(g: SpecGen, imp: ir::SpecImportFunc) -> SpecGen {
    let (idx, types) = sig_index(g.types, (param_codes(imp.params), result_codes(imp.ret_ty)));
    SpecGen { types, imports: g.imports.push((imp.module, imp.item, idx)), ..g }
}

pub open spec fn declare_imports(g: SpecGen, imps: Seq<ir::SpecImportFunc>, i: int) -> SpecGen
    decreases imps.len() - i,
{
    if i < 0 || i >= imps.len() {
        g
    } else {
        declare_imports(declare_import(g, imps[i]), imps, i + 1)
    }
}

pub open spec fn declare_func(g: SpecGen, f: ir::SpecFunc) -> SpecGen {
    let (idx, types) = sig_index(
        g.types,
        (param_codes(f.params.map_values(|p: ir::Param| p.ty)), result_codes(f.ret_ty)),
    );
    SpecGen { types, funcs: g.funcs.push(idx), ..g }
}

pub open spec fn declare_funcs(g: SpecGen, fs: Seq<ir::SpecFunc>, i: int) -> SpecGen
    decreases fs.len() - i,
{
    if i < 0 || i >= fs.len() {
        g
    } else {
        declare_funcs(declare_func(g, fs[i]), fs, i + 1)
    }
}

pub open spec fn main_name() -> Seq<char> {
    seq!['m', 'a', 'i', 'n']
}

pub open spec fn export_entry(g: SpecGen, entry: Option<FuncId>) -> SpecGen {
    match entry {
        Some(id) => SpecGen { exports: g.exports.push((main_name(), id.0)), ..g },
        None => g,
    }
}

pub open spec fn emit_bodies(g: SpecGen, fs: Seq<ir::SpecFunc>, i: int) -> SpecGen
    decreases fs.len() - i,
{
    if i < 0 || i >= fs.len() {
        g
    } else {
        emit_bodies(
            SpecGen { code: g.code.push((param_codes(fs[i].locals), func_code(fs[i]))), ..g },
            fs,
            i + 1,
        )
    }
}

/// The sections: pass 1 declares the imports, pass 2 the functions (each
/// signature once in the type section), then `main` is exported, then the
/// bodies are emitted.
pub open spec fn spec_sections(m: ir::SpecModule) -> SpecGen {
    let g1 = declare_imports(SpecGen::empty(), m.imports, 0);
    let g2 = declare_funcs(g1, m.funcs, 0);
    let g3 = export_entry(g2, m.entry);
    emit_bodies(g3, m.funcs, 0)
}

pub open spec fn spec_emit(m: ir::SpecModule) -> Seq<u8> {
    let g = spec_sections(m);
    module_bytes(g.types, g.imports, g.funcs, g.exports, g.code)
}

} // verus!
