//! Code generation: from the intermediate representation to the bytes of a
//! WebAssembly module.
mod check;
pub mod laws;
pub mod op;
pub mod rules;
pub mod wasm;

pub use check::emittable;

use vstd::prelude::*;
use wasm_encoder::{CodeSection, ExportSection, Function, FunctionSection, ImportSection, TypeSection};
use crate::lower::ir::{self, IrTy};
use op::bin_op;
use rules::{SpecGen, ir_code, param_codes, result_codes};
use wasm::{
    assemble, code_add, code_entries, code_new, export_entries, exports_add_function, exports_new,
    function_entries, function_instrs, function_locals, function_new, funcs_add, funcs_new,
    import_entries, imports_add_function, imports_new, instr_call, instr_drop, instr_end,
    instr_i32_const, instr_local_get, instr_local_set, instr_return, type_entries, types_add_function,
    types_len, types_new, val_code, val_codes, ValTy,
};

verus! {

/// The sections being built, and the function types already in the type
/// section, in the same order.
pub struct Codegen {
    types: TypeSection,
    imports: ImportSection,
    funcs: FunctionSection,
    exports: ExportSection,
    code: CodeSection,
    func_sig_cache: Vec<(Vec<ValTy>, Vec<ValTy>)>,
}

pub open spec fn sig_codes(c: Seq<(Vec<ValTy>, Vec<ValTy>)>) -> Seq<(Seq<u8>, Seq<u8>)> {
    c.map_values(|s: (Vec<ValTy>, Vec<ValTy>)| (val_codes(s.0@), val_codes(s.1@)))
}

impl View for Codegen {
    type V = SpecGen;

    closed spec fn view(&self) -> SpecGen {
        SpecGen {
            types: type_entries(self.types),
            imports: import_entries(self.imports),
            funcs: function_entries(self.funcs),
            exports: export_entries(self.exports),
            code: code_entries(self.code),
        }
    }
}

impl Codegen {
    /// The cache holds exactly the types of the type section.
    pub closed spec fn wf(&self) -> bool {
        sig_codes(self.func_sig_cache@) == type_entries(self.types)
    }
}

/// Whether two lists of value types are equal.
fn same_vals(a: &Vec<ValTy>, b: &Vec<ValTy>) -> (r: bool)
    ensures
        r == (val_codes(a@) == val_codes(b@)),
{
    if a.len() != b.len() {
        assert(val_codes(a@).len() != val_codes(b@).len());
        return false;
    }
    let mut i: usize = 0;
    while i < a.len()
        invariant
            i <= a.len(),
            a.len() == b.len(),
            forall|j: int| 0 <= j < i ==> a@[j] == b@[j],
        decreases a.len() - i,
    {
        if a[i] != b[i] {
            assert(val_codes(a@)[i as int] != val_codes(b@)[i as int]);
            return false;
        }
        i = i + 1;
    }
    assert(a@ =~= b@);
    true
}

/// Emits a module that [`emittable`] accepts.
pub fn emit(module: ir::Module) -> (bytes: Vec<u8>)
    requires
        rules::emittable_module(module@),
    ensures
        bytes@ == rules::spec_emit(module@),
{
    let mut c = Codegen::new();
    c.emit_module(module)
}

impl Codegen {
    pub fn new() -> (c: Codegen)
        ensures
            c@ == SpecGen::empty(),
            c.wf(),
    {
        let c = Codegen {
            types: types_new(),
            imports: imports_new(),
            funcs: funcs_new(),
            exports: exports_new(),
            code: code_new(),
            func_sig_cache: Vec::new(),
        };
        assert(sig_codes(c.func_sig_cache@) =~= Seq::<(Seq<u8>, Seq<u8>)>::empty());
        c
    }

    fn val_ty(&self, ty: IrTy) -> (v: ValTy)
        requires
            !(ty is Void),
        ensures
            val_code(v) == ir_code(ty),
    {
        match ty {
            IrTy::F32 => ValTy::F32,
            _ => ValTy::I32,
        }
    }

    fn param_tys(&self, tys: &Vec<IrTy>) -> (v: Vec<ValTy>)
        requires
            rules::not_void(tys@),
        ensures
            val_codes(v@) == param_codes(tys@),
    {
        let mut v: Vec<ValTy> = Vec::new();
        let mut i: usize = 0;
        while i < tys.len()
            invariant
                i <= tys.len(),
                rules::not_void(tys@),
                val_codes(v@) =~= param_codes(tys@.take(i as int)),
            decreases tys.len() - i,
        {
            assert(!(tys@[i as int] is Void));
            let t = self.val_ty(tys[i]);
            let ghost old_v = v@;
            v.push(t);
            assert(val_codes(v@) =~= val_codes(old_v).push(val_code(t)));
            assert(tys@.take(i + 1) =~= tys@.take(i as int).push(tys@[i as int]));
            assert(param_codes(tys@.take(i + 1)) =~= param_codes(tys@.take(i as int)).push(ir_code(tys@[i as int])));
            i = i + 1;
        }
        assert(tys@.take(tys.len() as int) =~= tys@);
        v
    }

    fn result_tys(&self, ty: IrTy) -> (v: Vec<ValTy>)
        ensures
            val_codes(v@) == result_codes(ty),
    {
        let mut v: Vec<ValTy> = Vec::new();
        if !matches!(ty, IrTy::Void) {
            v.push(self.val_ty(ty));
        }
        assert(val_codes(v@) =~= result_codes(ty));
        v
    }

    /// The index of a function type, added to the type section when it is new.
    fn func_sig_index(&mut self, params: Vec<ValTy>, results: Vec<ValTy>) -> (idx: u32)
        requires
            old(self).wf(),
            type_entries(old(self).types).len() < u32::MAX,
        ensures
            final(self).wf(),
            (idx, final(self)@.types) == rules::sig_index(
                old(self)@.types,
                (val_codes(params@), val_codes(results@)),
            ),
            final(self)@ == (SpecGen { types: final(self)@.types, ..old(self)@ }),
            final(self)@.types.len() <= old(self)@.types.len() + 1,
    {
        let ghost sig = (val_codes(params@), val_codes(results@));
        let ghost ts = type_entries(self.types);
        let mut i: usize = 0;
        while i < self.func_sig_cache.len()
            invariant
                i <= self.func_sig_cache.len(),
                self.wf(),
                ts == type_entries(self.types),
                ts.len() == self.func_sig_cache.len(),
                ts.len() < u32::MAX,
                sig == (val_codes(params@), val_codes(results@)),
                rules::find_sig(ts, sig, i as int) == rules::find_sig(ts, sig, 0),
            decreases self.func_sig_cache.len() - i,
        {
            let entry = &self.func_sig_cache[i];
            assert(ts[i as int] == (val_codes(entry.0@), val_codes(entry.1@)));
            let a = same_vals(&entry.0, &params);
            let b = same_vals(&entry.1, &results);
            if a && b {
                assert(ts[i as int] == sig);
                return i as u32;
            }
            assert(ts[i as int] != sig);
            i = i + 1;
        }
        let idx = types_len(&self.types);
        types_add_function(&mut self.types, &params, &results);
        let ghost old_cache = self.func_sig_cache@;
        self.func_sig_cache.push((params, results));
        assert(sig_codes(self.func_sig_cache@) =~= sig_codes(old_cache).push(sig));
        idx
    }

    /// Pass 1: an import and its function type.
    fn declare_import(&mut self, import: &ir::ImportFunc)
        requires
            old(self).wf(),
            type_entries(old(self).types).len() < u32::MAX,
            import_entries(old(self).imports).len() < u32::MAX,
            rules::not_void(import.params@),
        ensures
            final(self).wf(),
            final(self)@ == rules::declare_import(old(self)@, import@),
            final(self)@.types.len() <= old(self)@.types.len() + 1,
    {
        let params = self.param_tys(&import.params);
        let results = self.result_tys(import.ret_ty);
        let index = self.func_sig_index(params, results);
        imports_add_function(&mut self.imports, import.module.as_str(), import.item.as_str(), index);
    }

    /// Pass 2: a function and its function type.
    fn declare_func(&mut self, func: &ir::Func)
        requires
            old(self).wf(),
            type_entries(old(self).types).len() < u32::MAX,
            function_entries(old(self).funcs).len() < u32::MAX,
            rules::not_void(func@.params.map_values(|p: ir::Param| p.ty)),
        ensures
            final(self).wf(),
            final(self)@ == rules::declare_func(old(self)@, func@),
            final(self)@.types.len() <= old(self)@.types.len() + 1,
    {
        let mut tys: Vec<IrTy> = Vec::new();
        let mut i: usize = 0;
        while i < func.params.len()
            invariant
                i <= func.params.len(),
                tys@ =~= func.params@.take(i as int).map_values(|p: ir::Param| p.ty),
            decreases func.params.len() - i,
        {
            tys.push(func.params[i].ty);
            i = i + 1;
        }
        assert(func.params@.take(func.params.len() as int) =~= func.params@);
        let params = self.param_tys(&tys);
        let results = self.result_tys(func.ret_ty);
        let index = self.func_sig_index(params, results);
        funcs_add(&mut self.funcs, index);
    }

    /// A function body: the locals, each statement, then `end`.
    fn emit_func(&mut self, func: &ir::Func)
        requires
            code_entries(old(self).code).len() < u32::MAX,
            rules::emittable_func(func@),
        ensures
            final(self)@ == (SpecGen {
                code: old(self)@.code.push((param_codes(func@.locals), rules::func_code(func@))),
                ..old(self)@
            }),
            final(self).func_sig_cache@ == old(self).func_sig_cache@,
            final(self).types == old(self).types,
    {
        let locals = self.param_tys(&func.locals);
        let mut func_body = function_new(&locals);
        let ghost ev = ir::exprs_view(func.body.exprs@);
        proof {
            ir::lemma_exprs_view(func.body.exprs@);
        }
        let mut i: usize = 0;
        while i < func.body.exprs.len()
            invariant
                i <= func.body.exprs.len(),
                ev == func@.body.exprs,
                ev.len() == func.body.exprs.len(),
                forall|k: int| 0 <= k < func.body.exprs.len() ==> #[trigger] ev[k] == func.body.exprs@[k]@,
                forall|k: int| 0 <= k < ev.len() ==> rules::emittable_expr(#[trigger] ev[k]),
                function_locals(func_body) == param_codes(func@.locals),
                function_instrs(func_body) + rules::stmts_code(ev, i as int) == rules::stmts_code(ev, 0),
            decreases func.body.exprs.len() - i,
        {
            assert(rules::emittable_expr(ev[i as int]));
            let ghost before = function_instrs(func_body);
            self.emit_stmt(&mut func_body, &func.body.exprs[i]);
            assert(before + rules::stmts_code(ev, i as int) =~= before + rules::stmt_code(ev[i as int])
                + rules::stmts_code(ev, i + 1));
            i = i + 1;
        }
        assert(function_instrs(func_body) =~= rules::stmts_code(ev, 0));
        instr_end(&mut func_body);
        code_add(&mut self.code, &func_body);
    }

    /// An expression in statement position: a value it leaves is dropped.
    fn emit_stmt(&self, body: &mut Function, expr: &ir::Expr)
        requires
            rules::emittable_expr(expr@),
        ensures
            function_locals(*final(body)) == function_locals(*old(body)),
            function_instrs(*final(body)) == function_instrs(*old(body)) + rules::stmt_code(expr@),
    {
        let ty = expr.ty();
        self.emit_expr(body, expr);
        if !matches!(ty, IrTy::Void) {
            instr_drop(body);
        }
    }

    #[verifier::loop_isolation(false)]
    fn emit_expr(&self, body: &mut Function, expr: &ir::Expr)
        requires
            rules::emittable_expr(expr@),
        ensures
            function_locals(*final(body)) == function_locals(*old(body)),
            function_instrs(*final(body)) == function_instrs(*old(body)) + rules::expr_code(expr@),
        decreases expr,
    {
        let ghost start = function_instrs(*body);
        match expr {
            ir::Expr::ConstInt(value) => {
                instr_i32_const(body, *value);
                assert(function_instrs(*body) =~= start + rules::expr_code(expr@));
            },
            ir::Expr::ConstBool(value) => {
                let v: i32 = if *value { 1 } else { 0 };
                instr_i32_const(body, v);
                assert(function_instrs(*body) =~= start + rules::expr_code(expr@));
            },
            ir::Expr::LocalGet(get) => {
                instr_local_get(body, get.id.0);
                assert(function_instrs(*body) =~= start + rules::expr_code(expr@));
            },
            ir::Expr::LocalSet(set) => {
                self.emit_expr(body, &set.value);
                instr_local_set(body, set.id.0);
                assert(function_instrs(*body) =~= start + rules::expr_code(expr@));
            },
            ir::Expr::Return(ret) => {
                match &ret.value {
                    Some(value) => {
                        self.emit_expr(body, value);
                    },
                    None => {},
                }
                instr_return(body);
                assert(function_instrs(*body) =~= start + rules::expr_code(expr@));
            },
            ir::Expr::Call(call) => {
                let ghost av = ir::exprs_view(call.args@);
                proof {
                    ir::lemma_exprs_view(call.args@);
                }
                let mut i: usize = 0;
                while i < call.args.len()
                    invariant
                        i <= call.args.len(),
                        av.len() == call.args.len(),
                        forall|k: int| 0 <= k < call.args.len() ==> #[trigger] av[k] == call.args@[k]@,
                        rules::emittable_exprs(av, i as int),
                        function_locals(*body) == function_locals(*old(body)),
                        function_instrs(*body) + rules::exprs_code(av, i as int) == start + rules::exprs_code(av, 0),
                    decreases call.args.len() - i,
                {
                    assert(decreases_to!(*expr => *call));
                    assert(decreases_to!(*call => call.args));
                    assert(decreases_to!(call.args => call.args@));
                    assert(decreases_to!(call.args@ => call.args@[i as int]));
                    let ghost before = function_instrs(*body);
                    self.emit_expr(body, &call.args[i]);
                    assert(before + rules::exprs_code(av, i as int) =~= before + rules::expr_code(av[i as int])
                        + rules::exprs_code(av, i + 1));
                    i = i + 1;
                }
                assert(function_instrs(*body) =~= start + rules::exprs_code(av, 0));
                instr_call(body, call.func.0);
                assert(function_instrs(*body) =~= start + rules::expr_code(expr@));
            },
            ir::Expr::Binary(binary) => {
                let operand_ty = binary.left.ty();
                self.emit_expr(body, &binary.left);
                self.emit_expr(body, &binary.right);
                bin_op(body, binary.op, operand_ty);
                assert(function_instrs(*body) =~= start + rules::expr_code(expr@));
            },
            _ => {},
        }
    }

    pub fn emit_module(&mut self, module: ir::Module) -> (bytes: Vec<u8>)
        requires
            old(self)@ == SpecGen::empty(),
            old(self).wf(),
            rules::emittable_module(module@),
        ensures
            bytes@ == rules::spec_emit(module@),
    {
        let ghost m = module@;
        // pass 1: declare imports
        let mut i: usize = 0;
        while i < module.imports.len()
            invariant
                i <= module.imports.len(),
                m == module@,
                rules::emittable_module(m),
                self.wf(),
                self@.imports.len() == i,
                self@.types.len() <= i,
                self@.funcs.len() == 0,
                self@.exports.len() == 0,
                self@.code.len() == 0,
                rules::declare_imports(self@, m.imports, i as int) == rules::declare_imports(
                    SpecGen::empty(),
                    m.imports,
                    0,
                ),
            decreases module.imports.len() - i,
        {
            assert(m.imports[i as int] == module.imports@[i as int]@);
            assert(rules::not_void(m.imports[i as int].params));
            self.declare_import(&module.imports[i]);
            i = i + 1;
        }
        let ghost g1 = self@;
        // pass 2: cache function signatures
        let mut j: usize = 0;
        while j < module.funcs.len()
            invariant
                j <= module.funcs.len(),
                m == module@,
                rules::emittable_module(m),
                self.wf(),
                self@.imports.len() == m.imports.len(),
                self@.types.len() <= m.imports.len() + j,
                self@.funcs.len() == j,
                self@.exports.len() == 0,
                self@.code.len() == 0,
                rules::declare_funcs(self@, m.funcs, j as int) == rules::declare_funcs(g1, m.funcs, 0),
            decreases module.funcs.len() - j,
        {
            assert(m.funcs[j as int] == module.funcs@[j as int]@);
            assert(rules::emittable_func(m.funcs[j as int]));
            self.declare_func(&module.funcs[j]);
            j = j + 1;
        }
        let ghost g2 = self@;
        assert(g2 == rules::declare_funcs(g1, m.funcs, 0));
        proof {
            reveal_strlit("main");
        }
        match module.entry {
            Some(entry) => {
                let name = "main";
                proof {
                    reveal_strlit("main");
                }
                assert(name@ =~= rules::main_name());
                exports_add_function(&mut self.exports, name, entry.0);
                assert(self@.exports == g2.exports.push((rules::main_name(), entry.0)));
                assert(self@ == (SpecGen { exports: g2.exports.push((rules::main_name(), entry.0)), ..g2 }));
            },
            None => {},
        }
        let ghost g3 = self@;
        assert(g3 == rules::export_entry(rules::declare_funcs(g1, m.funcs, 0), m.entry));
        // pass 3: emit function bodies
        let mut k: usize = 0;
        while k < module.funcs.len()
            invariant
                k <= module.funcs.len(),
                m == module@,
                rules::emittable_module(m),
                self@.code.len() == k,
                rules::emit_bodies(self@, m.funcs, k as int) == rules::emit_bodies(g3, m.funcs, 0),
            decreases module.funcs.len() - k,
        {
            assert(m.funcs[k as int] == module.funcs@[k as int]@);
            assert(rules::emittable_func(m.funcs[k as int]));
            self.emit_func(&module.funcs[k]);
            k = k + 1;
        }
        assemble(&self.types, &self.imports, &self.funcs, &self.exports, &self.code)
    }
}

} // verus!
