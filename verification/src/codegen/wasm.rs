//! The sections of a WebAssembly module, built with `wasm_encoder`.
//!
//! Each section is a collection: its contents are named below as sequences
//! of plain values. A value type stands as its binary code (`0x7F` for
//! `i32`, `0x7D` for `f32`); an instruction as its opcode and immediate
//! (`0` where it has none).
use vstd::prelude::*;
use wasm_encoder::{
    CodeSection, EntityType, ExportKind, ExportSection, Function, FunctionSection, ImportSection, Instruction,
    Module, TypeSection, ValType,
};

verus! {

/// A value type of the generated code.
#[derive(Debug, Clone, Copy, PartialEq, Eq, Structural)]
pub enum ValTy {
    I32,
    F32,
}

/// The binary code of a value type.
pub open spec fn val_code(t: ValTy) -> u8 {
    match t {
        ValTy::I32 => 0x7F,
        ValTy::F32 => 0x7D,
    }
}

pub open spec fn val_codes(ts: Seq<ValTy>) -> Seq<u8> {
    ts.map_values(|t: ValTy| val_code(t))
}

#[verifier::external_type_specification]
#[verifier::external_body]
pub struct ExTypeSection(TypeSection);

#[verifier::external_type_specification]
#[verifier::external_body]
pub struct ExImportSection(ImportSection);

#[verifier::external_type_specification]
#[verifier::external_body]
pub struct ExFunctionSection(FunctionSection);

#[verifier::external_type_specification]
#[verifier::external_body]
pub struct ExExportSection(ExportSection);

#[verifier::external_type_specification]
#[verifier::external_body]
pub struct ExCodeSection(CodeSection);

#[verifier::external_type_specification]
#[verifier::external_body]
pub struct ExFunction(Function);

/// The function types of a type section: parameter and result codes, in order.
pub uninterp spec fn type_entries(s: TypeSection) -> Seq<(Seq<u8>, Seq<u8>)>;

/// The function imports of an import section: module, name and type index.
pub uninterp spec fn import_entries(s: ImportSection) -> Seq<(Seq<char>, Seq<char>, u32)>;

/// The type indices of a function section.
pub uninterp spec fn function_entries(s: FunctionSection) -> Seq<u32>;

/// The function exports of an export section: name and function index.
pub uninterp spec fn export_entries(s: ExportSection) -> Seq<(Seq<char>, u32)>;

/// The bodies of a code section: local types and instructions.
pub uninterp spec fn code_entries(s: CodeSection) -> Seq<(Seq<u8>, Seq<(u8, i64)>)>;

/// The local types of a function body, one code per local.
pub uninterp spec fn function_locals(f: Function) -> Seq<u8>;

/// The instructions of a function body, in order.
pub uninterp spec fn function_instrs(f: Function) -> Seq<(u8, i64)>;

/// The bytes of a module made of these sections, in this order: types,
/// imports, functions, exports, code.
pub uninterp spec fn module_bytes(
    types: Seq<(Seq<u8>, Seq<u8>)>,
    imports: Seq<(Seq<char>, Seq<char>, u32)>,
    funcs: Seq<u32>,
    exports: Seq<(Seq<char>, u32)>,
    code: Seq<(Seq<u8>, Seq<(u8, i64)>)>,
) -> Seq<u8>;

/// `TypeSection::new`: no types.
#[verifier::external_body]
pub(crate) fn types_new() -> (s: TypeSection)
    ensures
        type_entries(s) == Seq::<(Seq<u8>, Seq<u8>)>::empty(),
{
    TypeSection::new()
}

/// `TypeSection::len`: the number of types.
#[verifier::external_body]
pub(crate) fn types_len(s: &TypeSection) -> (n: u32)
    requires
        type_entries(*s).len() <= u32::MAX,
    ensures
        n == type_entries(*s).len(),
{
    s.len()
}

/// `TypeSection::ty().function(..)`: a function type goes last.
#[verifier::external_body]
pub(crate) fn types_add_function(s: &mut TypeSection, params: &Vec<ValTy>, results: &Vec<ValTy>)
    requires
        type_entries(*old(s)).len() < u32::MAX,
    ensures
        type_entries(*final(s)) == type_entries(*old(s)).push((val_codes(params@), val_codes(results@))),
{
    let conv = |t: &ValTy| match t {
        ValTy::I32 => ValType::I32,
        ValTy::F32 => ValType::F32,
    };
    s.ty().function(params.iter().map(conv), results.iter().map(conv));
}

/// `ImportSection::new`: no imports.
#[verifier::external_body]
pub(crate) fn imports_new() -> (s: ImportSection)
    ensures
        import_entries(s) == Seq::<(Seq<char>, Seq<char>, u32)>::empty(),
{
    ImportSection::new()
}

/// `ImportSection::import` of a function of the given type: it goes last.
#[verifier::external_body]
pub(crate) fn imports_add_function(s: &mut ImportSection, module: &str, name: &str, type_index: u32)
    requires
        import_entries(*old(s)).len() < u32::MAX,
    ensures
        import_entries(*final(s)) == import_entries(*old(s)).push((module@, name@, type_index)),
{
    s.import(module, name, EntityType::Function(type_index));
}

/// `FunctionSection::new`: no functions.
#[verifier::external_body]
pub(crate) fn funcs_new() -> (s: FunctionSection)
    ensures
        function_entries(s) == Seq::<u32>::empty(),
{
    FunctionSection::new()
}

/// `FunctionSection::function`: a function of the given type goes last.
#[verifier::external_body]
pub(crate) fn funcs_add(s: &mut FunctionSection, type_index: u32)
    requires
        function_entries(*old(s)).len() < u32::MAX,
    ensures
        function_entries(*final(s)) == function_entries(*old(s)).push(type_index),
{
    s.function(type_index);
}

/// `ExportSection::new`: no exports.
#[verifier::external_body]
pub(crate) fn exports_new() -> (s: ExportSection)
    ensures
        export_entries(s) == Seq::<(Seq<char>, u32)>::empty(),
{
    ExportSection::new()
}

/// `ExportSection::export` of a function: it goes last.
#[verifier::external_body]
pub(crate) fn exports_add_function(s: &mut ExportSection, name: &str, index: u32)
    requires
        export_entries(*old(s)).len() < u32::MAX,
    ensures
        export_entries(*final(s)) == export_entries(*old(s)).push((name@, index)),
{
    s.export(name, ExportKind::Func, index);
}

/// `CodeSection::new`: no bodies.
#[verifier::external_body]
pub(crate) fn code_new() -> (s: CodeSection)
    ensures
        code_entries(s) == Seq::<(Seq<u8>, Seq<(u8, i64)>)>::empty(),
{
    CodeSection::new()
}

/// `CodeSection::function`: the body goes last.
#[verifier::external_body]
pub(crate) fn code_add(s: &mut CodeSection, f: &Function)
    requires
        code_entries(*old(s)).len() < u32::MAX,
    ensures
        code_entries(*final(s)) == code_entries(*old(s)).push((function_locals(*f), function_instrs(*f))),
{
    s.function(f);
}

/// `Function::new_with_locals_types`: a body with these locals and no instructions.
#[verifier::external_body]
pub(crate) fn function_new(locals: &Vec<ValTy>) -> (f: Function)
    ensures
        function_locals(f) == val_codes(locals@),
        function_instrs(f) == Seq::<(u8, i64)>::empty(),
{
    Function::new_with_locals_types(locals.iter().map(|t: &ValTy| match t {
        ValTy::I32 => ValType::I32,
        ValTy::F32 => ValType::F32,
    }))
}

/// `Function::instruction` with `i32.const`.
#[verifier::external_body]
pub(crate) fn instr_i32_const(f: &mut Function, value: i32)
    ensures
        function_locals(*final(f)) == function_locals(*old(f)),
        function_instrs(*final(f)) == function_instrs(*old(f)).push((0x41u8, value as i64)),
{
    f.instruction(&Instruction::I32Const(value));
}

/// `Function::instruction` with `local.get`.
#[verifier::external_body]
pub(crate) fn instr_local_get(f: &mut Function, index: u32)
    ensures
        function_locals(*final(f)) == function_locals(*old(f)),
        function_instrs(*final(f)) == function_instrs(*old(f)).push((0x20u8, index as i64)),
{
    f.instruction(&Instruction::LocalGet(index));
}

/// `Function::instruction` with `local.set`.
#[verifier::external_body]
pub(crate) fn instr_local_set(f: &mut Function, index: u32)
    ensures
        function_locals(*final(f)) == function_locals(*old(f)),
        function_instrs(*final(f)) == function_instrs(*old(f)).push((0x21u8, index as i64)),
{
    f.instruction(&Instruction::LocalSet(index));
}

/// `Function::instruction` with `call`.
#[verifier::external_body]
pub(crate) fn instr_call(f: &mut Function, index: u32)
    ensures
        function_locals(*final(f)) == function_locals(*old(f)),
        function_instrs(*final(f)) == function_instrs(*old(f)).push((0x10u8, index as i64)),
{
    f.instruction(&Instruction::Call(index));
}

/// `Function::instruction` with `return`.
#[verifier::external_body]
pub(crate) fn instr_return(f: &mut Function)
    ensures
        function_locals(*final(f)) == function_locals(*old(f)),
        function_instrs(*final(f)) == function_instrs(*old(f)).push((0x0Fu8, 0i64)),
{
    f.instruction(&Instruction::Return);
}

/// `Function::instruction` with `drop`.
#[verifier::external_body]
pub(crate) fn instr_drop(f: &mut Function)
    ensures
        function_locals(*final(f)) == function_locals(*old(f)),
        function_instrs(*final(f)) == function_instrs(*old(f)).push((0x1Au8, 0i64)),
{
    f.instruction(&Instruction::Drop);
}

/// `Function::instruction` with `end`.
#[verifier::external_body]
pub(crate) fn instr_end(f: &mut Function)
    ensures
        function_locals(*final(f)) == function_locals(*old(f)),
        function_instrs(*final(f)) == function_instrs(*old(f)).push((0x0Bu8, 0i64)),
{
    f.instruction(&Instruction::End);
}

/// `Function::instruction` with `i32.add`.
#[verifier::external_body]
pub(crate) fn instr_i32_add(f: &mut Function)
    ensures
        function_locals(*final(f)) == function_locals(*old(f)),
        function_instrs(*final(f)) == function_instrs(*old(f)).push((0x6Au8, 0i64)),
{
    f.instruction(&Instruction::I32Add);
}

/// `Function::instruction` with `i32.sub`.
#[verifier::external_body]
pub(crate) fn instr_i32_sub(f: &mut Function)
    ensures
        function_locals(*final(f)) == function_locals(*old(f)),
        function_instrs(*final(f)) == function_instrs(*old(f)).push((0x6Bu8, 0i64)),
{
    f.instruction(&Instruction::I32Sub);
}

/// `Function::instruction` with `i32.mul`.
#[verifier::external_body]
pub(crate) fn instr_i32_mul(f: &mut Function)
    ensures
        function_locals(*final(f)) == function_locals(*old(f)),
        function_instrs(*final(f)) == function_instrs(*old(f)).push((0x6Cu8, 0i64)),
{
    f.instruction(&Instruction::I32Mul);
}

/// `Function::instruction` with `i32.div_s`.
#[verifier::external_body]
pub(crate) fn instr_i32_div_s(f: &mut Function)
    ensures
        function_locals(*final(f)) == function_locals(*old(f)),
        function_instrs(*final(f)) == function_instrs(*old(f)).push((0x6Du8, 0i64)),
{
    f.instruction(&Instruction::I32DivS);
}

/// `Function::instruction` with `i32.lt_s`.
#[verifier::external_body]
pub(crate) fn instr_i32_lt_s(f: &mut Function)
    ensures
        function_locals(*final(f)) == function_locals(*old(f)),
        function_instrs(*final(f)) == function_instrs(*old(f)).push((0x48u8, 0i64)),
{
    f.instruction(&Instruction::I32LtS);
}

/// `Function::instruction` with `i32.gt_s`.
#[verifier::external_body]
pub(crate) fn instr_i32_gt_s(f: &mut Function)
    ensures
        function_locals(*final(f)) == function_locals(*old(f)),
        function_instrs(*final(f)) == function_instrs(*old(f)).push((0x4Au8, 0i64)),
{
    f.instruction(&Instruction::I32GtS);
}

/// `Function::instruction` with `i32.le_s`.
#[verifier::external_body]
pub(crate) fn instr_i32_le_s(f: &mut Function)
    ensures
        function_locals(*final(f)) == function_locals(*old(f)),
        function_instrs(*final(f)) == function_instrs(*old(f)).push((0x4Cu8, 0i64)),
{
    f.instruction(&Instruction::I32LeS);
}

/// `Function::instruction` with `i32.ge_s`.
#[verifier::external_body]
pub(crate) fn instr_i32_ge_s(f: &mut Function)
    ensures
        function_locals(*final(f)) == function_locals(*old(f)),
        function_instrs(*final(f)) == function_instrs(*old(f)).push((0x4Eu8, 0i64)),
{
    f.instruction(&Instruction::I32GeS);
}

/// `Function::instruction` with `i32.eq`.
#[verifier::external_body]
pub(crate) fn instr_i32_eq(f: &mut Function)
    ensures
        function_locals(*final(f)) == function_locals(*old(f)),
        function_instrs(*final(f)) == function_instrs(*old(f)).push((0x46u8, 0i64)),
{
    f.instruction(&Instruction::I32Eq);
}

/// `Function::instruction` with `i32.ne`.
#[verifier::external_body]
pub(crate) fn instr_i32_ne(f: &mut Function)
    ensures
        function_locals(*final(f)) == function_locals(*old(f)),
        function_instrs(*final(f)) == function_instrs(*old(f)).push((0x47u8, 0i64)),
{
    f.instruction(&Instruction::I32Ne);
}

/// `Function::instruction` with `i32.and`.
#[verifier::external_body]
pub(crate) fn instr_i32_and(f: &mut Function)
    ensures
        function_locals(*final(f)) == function_locals(*old(f)),
        function_instrs(*final(f)) == function_instrs(*old(f)).push((0x71u8, 0i64)),
{
    f.instruction(&Instruction::I32And);
}

/// `Function::instruction` with `i32.or`.
#[verifier::external_body]
pub(crate) fn instr_i32_or(f: &mut Function)
    ensures
        function_locals(*final(f)) == function_locals(*old(f)),
        function_instrs(*final(f)) == function_instrs(*old(f)).push((0x72u8, 0i64)),
{
    f.instruction(&Instruction::I32Or);
}

/// `Function::instruction` with `f32.add`.
#[verifier::external_body]
pub(crate) fn instr_f32_add(f: &mut Function)
    ensures
        function_locals(*final(f)) == function_locals(*old(f)),
        function_instrs(*final(f)) == function_instrs(*old(f)).push((0x92u8, 0i64)),
{
    f.instruction(&Instruction::F32Add);
}

/// `Function::instruction` with `f32.sub`.
#[verifier::external_body]
pub(crate) fn instr_f32_sub(f: &mut Function)
    ensures
        function_locals(*final(f)) == function_locals(*old(f)),
        function_instrs(*final(f)) == function_instrs(*old(f)).push((0x93u8, 0i64)),
{
    f.instruction(&Instruction::F32Sub);
}

/// `Function::instruction` with `f32.mul`.
#[verifier::external_body]
pub(crate) fn instr_f32_mul(f: &mut Function)
    ensures
        function_locals(*final(f)) == function_locals(*old(f)),
        function_instrs(*final(f)) == function_instrs(*old(f)).push((0x94u8, 0i64)),
{
    f.instruction(&Instruction::F32Mul);
}

/// `Function::instruction` with `f32.div`.
#[verifier::external_body]
pub(crate) fn instr_f32_div(f: &mut Function)
    ensures
        function_locals(*final(f)) == function_locals(*old(f)),
        function_instrs(*final(f)) == function_instrs(*old(f)).push((0x95u8, 0i64)),
{
    f.instruction(&Instruction::F32Div);
}

/// `Function::instruction` with `f32.lt`.
#[verifier::external_body]
pub(crate) fn instr_f32_lt(f: &mut Function)
    ensures
        function_locals(*final(f)) == function_locals(*old(f)),
        function_instrs(*final(f)) == function_instrs(*old(f)).push((0x5Du8, 0i64)),
{
    f.instruction(&Instruction::F32Lt);
}

/// `Function::instruction` with `f32.gt`.
#[verifier::external_body]
pub(crate) fn instr_f32_gt(f: &mut Function)
    ensures
        function_locals(*final(f)) == function_locals(*old(f)),
        function_instrs(*final(f)) == function_instrs(*old(f)).push((0x5Eu8, 0i64)),
{
    f.instruction(&Instruction::F32Gt);
}

/// `Function::instruction` with `f32.le`.
#[verifier::external_body]
pub(crate) fn instr_f32_le(f: &mut Function)
    ensures
        function_locals(*final(f)) == function_locals(*old(f)),
        function_instrs(*final(f)) == function_instrs(*old(f)).push((0x5Fu8, 0i64)),
{
    f.instruction(&Instruction::F32Le);
}

/// `Function::instruction` with `f32.ge`.
#[verifier::external_body]
pub(crate) fn instr_f32_ge(f: &mut Function)
    ensures
        function_locals(*final(f)) == function_locals(*old(f)),
        function_instrs(*final(f)) == function_instrs(*old(f)).push((0x60u8, 0i64)),
{
    f.instruction(&Instruction::F32Ge);
}

/// `Function::instruction` with `f32.eq`.
#[verifier::external_body]
pub(crate) fn instr_f32_eq(f: &mut Function)
    ensures
        function_locals(*final(f)) == function_locals(*old(f)),
        function_instrs(*final(f)) == function_instrs(*old(f)).push((0x5Bu8, 0i64)),
{
    f.instruction(&Instruction::F32Eq);
}

/// `Function::instruction` with `f32.ne`.
#[verifier::external_body]
pub(crate) fn instr_f32_ne(f: &mut Function)
    ensures
        function_locals(*final(f)) == function_locals(*old(f)),
        function_instrs(*final(f)) == function_instrs(*old(f)).push((0x5Cu8, 0i64)),
{
    f.instruction(&Instruction::F32Ne);
}

/// `Module::new`, then each section in turn, then `Module::finish`.
#[verifier::external_body]
pub(crate) fn assemble(
    types: &TypeSection,
    imports: &ImportSection,
    funcs: &FunctionSection,
    exports: &ExportSection,
    code: &CodeSection,
) -> (bytes: Vec<u8>)
    ensures
        bytes@ == module_bytes(
            type_entries(*types),
            import_entries(*imports),
            function_entries(*funcs),
            export_entries(*exports),
            code_entries(*code),
        ),
{
    let mut m = Module::new();
    m.section(types).section(imports).section(funcs).section(exports).section(code);
    m.finish()
}

} // verus!
