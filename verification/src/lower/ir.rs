//! The intermediate representation between the typed tree and WebAssembly,
//! and its model.
use vstd::prelude::*;
use crate::common::op::{BinOpKind, UnaryOpKind};

verus! {

#[derive(Debug, Clone, Copy, PartialEq, Eq, Structural)]
pub struct LocalId(pub u32);

#[derive(Debug, Clone, Copy, PartialEq, Eq, Structural)]
pub struct FuncId(pub u32);

/// The value types of the representation; `Void` has no WebAssembly value.
#[derive(Debug, Clone, Copy, PartialEq, Eq, Structural)]
pub enum IrTy {
    I32,
    F32,
    Void,
}

/// The index of a heap type in its module.
#[derive(Debug, Clone, Copy, PartialEq, Eq, Structural)]
pub struct TypeId(pub u32);

/// A type whose values live on the heap.
#[derive(Debug)]
pub enum HeapType {
    Struct { fields: Vec<IrTy> },
}

#[derive(Debug)]
pub struct Module {
    pub heap_types: Vec<HeapType>,
    pub imports: Vec<ImportFunc>,
    pub funcs: Vec<Func>,
    pub entry: Option<FuncId>,
}

/// A function that the host provides as `module.item`.
#[derive(Debug)]
pub struct ImportFunc {
    pub module: String,
    pub item: String,
    pub params: Vec<IrTy>,
    pub ret_ty: IrTy,
}

#[derive(Debug)]
pub struct Func {
    pub id: FuncId,
    pub params: Vec<Param>,
    /// The types of the locals declared in the body, in the order they were lowered.
    pub locals: Vec<IrTy>,
    pub ret_ty: IrTy,
    pub body: Block,
}

#[derive(Debug, Clone, Copy, PartialEq, Eq, Structural)]
pub struct Param {
    pub id: LocalId,
    pub ty: IrTy,
}

#[derive(Debug)]
pub enum Expr {
    ConstInt(i32),
    /// A float constant in its decimal spelling.
    ConstFloat(String),
    ConstBool(bool),
    LocalSet(LocalSet),
    LocalGet(LocalGet),
    Binary(Binary),
    Block(Block),
    Call(Call),
    Return(Return),
    If(If),
    Unary(Unary),
    StructNew(StructNew),
    StructGet(StructGet),
    /// A function as a value.
    FuncRef(FuncId),
}

#[derive(Debug)]
pub struct Unary {
    pub op: UnaryOpKind,
    pub operand: Box<Expr>,
    pub ty: IrTy,
}

#[derive(Debug)]
pub struct StructNew {
    pub ty: TypeId,
    pub fields: Vec<Expr>,
}

#[derive(Debug)]
pub struct StructGet {
    pub obj: Box<Expr>,
    pub ty: TypeId,
    pub field: u32,
}

#[derive(Debug)]
pub struct LocalSet {
    pub id: LocalId,
    pub value: Box<Expr>,
}

#[derive(Debug)]
pub struct LocalGet {
    pub id: LocalId,
    pub ty: IrTy,
}

#[derive(Debug)]
pub struct Binary {
    pub op: BinOpKind,
    pub left: Box<Expr>,
    pub right: Box<Expr>,
    pub ty: IrTy,
}

#[derive(Debug)]
pub struct Block {
    pub exprs: Vec<Expr>,
    pub ty: IrTy,
}

#[derive(Debug)]
pub struct Call {
    pub func: FuncId,
    pub args: Vec<Expr>,
    pub ty: IrTy,
}

#[derive(Debug)]
pub struct Return {
    pub value: Option<Box<Expr>>,
}

#[derive(Debug)]
pub struct If {
    pub condition: Box<Expr>,
    pub then_block: Box<Block>,
    pub else_block: Option<Box<Expr>>,
    pub ty: IrTy,
}

impl Expr {
    /// The type of the value the expression leaves (heap values and
    /// function references have none yet).
    pub fn ty(&self) -> (t: IrTy)
        requires
            !(self@ is StructNew || self@ is StructGet || self@ is FuncRef),
        ensures
            t == self@.ty(),
    {
        match self {
            Expr::ConstInt(_) => IrTy::I32,
            Expr::ConstFloat(_) => IrTy::F32,
            Expr::ConstBool(_) => IrTy::I32,
            Expr::LocalSet(_) => IrTy::Void,
            Expr::LocalGet(e) => e.ty,
            Expr::Binary(e) => e.ty,
            Expr::Block(e) => {
                assert(self@ == SpecExpr::Block(e@));
                e.ty
            },
            Expr::Call(e) => e.ty,
            Expr::Return(_) => IrTy::Void,
            Expr::If(e) => e.ty,
            Expr::Unary(e) => e.ty,
            Expr::StructNew(_) => IrTy::Void,
            Expr::StructGet(_) => IrTy::Void,
            Expr::FuncRef(_) => IrTy::Void,
        }
    }
}

// ---- the model ----

pub struct SpecModule {
    pub heap_types: Seq<Seq<IrTy>>,
    pub imports: Seq<SpecImportFunc>,
    pub funcs: Seq<SpecFunc>,
    pub entry: Option<FuncId>,
}

pub struct SpecImportFunc {
    pub module: Seq<char>,
    pub item: Seq<char>,
    pub params: Seq<IrTy>,
    pub ret_ty: IrTy,
}

pub struct SpecFunc {
    pub id: FuncId,
    pub params: Seq<Param>,
    pub locals: Seq<IrTy>,
    pub ret_ty: IrTy,
    pub body: SpecBlock,
}

pub enum SpecExpr {
    ConstInt(i32),
    ConstFloat(Seq<char>),
    ConstBool(bool),
    LocalSet { id: LocalId, value: Box<SpecExpr> },
    LocalGet { id: LocalId, ty: IrTy },
    Binary { op: BinOpKind, left: Box<SpecExpr>, right: Box<SpecExpr>, ty: IrTy },
    Block(SpecBlock),
    Call { func: FuncId, args: Seq<SpecExpr>, ty: IrTy },
    Return { value: Option<Box<SpecExpr>> },
    If { condition: Box<SpecExpr>, then_block: Box<SpecBlock>, else_block: Option<Box<SpecExpr>>, ty: IrTy },
    Unary { op: UnaryOpKind, operand: Box<SpecExpr>, ty: IrTy },
    StructNew { ty: TypeId, fields: Seq<SpecExpr> },
    StructGet { obj: Box<SpecExpr>, ty: TypeId, field: u32 },
    FuncRef(FuncId),
}

pub struct SpecBlock {
    pub exprs: Seq<SpecExpr>,
    pub ty: IrTy,
}

impl SpecExpr {
    pub open spec fn ty(self) -> IrTy {
        match self {
            SpecExpr::ConstInt(_) => IrTy::I32,
            SpecExpr::ConstFloat(_) => IrTy::F32,
            SpecExpr::ConstBool(_) => IrTy::I32,
            SpecExpr::LocalSet { .. } => IrTy::Void,
            SpecExpr::LocalGet { ty, .. } => ty,
            SpecExpr::Binary { ty, .. } => ty,
            SpecExpr::Block(b) => b.ty,
            SpecExpr::Call { ty, .. } => ty,
            SpecExpr::Return { .. } => IrTy::Void,
            SpecExpr::If { ty, .. } => ty,
            SpecExpr::Unary { ty, .. } => ty,
            _ => IrTy::Void,
        }
    }
}

impl View for Expr {
    type V = SpecExpr;

    open spec fn view(&self) -> SpecExpr
        decreases self,
    {
        match self {
            Expr::ConstInt(v) => SpecExpr::ConstInt(*v),
            Expr::ConstFloat(s) => SpecExpr::ConstFloat(s@),
            Expr::ConstBool(b) => SpecExpr::ConstBool(*b),
            Expr::LocalSet(s) => SpecExpr::LocalSet { id: s.id, value: Box::new((*s.value)@) },
            Expr::LocalGet(g) => SpecExpr::LocalGet { id: g.id, ty: g.ty },
            Expr::Binary(b) => SpecExpr::Binary {
                op: b.op,
                left: Box::new((*b.left)@),
                right: Box::new((*b.right)@),
                ty: b.ty,
            },
            Expr::Block(b) => SpecExpr::Block(b@),
            Expr::Call(c) => SpecExpr::Call { func: c.func, args: exprs_view(c.args@), ty: c.ty },
            Expr::Return(r) => SpecExpr::Return {
                value: match &r.value {
                    Some(v) => Some(Box::new((**v)@)),
                    None => None,
                },
            },
            Expr::If(i) => SpecExpr::If {
                condition: Box::new((*i.condition)@),
                then_block: Box::new((*i.then_block)@),
                else_block: match &i.else_block {
                    Some(e) => Some(Box::new((**e)@)),
                    None => None,
                },
                ty: i.ty,
            },
            Expr::Unary(u) => SpecExpr::Unary { op: u.op, operand: Box::new((*u.operand)@), ty: u.ty },
            Expr::StructNew(n) => SpecExpr::StructNew { ty: n.ty, fields: exprs_view(n.fields@) },
            Expr::StructGet(g) => SpecExpr::StructGet { obj: Box::new((*g.obj)@), ty: g.ty, field: g.field },
            Expr::FuncRef(id) => SpecExpr::FuncRef(*id),
        }
    }
}

impl View for Block {
    type V = SpecBlock;

    open spec fn view(&self) -> SpecBlock
        decreases self,
    {
        SpecBlock { exprs: exprs_view(self.exprs@), ty: self.ty }
    }
}

pub open spec fn exprs_view(s: Seq<Expr>) -> Seq<SpecExpr>
    decreases s,
{
    if s.len() == 0 {
        Seq::empty()
    } else {
        seq![s[0]@] + exprs_view(s.drop_first())
    }
}

impl View for ImportFunc {
    type V = SpecImportFunc;

    open spec fn view(&self) -> SpecImportFunc {
        SpecImportFunc { module: self.module@, item: self.item@, params: self.params@, ret_ty: self.ret_ty }
    }
}

impl View for Func {
    type V = SpecFunc;

    open spec fn view(&self) -> SpecFunc {
        SpecFunc { id: self.id, params: self.params@, locals: self.locals@, ret_ty: self.ret_ty, body: self.body@ }
    }
}

pub open spec fn imports_view(s: Seq<ImportFunc>) -> Seq<SpecImportFunc> {
    s.map_values(|f: ImportFunc| f@)
}

pub open spec fn funcs_view(s: Seq<Func>) -> Seq<SpecFunc> {
    s.map_values(|f: Func| f@)
}

pub open spec fn heap_types_view(s: Seq<HeapType>) -> Seq<Seq<IrTy>> {
    s.map_values(|h: HeapType| match h {
        HeapType::Struct { fields } => fields@,
    })
}

impl View for Module {
    type V = SpecModule;

    open spec fn view(&self) -> SpecModule {
        SpecModule { heap_types: heap_types_view(self.heap_types@), imports: imports_view(self.imports@), funcs: funcs_view(self.funcs@), entry: self.entry }
    }
}

pub proof fn lemma_exprs_view(s: Seq<Expr>)
    ensures
        exprs_view(s).len() == s.len(),
        forall|i: int| 0 <= i < s.len() ==> #[trigger] exprs_view(s)[i] == s[i]@,
    decreases s.len(),
{
    if s.len() > 0 {
        lemma_exprs_view(s.drop_first());
        assert(exprs_view(s) == seq![s[0]@] + exprs_view(s.drop_first()));
        assert forall|i: int| 0 <= i < s.len() implies #[trigger] exprs_view(s)[i] == s[i]@ by {
            if i > 0 {
                assert(s.drop_first()[i - 1] == s[i]);
            }
        }
    }
}

pub proof fn lemma_exprs_view_push(s: Seq<Expr>, x: Expr)
    ensures
        exprs_view(s.push(x)) == exprs_view(s).push(x@),
{
    lemma_exprs_view(s);
    lemma_exprs_view(s.push(x));
    assert(exprs_view(s.push(x)) =~= exprs_view(s).push(x@));
}

} // verus!
