//! The typed syntax tree that semantic analysis builds, and its model.
use vstd::prelude::*;
use crate::common::{Literal, SpecLiteral};
use crate::common::op::{BinOpKind, UnaryOpKind};
use super::ty::{tys_view, SpecTy, Ty};
pub use super::ty::StructId;

verus! {

/// The index of a function in the order the program declares its functions
/// (imported and defined ones together).
#[derive(Debug, Clone, Copy, PartialEq, Eq, Structural)]
pub struct FuncId(pub u32);

/// The index of a local variable (parameters first) in its function.
#[derive(Debug, Clone, Copy, PartialEq, Eq, Structural)]
pub struct VarId(pub u32);

/// The index of a field in its struct.
#[derive(Debug, Clone, Copy, PartialEq, Eq, Structural)]
pub struct StructFieldId(pub u32);

#[derive(Debug)]
pub struct Program {
    pub stmts: Vec<Stmt>,
    /// The function named `main`, if there is one.
    pub entry: Option<FuncId>,
}

#[derive(Debug)]
pub enum Stmt {
    ExternFunc(ExternFunc),
    Func(Func),
    Struct(Struct),
    Local(Local),
    Return(Return),
    If(If),
    Assign(Assign),
    Block(Block),
    Expr(Expr),
}

/// A function imported from the host as `module.symbol`.
#[derive(Debug)]
pub struct ExternFunc {
    pub id: FuncId,
    pub module: String,
    pub symbol: String,
    pub params_ty: Vec<Ty>,
    pub ret_ty: Ty,
}

#[derive(Debug)]
pub struct Func {
    pub id: FuncId,
    pub params: Vec<Param>,
    pub ret_ty: Ty,
    pub body: Block,
}

#[derive(Debug)]
pub struct Param {
    pub id: VarId,
    pub ty: Ty,
}

#[derive(Debug)]
pub struct Struct {
    pub id: StructId,
    pub fields: Vec<StructField>,
    pub ty: Ty,
}

#[derive(Debug)]
pub struct StructField {
    pub id: StructFieldId,
    pub ty: Ty,
}

#[derive(Debug)]
pub struct Local {
    pub id: VarId,
    pub value: Expr,
    pub value_ty: Ty,
    pub ty: Ty,
}

#[derive(Debug)]
pub struct Return {
    pub value: Option<Expr>,
    pub ty: Ty,
}

#[derive(Debug)]
pub struct If {
    pub condition: Expr,
    pub then_block: Block,
    pub elifs: Vec<Elif>,
    pub else_block: Option<Block>,
    pub ty: Ty,
}

#[derive(Debug)]
pub struct Elif {
    pub condition: Expr,
    pub then_block: Block,
}

#[derive(Debug)]
pub struct Assign {
    pub id: VarId,
    pub value: Expr,
    pub ty: Ty,
}

#[derive(Debug)]
pub struct Block {
    pub stmts: Vec<Stmt>,
    pub ty: Ty,
}

#[derive(Debug)]
pub enum Expr {
    Literal(Literal, Ty),
    FuncRef(FuncRef),
    VarRef(VarRef),
    BinaryOp(BinaryOp),
    UnaryOp(UnaryOp),
    Call(Call),
    StructLit(StructLit),
    Block(Block),
}

#[derive(Debug)]
pub struct FuncRef {
    pub id: FuncId,
    pub ty: Ty,
}

#[derive(Debug)]
pub struct VarRef {
    pub id: VarId,
    pub ty: Ty,
}

#[derive(Debug)]
pub struct BinaryOp {
    pub op: BinOpKind,
    pub left: Box<Expr>,
    pub right: Box<Expr>,
    pub ty: Ty,
}

#[derive(Debug)]
pub struct UnaryOp {
    pub op: UnaryOpKind,
    pub operand: Box<Expr>,
    pub ty: Ty,
}

#[derive(Debug)]
pub struct Call {
    pub callee: Box<Expr>,
    pub args: Vec<Expr>,
    pub ty: Ty,
}

#[derive(Debug)]
pub struct StructLit {
    pub id: StructId,
    pub fields: Vec<Expr>,
    pub ty: Ty,
}

impl Expr {
    /// The type of the expression.
    pub fn ty(&self) -> (res: &Ty)
        ensures
            res@ == self@.ty(),
    {
        match self {
            Expr::Literal(_, ty) => ty,
            Expr::FuncRef(e) => &e.ty,
            Expr::VarRef(e) => &e.ty,
            Expr::BinaryOp(e) => &e.ty,
            Expr::UnaryOp(e) => &e.ty,
            Expr::Call(e) => &e.ty,
            Expr::StructLit(e) => &e.ty,
            Expr::Block(e) => {
                assert(self@ == SpecExpr::Block(e@));
                &e.ty
            },
        }
    }
}

// ---------------------------------------------------------------------------
// The model
// ---------------------------------------------------------------------------

pub struct SpecProgram {
    pub stmts: Seq<SpecStmt>,
    pub entry: Option<FuncId>,
}

pub enum SpecStmt {
    ExternFunc { id: FuncId, module: Seq<char>, symbol: Seq<char>, params_ty: Seq<SpecTy>, ret_ty: SpecTy },
    Func { id: FuncId, params: Seq<SpecParam>, ret_ty: SpecTy, body: SpecBlock },
    Struct { id: StructId, fields: Seq<SpecStructField>, ty: SpecTy },
    Local { id: VarId, value: SpecExpr, value_ty: SpecTy, ty: SpecTy },
    Return { value: Option<SpecExpr>, ty: SpecTy },
    If {
        condition: SpecExpr,
        then_block: SpecBlock,
        elifs: Seq<SpecElif>,
        else_block: Option<SpecBlock>,
        ty: SpecTy,
    },
    Assign { id: VarId, value: SpecExpr, ty: SpecTy },
    Block(SpecBlock),
    Expr(SpecExpr),
}

pub struct SpecParam {
    pub id: VarId,
    pub ty: SpecTy,
}

pub struct SpecStructField {
    pub id: StructFieldId,
    pub ty: SpecTy,
}

pub struct SpecElif {
    pub condition: SpecExpr,
    pub then_block: SpecBlock,
}

pub struct SpecBlock {
    pub stmts: Seq<SpecStmt>,
    pub ty: SpecTy,
}

pub enum SpecExpr {
    Literal(SpecLiteral, SpecTy),
    FuncRef { id: FuncId, ty: SpecTy },
    VarRef { id: VarId, ty: SpecTy },
    BinaryOp { op: BinOpKind, left: Box<SpecExpr>, right: Box<SpecExpr>, ty: SpecTy },
    UnaryOp { op: UnaryOpKind, operand: Box<SpecExpr>, ty: SpecTy },
    Call { callee: Box<SpecExpr>, args: Seq<SpecExpr>, ty: SpecTy },
    StructLit { id: StructId, fields: Seq<SpecExpr>, ty: SpecTy },
    Block(SpecBlock),
}

impl SpecExpr {
    pub open spec fn ty(self) -> SpecTy {
        match self {
            SpecExpr::Literal(_, ty) => ty,
            SpecExpr::FuncRef { ty, .. } => ty,
            SpecExpr::VarRef { ty, .. } => ty,
            SpecExpr::BinaryOp { ty, .. } => ty,
            SpecExpr::UnaryOp { ty, .. } => ty,
            SpecExpr::Call { ty, .. } => ty,
            SpecExpr::StructLit { ty, .. } => ty,
            SpecExpr::Block(b) => b.ty,
        }
    }
}

// ---- views ----

impl View for Param {
    type V = SpecParam;

    open spec fn view(&self) -> SpecParam {
        SpecParam { id: self.id, ty: self.ty@ }
    }
}

impl View for StructField {
    type V = SpecStructField;

    open spec fn view(&self) -> SpecStructField {
        SpecStructField { id: self.id, ty: self.ty@ }
    }
}

pub open spec fn params_view(s: Seq<Param>) -> Seq<SpecParam> {
    s.map_values(|p: Param| p@)
}

pub open spec fn fields_view(s: Seq<StructField>) -> Seq<SpecStructField> {
    s.map_values(|f: StructField| f@)
}

impl View for Expr {
    type V = SpecExpr;

    open spec fn view(&self) -> SpecExpr
        decreases self,
    {
        match self {
            Expr::Literal(l, ty) => SpecExpr::Literal(l@, ty@),
            Expr::FuncRef(e) => SpecExpr::FuncRef { id: e.id, ty: e.ty@ },
            Expr::VarRef(e) => SpecExpr::VarRef { id: e.id, ty: e.ty@ },
            Expr::BinaryOp(e) => SpecExpr::BinaryOp {
                op: e.op,
                left: Box::new((*e.left)@),
                right: Box::new((*e.right)@),
                ty: e.ty@,
            },
            Expr::UnaryOp(e) => SpecExpr::UnaryOp {
                op: e.op,
                operand: Box::new((*e.operand)@),
                ty: e.ty@,
            },
            Expr::Call(e) => SpecExpr::Call {
                callee: Box::new((*e.callee)@),
                args: exprs_view(e.args@),
                ty: e.ty@,
            },
            Expr::StructLit(e) => SpecExpr::StructLit { id: e.id, fields: exprs_view(e.fields@), ty: e.ty@ },
            Expr::Block(b) => SpecExpr::Block(b@),
        }
    }
}

pub open spec fn exprs_view(s: Seq<Expr>) -> Seq<SpecExpr>
    decreases s,
{
    if s.len() == 0 {
        Seq::empty()
    } else {
        seq![s[0]@] + exprs_view(s.drop_first())
    }
}

pub open spec fn opt_expr_view(e: Option<Expr>) -> Option<SpecExpr> {
    match e {
        Some(e) => Some(e@),
        None => None,
    }
}

impl View for Block {
    type V = SpecBlock;

    open spec fn view(&self) -> SpecBlock
        decreases self,
    {
        SpecBlock { stmts: stmts_view(self.stmts@), ty: self.ty@ }
    }
}

pub open spec fn opt_block_view(b: Option<Block>) -> Option<SpecBlock> {
    match b {
        Some(b) => Some(b@),
        None => None,
    }
}

pub open spec fn stmts_view(s: Seq<Stmt>) -> Seq<SpecStmt>
    decreases s,
{
    if s.len() == 0 {
        Seq::empty()
    } else {
        seq![s[0]@] + stmts_view(s.drop_first())
    }
}

impl View for Elif {
    type V = SpecElif;

    open spec fn view(&self) -> SpecElif
        decreases self,
    {
        SpecElif { condition: self.condition@, then_block: self.then_block@ }
    }
}

pub open spec fn elifs_view(s: Seq<Elif>) -> Seq<SpecElif>
    decreases s,
{
    if s.len() == 0 {
        Seq::empty()
    } else {
        seq![s[0]@] + elifs_view(s.drop_first())
    }
}

impl View for Stmt {
    type V = SpecStmt;

    open spec fn view(&self) -> SpecStmt
        decreases self,
    {
        match self {
            Stmt::ExternFunc(f) => SpecStmt::ExternFunc {
                id: f.id,
                module: f.module@,
                symbol: f.symbol@,
                params_ty: tys_view(f.params_ty@),
                ret_ty: f.ret_ty@,
            },
            Stmt::Func(f) => SpecStmt::Func {
                id: f.id,
                params: params_view(f.params@),
                ret_ty: f.ret_ty@,
                body: f.body@,
            },
            Stmt::Struct(s) => SpecStmt::Struct { id: s.id, fields: fields_view(s.fields@), ty: s.ty@ },
            Stmt::Local(l) => SpecStmt::Local { id: l.id, value: l.value@, value_ty: l.value_ty@, ty: l.ty@ },
            Stmt::Return(r) => SpecStmt::Return {
                value: match &r.value {
                    Some(v) => Some(v@),
                    None => None,
                },
                ty: r.ty@,
            },
            Stmt::If(i) => SpecStmt::If {
                condition: i.condition@,
                then_block: i.then_block@,
                elifs: elifs_view(i.elifs@),
                else_block: match &i.else_block {
                    Some(b) => Some(b@),
                    None => None,
                },
                ty: i.ty@,
            },
            Stmt::Assign(a) => SpecStmt::Assign { id: a.id, value: a.value@, ty: a.ty@ },
            Stmt::Block(b) => SpecStmt::Block(b@),
            Stmt::Expr(e) => SpecStmt::Expr(e@),
        }
    }
}

impl View for Program {
    type V = SpecProgram;

    open spec fn view(&self) -> SpecProgram {
        SpecProgram { stmts: stmts_view(self.stmts@), entry: self.entry }
    }
}

// ---- lemmas on the list views ----

pub proof fn lemma_exprs_view(s: Seq<Expr>)
    ensures
        exprs_view(s).len() == s.len(),
        forall|i: int| 0 <= i < s.len() ==> #[trigger] exprs_view(s)[i] == s[i]@,
    decreases s.len(),
{
    if s.len() > 0 {
        lemma_exprs_view(s.drop_first());
        assert(exprs_view(s) == seq![s[0]@] + exprs_view(s.drop_first()));
        assert forall|i: int| 0 <= i < s.len() implies #[trigger] exprs_view(s)[i] == s[i]@ by {
            if i > 0 {
                assert(s.drop_first()[i - 1] == s[i]);
            }
        }
    }
}

pub proof fn lemma_exprs_view_push(s: Seq<Expr>, x: Expr)
    ensures
        exprs_view(s.push(x)) == exprs_view(s).push(x@),
{
    lemma_exprs_view(s);
    lemma_exprs_view(s.push(x));
    assert(exprs_view(s.push(x)) =~= exprs_view(s).push(x@));
}

pub proof fn lemma_stmts_view(s: Seq<Stmt>)
    ensures
        stmts_view(s).len() == s.len(),
        forall|i: int| 0 <= i < s.len() ==> #[trigger] stmts_view(s)[i] == s[i]@,
    decreases s.len(),
{
    if s.len() > 0 {
        lemma_stmts_view(s.drop_first());
        assert(stmts_view(s) == seq![s[0]@] + stmts_view(s.drop_first()));
        assert forall|i: int| 0 <= i < s.len() implies #[trigger] stmts_view(s)[i] == s[i]@ by {
            if i > 0 {
                assert(s.drop_first()[i - 1] == s[i]);
            }
        }
    }
}

pub proof fn lemma_stmts_view_push(s: Seq<Stmt>, x: Stmt)
    ensures
        stmts_view(s.push(x)) == stmts_view(s).push(x@),
{
    lemma_stmts_view(s);
    lemma_stmts_view(s.push(x));
    assert(stmts_view(s.push(x)) =~= stmts_view(s).push(x@));
}

pub proof fn lemma_elifs_view(s: Seq<Elif>)
    ensures
        elifs_view(s).len() == s.len(),
        forall|i: int| 0 <= i < s.len() ==> #[trigger] elifs_view(s)[i] == s[i]@,
    decreases s.len(),
{
    if s.len() > 0 {
        lemma_elifs_view(s.drop_first());
        assert(elifs_view(s) == seq![s[0]@] + elifs_view(s.drop_first()));
        assert forall|i: int| 0 <= i < s.len() implies #[trigger] elifs_view(s)[i] == s[i]@ by {
            if i > 0 {
                assert(s.drop_first()[i - 1] == s[i]);
            }
        }
    }
}

pub proof fn lemma_elifs_view_push(s: Seq<Elif>, x: Elif)
    ensures
        elifs_view(s.push(x)) == elifs_view(s).push(x@),
{
    lemma_elifs_view(s);
    lemma_elifs_view(s.push(x));
    assert(elifs_view(s.push(x)) =~= elifs_view(s).push(x@));
}

} // verus!
