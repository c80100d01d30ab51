//! The syntax tree that the parser builds, and its mathematical model.
use vstd::prelude::*;
use crate::common::span::Span;
use crate::common::{Literal, SpecLiteral};
use crate::common::op::{BinOpKind, UnaryOpKind};

verus! {

#[derive(Debug)]
pub struct Program {
    pub stmts: Vec<Stmt>,
}

#[derive(Debug)]
pub enum Stmt {
    ExternFunc(ExternFunc),
    Func(Func),
    Struct(Struct),
    Enum(Enum),
    Let(Let),
    Return(Return),
    If(If),
    Block(Block),
    Assign(Assign),
    Expr(Expr),
}

/// `extern module/symbol` followed by a function signature: an imported function.
#[derive(Debug)]
pub struct ExternFunc {
    pub module: Identifier,
    pub symbol: Identifier,
    pub name: Identifier,
    pub params: Vec<Param>,
    pub ret: Option<Ty>,
    pub span: Span,
}

#[derive(Debug)]
pub struct Func {
    pub name: Identifier,
    pub params: Vec<Param>,
    pub ret: Option<Ty>,
    pub body: Block,
    pub span: Span,
}

#[derive(Debug)]
pub struct Param {
    pub name: Identifier,
    pub ty: Option<Ty>,
}

#[derive(Debug)]
pub struct Struct {
    pub name: Identifier,
    pub fields: Vec<StructField>,
    pub span: Span,
}

#[derive(Debug)]
pub struct StructField {
    pub name: Identifier,
    pub ty: Ty,
    pub span: Span,
}

#[derive(Debug)]
pub struct Enum {
    pub name: Identifier,
    pub variants: Vec<EnumVariant>,
    pub span: Span,
}

#[derive(Debug)]
pub struct EnumVariant {
    pub name: Identifier,
    pub ty_fields: Vec<Ty>,
    pub span: Span,
}

/// `local name: Ty = value`
#[derive(Debug)]
pub struct Let {
    pub name: Identifier,
    pub annot_ty: Option<Ty>,
    pub value: Expr,
    pub span: Span,
}

#[derive(Debug)]
pub struct Return {
    pub value: Option<Expr>,
    pub span: Span,
}

#[derive(Debug)]
pub struct If {
    pub condition: Expr,
    pub then_block: Block,
    pub elifs: Vec<Elif>,
    pub else_block: Option<Block>,
    pub span: Span,
}

#[derive(Debug)]
pub struct Elif {
    pub condition: Expr,
    pub then_block: Block,
    pub span: Span,
}

#[derive(Debug)]
pub struct Assign {
    pub target: Expr,
    pub value: Expr,
    pub span: Span,
}

#[derive(Debug)]
pub struct Block {
    pub stmts: Vec<Stmt>,
    pub span: Span,
}

#[derive(Debug)]
pub struct Expr {
    pub kind: ExprKind,
    pub span: Span,
}

#[derive(Debug)]
pub enum ExprKind {
    Literal(Literal),
    Identifier(Identifier),
    Array(Vec<Expr>),
    Block(Block),
    BinaryOp(BinaryOp),
    UnaryOp(UnaryOp),
    Call(Call),
    /// `base.name(args)`: sema decides between a method-style call and a variant constructor.
    DotCall(DotCall),
    Index(Index),
    /// `base.name`: sema decides between a struct field and a variant.
    DotAccess(DotAccess),
    Closure(Closure),
    If(IfExpr),
}

#[derive(Debug)]
pub struct BinaryOp {
    pub op: BinOpKind,
    pub left: Box<Expr>,
    pub right: Box<Expr>,
}

#[derive(Debug)]
pub struct UnaryOp {
    pub op: UnaryOpKind,
    pub operand: Box<Expr>,
}

#[derive(Debug)]
pub struct Call {
    pub callee: Box<Expr>,
    pub args: Vec<Expr>,
}

#[derive(Debug)]
pub struct DotCall {
    pub base: Box<Expr>,
    pub callee: Identifier,
    pub args: Vec<Expr>,
}

#[derive(Debug)]
pub struct Index {
    pub base: Box<Expr>,
    pub index: Box<Expr>,
}

#[derive(Debug)]
pub struct DotAccess {
    pub base: Box<Expr>,
    pub name: Identifier,
}

#[derive(Debug)]
pub struct Closure {
    pub params: Vec<Param>,
    pub ret: Option<Ty>,
    pub body: Box<Expr>,
}

/// `if c { .. } elif c { .. } else { .. }` as an expression: an `elif` is an
/// `if` nested in the else branch.
#[derive(Debug)]
pub struct IfExpr {
    pub condition: Box<Expr>,
    pub then_block: Block,
    pub else_branch: Option<Box<Expr>>,
}

#[derive(Debug)]
pub struct Identifier {
    pub value: String,
    pub span: Span,
}

#[derive(Debug)]
pub enum Ty {
    Named { name: Identifier },
    Array(Box<Ty>),
    Func { params: Vec<Ty>, ret: Option<Box<Ty>> },
}

impl Stmt {
    /// The characters that the statement covers.
    pub fn span(&self) -> (res: Span)
        ensures
            res == self@.span(),
    {
        match self {
            Stmt::ExternFunc(s) => s.span,
            Stmt::Func(s) => s.span,
            Stmt::Struct(s) => s.span,
            Stmt::Enum(s) => s.span,
            Stmt::Let(s) => s.span,
            Stmt::Return(s) => s.span,
            Stmt::If(s) => s.span,
            Stmt::Block(s) => s.span,
            Stmt::Assign(s) => s.span,
            Stmt::Expr(e) => e.span,
        }
    }
}

impl Expr {
    /// The characters that the expression covers.
    pub fn span(&self) -> (res: Span)
        ensures
            res == self@.span,
    {
        self.span
    }
}

// ---------------------------------------------------------------------------
// The model
// ---------------------------------------------------------------------------

pub struct SpecProgram {
    pub stmts: Seq<SpecStmt>,
}

pub enum SpecStmt {
    ExternFunc(SpecExternFunc),
    Func(SpecFunc),
    Struct(SpecStruct),
    Enum(SpecEnum),
    Let(SpecLet),
    Return(SpecReturn),
    If(SpecIf),
    Block(SpecBlock),
    Assign(SpecAssign),
    Expr(SpecExpr),
}

pub struct SpecExternFunc {
    pub module: SpecIdentifier,
    pub symbol: SpecIdentifier,
    pub name: SpecIdentifier,
    pub params: Seq<SpecParam>,
    pub ret: Option<SpecTy>,
    pub span: Span,
}

pub struct SpecFunc {
    pub name: SpecIdentifier,
    pub params: Seq<SpecParam>,
    pub ret: Option<SpecTy>,
    pub body: SpecBlock,
    pub span: Span,
}

pub struct SpecParam {
    pub name: SpecIdentifier,
    pub ty: Option<SpecTy>,
}

pub struct SpecStruct {
    pub name: SpecIdentifier,
    pub fields: Seq<SpecStructField>,
    pub span: Span,
}

pub struct SpecStructField {
    pub name: SpecIdentifier,
    pub ty: SpecTy,
    pub span: Span,
}

pub struct SpecEnum {
    pub name: SpecIdentifier,
    pub variants: Seq<SpecEnumVariant>,
    pub span: Span,
}

pub struct SpecEnumVariant {
    pub name: SpecIdentifier,
    pub ty_fields: Seq<SpecTy>,
    pub span: Span,
}

pub struct SpecLet {
    pub name: SpecIdentifier,
    pub annot_ty: Option<SpecTy>,
    pub value: SpecExpr,
    pub span: Span,
}

pub struct SpecReturn {
    pub value: Option<SpecExpr>,
    pub span: Span,
}

pub struct SpecIf {
    pub condition: SpecExpr,
    pub then_block: SpecBlock,
    pub elifs: Seq<SpecElif>,
    pub else_block: Option<SpecBlock>,
    pub span: Span,
}

pub struct SpecElif {
    pub condition: SpecExpr,
    pub then_block: SpecBlock,
    pub span: Span,
}

pub struct SpecAssign {
    pub target: SpecExpr,
    pub value: SpecExpr,
    pub span: Span,
}

pub struct SpecBlock {
    pub stmts: Seq<SpecStmt>,
    pub span: Span,
}

pub struct SpecExpr {
    pub kind: SpecExprKind,
    pub span: Span,
}

pub enum SpecExprKind {
    Literal(SpecLiteral),
    Identifier(SpecIdentifier),
    Array(Seq<SpecExpr>),
    Block(SpecBlock),
    BinaryOp { op: BinOpKind, left: Box<SpecExpr>, right: Box<SpecExpr> },
    UnaryOp { op: UnaryOpKind, operand: Box<SpecExpr> },
    Call { callee: Box<SpecExpr>, args: Seq<SpecExpr> },
    DotCall { base: Box<SpecExpr>, callee: SpecIdentifier, args: Seq<SpecExpr> },
    Index { base: Box<SpecExpr>, index: Box<SpecExpr> },
    DotAccess { base: Box<SpecExpr>, name: SpecIdentifier },
    Closure { params: Seq<SpecParam>, ret: Option<SpecTy>, body: Box<SpecExpr> },
    If { condition: Box<SpecExpr>, then_block: SpecBlock, else_branch: Option<Box<SpecExpr>> },
}

pub struct SpecIdentifier {
    pub value: Seq<char>,
    pub span: Span,
}

pub enum SpecTy {
    Named { name: SpecIdentifier },
    Array(Box<SpecTy>),
    Func { params: Seq<SpecTy>, ret: Option<Box<SpecTy>> },
}

impl SpecStmt {
    pub open spec fn span(self) -> Span {
        match self {
            SpecStmt::ExternFunc(s) => s.span,
            SpecStmt::Func(s) => s.span,
            SpecStmt::Struct(s) => s.span,
            SpecStmt::Enum(s) => s.span,
            SpecStmt::Let(s) => s.span,
            SpecStmt::Return(s) => s.span,
            SpecStmt::If(s) => s.span,
            SpecStmt::Block(s) => s.span,
            SpecStmt::Assign(s) => s.span,
            SpecStmt::Expr(e) => e.span,
        }
    }
}

// ---- views ----

impl View for Identifier {
    type V = SpecIdentifier;

    open spec fn view(&self) -> SpecIdentifier {
        SpecIdentifier { value: self.value@, span: self.span }
    }
}

impl View for Ty {
    type V = SpecTy;

    open spec fn view(&self) -> SpecTy
        decreases self,
    {
        match self {
            Ty::Named { name } => SpecTy::Named { name: name@ },
            Ty::Array(inner) => SpecTy::Array(Box::new((**inner)@)),
            Ty::Func { params, ret } => SpecTy::Func {
                params: tys_view(params@),
                ret: match ret {
                    Some(r) => Some(Box::new((**r)@)),
                    None => None,
                },
            },
        }
    }
}

pub open spec fn tys_view(s: Seq<Ty>) -> Seq<SpecTy>
    decreases s,
{
    if s.len() == 0 {
        Seq::empty()
    } else {
        seq![s[0]@] + tys_view(s.drop_first())
    }
}

pub open spec fn params_view(s: Seq<Param>) -> Seq<SpecParam> {
    s.map_values(|p: Param| p@)
}

pub open spec fn fields_view(s: Seq<StructField>) -> Seq<SpecStructField> {
    s.map_values(|f: StructField| f@)
}

pub open spec fn variants_view(s: Seq<EnumVariant>) -> Seq<SpecEnumVariant> {
    s.map_values(|v: EnumVariant| v@)
}

pub open spec fn opt_ty_view(t: Option<Ty>) -> Option<SpecTy> {
    match t {
        Some(t) => Some(t@),
        None => None,
    }
}

impl View for Param {
    type V = SpecParam;

    open spec fn view(&self) -> SpecParam {
        SpecParam { name: self.name@, ty: opt_ty_view(self.ty) }
    }
}

impl View for StructField {
    type V = SpecStructField;

    open spec fn view(&self) -> SpecStructField {
        SpecStructField { name: self.name@, ty: self.ty@, span: self.span }
    }
}

impl View for EnumVariant {
    type V = SpecEnumVariant;

    open spec fn view(&self) -> SpecEnumVariant {
        SpecEnumVariant { name: self.name@, ty_fields: tys_view(self.ty_fields@), span: self.span }
    }
}

impl View for Expr {
    type V = SpecExpr;

    open spec fn view(&self) -> SpecExpr
        decreases self,
    {
        SpecExpr {
            kind: match &self.kind {
                ExprKind::Literal(l) => SpecExprKind::Literal(l@),
                ExprKind::Identifier(i) => SpecExprKind::Identifier(i@),
                ExprKind::Array(v) => SpecExprKind::Array(exprs_view(v@)),
                ExprKind::Block(b) => SpecExprKind::Block(b@),
                ExprKind::BinaryOp(b) => SpecExprKind::BinaryOp {
                    op: b.op,
                    left: Box::new((*b.left)@),
                    right: Box::new((*b.right)@),
                },
                ExprKind::UnaryOp(u) => SpecExprKind::UnaryOp {
                    op: u.op,
                    operand: Box::new((*u.operand)@),
                },
                ExprKind::Call(c) => SpecExprKind::Call {
                    callee: Box::new((*c.callee)@),
                    args: exprs_view(c.args@),
                },
                ExprKind::DotCall(c) => SpecExprKind::DotCall {
                    base: Box::new((*c.base)@),
                    callee: c.callee@,
                    args: exprs_view(c.args@),
                },
                ExprKind::Index(i) => SpecExprKind::Index {
                    base: Box::new((*i.base)@),
                    index: Box::new((*i.index)@),
                },
                ExprKind::DotAccess(d) => SpecExprKind::DotAccess {
                    base: Box::new((*d.base)@),
                    name: d.name@,
                },
                ExprKind::Closure(c) => SpecExprKind::Closure {
                    params: params_view(c.params@),
                    ret: opt_ty_view(c.ret),
                    body: Box::new((*c.body)@),
                },
                ExprKind::If(i) => SpecExprKind::If {
                    condition: Box::new((*i.condition)@),
                    then_block: i.then_block@,
                    else_branch: match &i.else_branch {
                        Some(e) => Some(Box::new((**e)@)),
                        None => None,
                    },
                },
            },
            span: self.span,
        }
    }
}

pub open spec fn exprs_view(s: Seq<Expr>) -> Seq<SpecExpr>
    decreases s,
{
    if s.len() == 0 {
        Seq::empty()
    } else {
        seq![s[0]@] + exprs_view(s.drop_first())
    }
}

pub open spec fn opt_expr_view(e: Option<Expr>) -> Option<SpecExpr> {
    match e {
        Some(e) => Some(e@),
        None => None,
    }
}

impl View for Block {
    type V = SpecBlock;

    open spec fn view(&self) -> SpecBlock
        decreases self,
    {
        SpecBlock { stmts: stmts_view(self.stmts@), span: self.span }
    }
}

pub open spec fn stmts_view(s: Seq<Stmt>) -> Seq<SpecStmt>
    decreases s,
{
    if s.len() == 0 {
        Seq::empty()
    } else {
        seq![s[0]@] + stmts_view(s.drop_first())
    }
}

impl View for Elif {
    type V = SpecElif;

    open spec fn view(&self) -> SpecElif
        decreases self,
    {
        SpecElif { condition: self.condition@, then_block: self.then_block@, span: self.span }
    }
}

pub open spec fn elifs_view(s: Seq<Elif>) -> Seq<SpecElif>
    decreases s,
{
    if s.len() == 0 {
        Seq::empty()
    } else {
        seq![s[0]@] + elifs_view(s.drop_first())
    }
}

impl View for ExternFunc {
    type V = SpecExternFunc;

    open spec fn view(&self) -> SpecExternFunc {
        SpecExternFunc {
            module: self.module@,
            symbol: self.symbol@,
            name: self.name@,
            params: params_view(self.params@),
            ret: opt_ty_view(self.ret),
            span: self.span,
        }
    }
}

impl View for Func {
    type V = SpecFunc;

    open spec fn view(&self) -> SpecFunc
        decreases self,
    {
        SpecFunc {
            name: self.name@,
            params: params_view(self.params@),
            ret: opt_ty_view(self.ret),
            body: self.body@,
            span: self.span,
        }
    }
}

impl View for Struct {
    type V = SpecStruct;

    open spec fn view(&self) -> SpecStruct {
        SpecStruct {
            name: self.name@,
            fields: fields_view(self.fields@),
            span: self.span,
        }
    }
}

impl View for Enum {
    type V = SpecEnum;

    open spec fn view(&self) -> SpecEnum {
        SpecEnum {
            name: self.name@,
            variants: variants_view(self.variants@),
            span: self.span,
        }
    }
}

impl View for Let {
    type V = SpecLet;

    open spec fn view(&self) -> SpecLet
        decreases self,
    {
        SpecLet {
            name: self.name@,
            annot_ty: opt_ty_view(self.annot_ty),
            value: self.value@,
            span: self.span,
        }
    }
}

impl View for Return {
    type V = SpecReturn;

    open spec fn view(&self) -> SpecReturn
        decreases self,
    {
        SpecReturn {
            value: match &self.value {
                Some(e) => Some(e@),
                None => None,
            },
            span: self.span,
        }
    }
}

impl View for If {
    type V = SpecIf;

    open spec fn view(&self) -> SpecIf
        decreases self,
    {
        SpecIf {
            condition: self.condition@,
            then_block: self.then_block@,
            elifs: elifs_view(self.elifs@),
            else_block: match &self.else_block {
                Some(b) => Some(b@),
                None => None,
            },
            span: self.span,
        }
    }
}

impl View for Assign {
    type V = SpecAssign;

    open spec fn view(&self) -> SpecAssign
        decreases self,
    {
        SpecAssign { target: self.target@, value: self.value@, span: self.span }
    }
}

impl View for Stmt {
    type V = SpecStmt;

    open spec fn view(&self) -> SpecStmt
        decreases self,
    {
        match self {
            Stmt::ExternFunc(f) => SpecStmt::ExternFunc(f@),
            Stmt::Func(f) => SpecStmt::Func(f@),
            Stmt::Struct(s) => SpecStmt::Struct(s@),
            Stmt::Enum(e) => SpecStmt::Enum(e@),
            Stmt::Let(l) => SpecStmt::Let(l@),
            Stmt::Return(r) => SpecStmt::Return(r@),
            Stmt::If(i) => SpecStmt::If(i@),
            Stmt::Block(b) => SpecStmt::Block(b@),
            Stmt::Assign(a) => SpecStmt::Assign(a@),
            Stmt::Expr(e) => SpecStmt::Expr(e@),
        }
    }
}

impl View for Program {
    type V = SpecProgram;

    open spec fn view(&self) -> SpecProgram {
        SpecProgram { stmts: stmts_view(self.stmts@) }
    }
}

// ---- facts about the list views ----

pub proof fn lemma_tys_view(s: Seq<Ty>)
    ensures
        tys_view(s).len() == s.len(),
        forall|i: int| 0 <= i < s.len() ==> #[trigger] tys_view(s)[i] == s[i]@,
    decreases s.len(),
{
    if s.len() > 0 {
        lemma_tys_view(s.drop_first());
        assert(tys_view(s) == seq![s[0]@] + tys_view(s.drop_first()));
        assert forall|i: int| 0 <= i < s.len() implies #[trigger] tys_view(s)[i] == s[i]@ by {
            if i > 0 {
                assert(s.drop_first()[i - 1] == s[i]);
            }
        }
    }
}

pub proof fn lemma_exprs_view(s: Seq<Expr>)
    ensures
        exprs_view(s).len() == s.len(),
        forall|i: int| 0 <= i < s.len() ==> #[trigger] exprs_view(s)[i] == s[i]@,
    decreases s.len(),
{
    if s.len() > 0 {
        lemma_exprs_view(s.drop_first());
        assert(exprs_view(s) == seq![s[0]@] + exprs_view(s.drop_first()));
        assert forall|i: int| 0 <= i < s.len() implies #[trigger] exprs_view(s)[i] == s[i]@ by {
            if i > 0 {
                assert(s.drop_first()[i - 1] == s[i]);
            }
        }
    }
}

pub proof fn lemma_stmts_view(s: Seq<Stmt>)
    ensures
        stmts_view(s).len() == s.len(),
        forall|i: int| 0 <= i < s.len() ==> #[trigger] stmts_view(s)[i] == s[i]@,
    decreases s.len(),
{
    if s.len() > 0 {
        lemma_stmts_view(s.drop_first());
        assert(stmts_view(s) == seq![s[0]@] + stmts_view(s.drop_first()));
        assert forall|i: int| 0 <= i < s.len() implies #[trigger] stmts_view(s)[i] == s[i]@ by {
            if i > 0 {
                assert(s.drop_first()[i - 1] == s[i]);
            }
        }
    }
}

pub proof fn lemma_elifs_view(s: Seq<Elif>)
    ensures
        elifs_view(s).len() == s.len(),
        forall|i: int| 0 <= i < s.len() ==> #[trigger] elifs_view(s)[i] == s[i]@,
    decreases s.len(),
{
    if s.len() > 0 {
        lemma_elifs_view(s.drop_first());
        assert(elifs_view(s) == seq![s[0]@] + elifs_view(s.drop_first()));
        assert forall|i: int| 0 <= i < s.len() implies #[trigger] elifs_view(s)[i] == s[i]@ by {
            if i > 0 {
                assert(s.drop_first()[i - 1] == s[i]);
            }
        }
    }
}

pub proof fn lemma_params_view_push(s: Seq<Param>, x: Param)
    ensures
        params_view(s.push(x)) == params_view(s).push(x@),
{
    assert(params_view(s.push(x)) =~= params_view(s).push(x@));
}

pub proof fn lemma_fields_view_push(s: Seq<StructField>, x: StructField)
    ensures
        fields_view(s.push(x)) == fields_view(s).push(x@),
{
    assert(fields_view(s.push(x)) =~= fields_view(s).push(x@));
}

pub proof fn lemma_variants_view_push(s: Seq<EnumVariant>, x: EnumVariant)
    ensures
        variants_view(s.push(x)) == variants_view(s).push(x@),
{
    assert(variants_view(s.push(x)) =~= variants_view(s).push(x@));
}

pub proof fn lemma_tys_view_push(s: Seq<Ty>, x: Ty)
    ensures
        tys_view(s.push(x)) == tys_view(s).push(x@),
{
    lemma_tys_view(s);
    lemma_tys_view(s.push(x));
    assert(tys_view(s.push(x)) =~= tys_view(s).push(x@));
}

pub proof fn lemma_exprs_view_push(s: Seq<Expr>, x: Expr)
    ensures
        exprs_view(s.push(x)) == exprs_view(s).push(x@),
{
    lemma_exprs_view(s);
    lemma_exprs_view(s.push(x));
    assert(exprs_view(s.push(x)) =~= exprs_view(s).push(x@));
}

pub proof fn lemma_stmts_view_push(s: Seq<Stmt>, x: Stmt)
    ensures
        stmts_view(s.push(x)) == stmts_view(s).push(x@),
{
    lemma_stmts_view(s);
    lemma_stmts_view(s.push(x));
    assert(stmts_view(s.push(x)) =~= stmts_view(s).push(x@));
}

pub proof fn lemma_elifs_view_push(s: Seq<Elif>, x: Elif)
    ensures
        elifs_view(s.push(x)) == elifs_view(s).push(x@),
{
    lemma_elifs_view(s);
    lemma_elifs_view(s.push(x));
    assert(elifs_view(s.push(x)) =~= elifs_view(s).push(x@));
}

} // verus!
