//! The grammar of the language, as functions from a token sequence and a
//! position to what is parsed there and the position after it.
//!
//! A position past the end reads as `Eof`. Every function that reads a token
//! of a known kind moves one position forward. The `NoProgress` error guards
//! the recursion where a sub-parse must have consumed a token; it never
//! happens (each such sub-parse starts by consuming one).
use vstd::prelude::*;
use crate::common::span::Span;
use crate::common::SpecLiteral;
use crate::common::op::{BinOpKind, UnaryOpKind};
use crate::lexer::token::{SpecToken, SpecTokenKind};
use super::ast::{
    SpecAssign, SpecBlock, SpecElif, SpecEnum, SpecEnumVariant, SpecExpr, SpecExprKind,
    SpecExternFunc, SpecFunc, SpecIdentifier, SpecIf, SpecLet, SpecParam, SpecProgram,
    SpecReturn, SpecStmt, SpecStruct, SpecStructField, SpecTy,
};

verus! {

pub enum SpecParseErrorKind {
    Expected { expected: SpecTokenKind, got: SpecTokenKind },
    ExpectedIdentifier { got: SpecTokenKind },
    ExpectedType { got: SpecTokenKind },
    ExpectedExpression { got: SpecTokenKind },
    ExpectedNewline { got: SpecTokenKind },
    ExpectedSeparator { got: SpecTokenKind },
    ExternNotTopLevel,
    NestedFunc,
    ExternWithBody,
    MissingParamType,
    NoProgress,
}

pub struct SpecParseError {
    pub kind: SpecParseErrorKind,
    pub span: Span,
}

/// What a parse function yields: the node and the position after it, or an error.
pub type PRes<T> = Result<(T, int), SpecParseError>;

// ---- reading tokens ----

pub open spec fn end_span(ts: Seq<SpecToken>) -> Span {
    if ts.len() > 0 {
        Span { start: ts.last().span.end, end: ts.last().span.end }
    } else {
        Span { start: 0, end: 0 }
    }
}

pub open spec fn tok(ts: Seq<SpecToken>, p: int) -> SpecToken {
    if 0 <= p < ts.len() {
        ts[p]
    } else {
        SpecToken { kind: SpecTokenKind::Eof, span: end_span(ts) }
    }
}

pub open spec fn kind(ts: Seq<SpecToken>, p: int) -> SpecTokenKind {
    tok(ts, p).kind
}

/// The end of the token before `p` (the start of the token at `p` when there is none).
pub open spec fn prev_end(ts: Seq<SpecToken>, p: int) -> usize {
    if p > 0 {
        tok(ts, p - 1).span.end
    } else {
        tok(ts, p).span.start
    }
}

/// The span from `start` to the end of the last token read before `p`.
pub open spec fn span_from(ts: Seq<SpecToken>, start: usize, p: int) -> Span {
    Span { start, end: prev_end(ts, p) }
}

pub open spec fn err_at(ts: Seq<SpecToken>, p: int, kind: SpecParseErrorKind) -> SpecParseError {
    SpecParseError { kind, span: tok(ts, p).span }
}

pub open spec fn expected(ts: Seq<SpecToken>, p: int, k: SpecTokenKind) -> SpecParseError {
    err_at(ts, p, SpecParseErrorKind::Expected { expected: k, got: kind(ts, p) })
}

pub open spec fn stall<T>(ts: Seq<SpecToken>, p: int) -> PRes<T> {
    Err(err_at(ts, p, SpecParseErrorKind::NoProgress))
}

/// `q` is a position after `p` within the tokens.
pub open spec fn moved(ts: Seq<SpecToken>, p: int, q: int) -> bool {
    p < q <= ts.len()
}

pub open spec fn is_sep(k: SpecTokenKind) -> bool {
    k is Newline || k is Semicolon || k is Comma
}

/// The first position at or after `p` that does not hold a newline.
pub open spec fn skip_nl(ts: Seq<SpecToken>, p: int) -> int
    decreases ts.len() - p,
{
    if 0 <= p < ts.len() && kind(ts, p) is Newline {
        skip_nl(ts, p + 1)
    } else {
        p
    }
}

/// The first position at or after `p` that does not hold a separator
/// (newline, `;` or `,`).
pub open spec fn skip_sep(ts: Seq<SpecToken>, p: int) -> int
    decreases ts.len() - p,
{
    if 0 <= p < ts.len() && is_sep(kind(ts, p)) {
        skip_sep(ts, p + 1)
    } else {
        p
    }
}

pub proof fn lemma_skip_bounds(ts: Seq<SpecToken>, p: int)
    ensures
        p <= skip_nl(ts, p),
        p <= skip_sep(ts, p),
        p <= ts.len() ==> skip_nl(ts, p) <= ts.len() && skip_sep(ts, p) <= ts.len(),
    decreases ts.len() - p,
{
    if 0 <= p < ts.len() {
        lemma_skip_bounds(ts, p + 1);
    }
}

pub open spec fn ident(ts: Seq<SpecToken>, p: int) -> PRes<SpecIdentifier> {
    match kind(ts, p) {
        SpecTokenKind::Identifier(v) => Ok((SpecIdentifier { value: v, span: tok(ts, p).span }, p + 1)),
        k => Err(err_at(ts, p, SpecParseErrorKind::ExpectedIdentifier { got: k })),
    }
}

// ---- types ----

pub open spec fn ty(ts: Seq<SpecToken>, p: int) -> PRes<SpecTy>
    decreases ts.len() - p, 3int,
{
    match kind(ts, p) {
        SpecTokenKind::LBracket => match ty(ts, p + 1) {
            Ok((inner, q)) => if kind(ts, q) is RBracket {
                Ok((SpecTy::Array(Box::new(inner)), q + 1))
            } else {
                Err(expected(ts, q, SpecTokenKind::RBracket))
            },
            Err(e) => Err(e),
        },
        SpecTokenKind::VerBar => if kind(ts, p + 1) is Func {
            match ty_list(ts, p + 2) {
                Ok((params, q)) => if moved(ts, p, q) {
                    let ret = if kind(ts, q) is Colon {
                        match ty(ts, q + 1) {
                            Ok((r, q2)) => Ok((Some(Box::new(r)), q2)),
                            Err(e) => Err(e),
                        }
                    } else {
                        Ok((None, q))
                    };
                    match ret {
                        Ok((ret, r)) => if kind(ts, r) is VerBar {
                            Ok((SpecTy::Func { params, ret }, r + 1))
                        } else {
                            Err(expected(ts, r, SpecTokenKind::VerBar))
                        },
                        Err(e) => Err(e),
                    }
                } else {
                    stall(ts, p)
                },
                Err(e) => Err(e),
            }
        } else {
            Err(expected(ts, p + 1, SpecTokenKind::Func))
        },
        SpecTokenKind::Identifier(v) => Ok(
            (SpecTy::Named { name: SpecIdentifier { value: v, span: tok(ts, p).span } }, p + 1),
        ),
        k => Err(err_at(ts, p, SpecParseErrorKind::ExpectedType { got: k })),
    }
}

/// `( ty, ty, ... )`, with newlines allowed inside and a trailing comma allowed.
pub open spec fn ty_list(ts: Seq<SpecToken>, p: int) -> PRes<Seq<SpecTy>>
    decreases ts.len() - p, 2int,
{
    if kind(ts, p) is LParen {
        proof {
            lemma_skip_bounds(ts, p + 1);
        }
        ty_items(ts, skip_nl(ts, p + 1), Seq::empty())
    } else {
        Err(expected(ts, p, SpecTokenKind::LParen))
    }
}

/// The rest of a list of types after `acc`, up to and including its `)`.
pub open spec fn ty_items(ts: Seq<SpecToken>, p: int, acc: Seq<SpecTy>) -> PRes<Seq<SpecTy>>
    decreases ts.len() - p, 4int,
{
    if kind(ts, p) is RParen {
        Ok((acc, p + 1))
    } else {
        match ty(ts, p) {
            Ok((x, q)) => {
                let q1 = skip_nl(ts, q);
                if kind(ts, q1) is Comma {
                    let r = skip_nl(ts, q1 + 1);
                    if moved(ts, p, r) {
                        ty_items(ts, r, acc.push(x))
                    } else {
                        stall(ts, p)
                    }
                } else if kind(ts, q1) is RParen {
                    Ok((acc.push(x), q1 + 1))
                } else {
                    Err(err_at(ts, q1, SpecParseErrorKind::ExpectedSeparator { got: kind(ts, q1) }))
                }
            },
            Err(e) => Err(e),
        }
    }
}

/// `: ty`, if there is a colon at `p`.
pub open spec fn ty_annotation(ts: Seq<SpecToken>, p: int) -> PRes<Option<SpecTy>> {
    if kind(ts, p) is Colon {
        match ty(ts, p + 1) {
            Ok((t, q)) => Ok((Some(t), q)),
            Err(e) => Err(e),
        }
    } else {
        Ok((None, p))
    }
}

// ---- parameters ----

pub open spec fn param(ts: Seq<SpecToken>, p: int) -> PRes<SpecParam> {
    match ident(ts, p) {
        Ok((name, q)) => match ty_annotation(ts, q) {
            Ok((t, r)) => Ok((SpecParam { name, ty: t }, r)),
            Err(e) => Err(e),
        },
        Err(e) => Err(e),
    }
}

/// A list of parameters between `open` and `close`; with `typed`, every
/// parameter must carry a type.
pub open spec fn param_list(
    ts: Seq<SpecToken>,
    open: SpecTokenKind,
    close: SpecTokenKind,
    typed: bool,
    p: int,
) -> PRes<Seq<SpecParam>> {
    if kind(ts, p) == open {
        param_items(ts, close, typed, skip_nl(ts, p + 1), Seq::empty())
    } else {
        Err(expected(ts, p, open))
    }
}

pub open spec fn param_items(
    ts: Seq<SpecToken>,
    close: SpecTokenKind,
    typed: bool,
    p: int,
    acc: Seq<SpecParam>,
) -> PRes<Seq<SpecParam>>
    decreases ts.len() - p,
{
    if kind(ts, p) == close {
        Ok((acc, p + 1))
    } else {
        match param(ts, p) {
            Ok((x, q)) => if typed && x.ty is None {
                Err(err_at(ts, q, SpecParseErrorKind::MissingParamType))
            } else {
                let q1 = skip_nl(ts, q);
                if kind(ts, q1) is Comma {
                    let r = skip_nl(ts, q1 + 1);
                    if moved(ts, p, r) {
                        param_items(ts, close, typed, r, acc.push(x))
                    } else {
                        stall(ts, p)
                    }
                } else if kind(ts, q1) == close {
                    Ok((acc.push(x), q1 + 1))
                } else {
                    Err(err_at(ts, q1, SpecParseErrorKind::ExpectedSeparator { got: kind(ts, q1) }))
                }
            },
            Err(e) => Err(e),
        }
    }
}

// ---- expressions ----

pub open spec fn new_binary(op: BinOpKind, left: SpecExpr, right: SpecExpr) -> SpecExpr {
    SpecExpr {
        kind: SpecExprKind::BinaryOp { op, left: Box::new(left), right: Box::new(right) },
        span: Span { start: left.span.start, end: right.span.end },
    }
}

/// The operator that a token spells at a precedence level: 0 is `||`, 1 `&&`,
/// 2 equality, 3 comparison, 4 additive and 5 multiplicative.
pub open spec fn bin_op_at(lv: int, k: SpecTokenKind) -> Option<BinOpKind> {
    if lv == 0 {
        if k is Or { Some(BinOpKind::Or) } else { None }
    } else if lv == 1 {
        if k is And { Some(BinOpKind::And) } else { None }
    } else if lv == 2 {
        if k is EqEq { Some(BinOpKind::EqEq) } else if k is BangEq { Some(BinOpKind::NotEq) } else { None }
    } else if lv == 3 {
        if k is Lt {
            Some(BinOpKind::Lt)
        } else if k is Gt {
            Some(BinOpKind::Gt)
        } else if k is LtEq {
            Some(BinOpKind::LtEq)
        } else if k is GtEq {
            Some(BinOpKind::GtEq)
        } else {
            None
        }
    } else if lv == 4 {
        if k is Plus { Some(BinOpKind::Add) } else if k is Minus { Some(BinOpKind::Sub) } else { None }
    } else {
        if k is Asterisk { Some(BinOpKind::Mul) } else if k is Slash { Some(BinOpKind::Div) } else { None }
    }
}

pub open spec fn level_rank(lv: int) -> int {
    if 0 <= lv <= 5 { 40 - 2 * lv } else { 30 }
}

pub open spec fn expr(ts: Seq<SpecToken>, p: int) -> PRes<SpecExpr>
    decreases ts.len() - p, 41int,
{
    binary(ts, 0, p)
}

/// A left-associative chain of operators of level `lv` over operands of the next level.
pub open spec fn binary(ts: Seq<SpecToken>, lv: int, p: int) -> PRes<SpecExpr>
    decreases ts.len() - p, level_rank(lv),
{
    match operand(ts, lv, p) {
        Ok((left, q)) => if moved(ts, p, q) {
            binary_tail(ts, lv, left, q)
        } else {
            stall(ts, p)
        },
        Err(e) => Err(e),
    }
}

pub open spec fn operand(ts: Seq<SpecToken>, lv: int, p: int) -> PRes<SpecExpr>
    decreases ts.len() - p, level_rank(lv) - 1,
{
    if 0 <= lv < 5 {
        binary(ts, lv + 1, p)
    } else {
        unary(ts, p)
    }
}

pub open spec fn binary_tail(ts: Seq<SpecToken>, lv: int, left: SpecExpr, p: int) -> PRes<SpecExpr>
    decreases ts.len() - p, level_rank(lv),
{
    match bin_op_at(lv, kind(ts, p)) {
        Some(op) => match operand(ts, lv, p + 1) {
            Ok((right, q)) => if moved(ts, p, q) {
                binary_tail(ts, lv, new_binary(op, left, right), q)
            } else {
                stall(ts, p)
            },
            Err(e) => Err(e),
        },
        None => Ok((left, p)),
    }
}

pub open spec fn unary(ts: Seq<SpecToken>, p: int) -> PRes<SpecExpr>
    decreases ts.len() - p, 28int,
{
    let k = kind(ts, p);
    if k is Minus || k is Bang {
        let op = if k is Minus { UnaryOpKind::Neg } else { UnaryOpKind::Not };
        match unary(ts, p + 1) {
            Ok((e, q)) => Ok(
                (
                    SpecExpr {
                        kind: SpecExprKind::UnaryOp { op, operand: Box::new(e) },
                        span: Span { start: tok(ts, p).span.start, end: e.span.end },
                    },
                    q,
                ),
            ),
            Err(err) => Err(err),
        }
    } else {
        postfix(ts, p)
    }
}

pub open spec fn postfix(ts: Seq<SpecToken>, p: int) -> PRes<SpecExpr>
    decreases ts.len() - p, 27int,
{
    match primary(ts, p) {
        Ok((e, q)) => if moved(ts, p, q) {
            postfix_tail(ts, e, q)
        } else {
            stall(ts, p)
        },
        Err(err) => Err(err),
    }
}

/// Field accesses, method-style calls, calls and indexing after `e`.
pub open spec fn postfix_tail(ts: Seq<SpecToken>, e: SpecExpr, p: int) -> PRes<SpecExpr>
    decreases ts.len() - p, 27int,
{
    match kind(ts, p) {
        SpecTokenKind::Dot => match ident(ts, p + 1) {
            Ok((name, q)) => if kind(ts, q) is LParen {
                match expr_list(ts, SpecTokenKind::LParen, SpecTokenKind::RParen, q) {
                    Ok((args, r)) => if moved(ts, p, r) {
                        postfix_tail(
                            ts,
                            SpecExpr {
                                kind: SpecExprKind::DotCall { base: Box::new(e), callee: name, args },
                                span: span_from(ts, e.span.start, r),
                            },
                            r,
                        )
                    } else {
                        stall(ts, p)
                    },
                    Err(err) => Err(err),
                }
            } else {
                postfix_tail(
                    ts,
                    SpecExpr {
                        kind: SpecExprKind::DotAccess { base: Box::new(e), name },
                        span: Span { start: e.span.start, end: name.span.end },
                    },
                    q,
                )
            },
            Err(err) => Err(err),
        },
        SpecTokenKind::LParen => match expr_list(ts, SpecTokenKind::LParen, SpecTokenKind::RParen, p) {
            Ok((args, r)) => if moved(ts, p, r) {
                postfix_tail(
                    ts,
                    SpecExpr {
                        kind: SpecExprKind::Call { callee: Box::new(e), args },
                        span: span_from(ts, e.span.start, r),
                    },
                    r,
                )
            } else {
                stall(ts, p)
            },
            Err(err) => Err(err),
        },
        SpecTokenKind::LBracket => match expr(ts, p + 1) {
            Ok((index, q)) => if kind(ts, q) is RBracket {
                if moved(ts, p, q + 1) {
                    postfix_tail(
                        ts,
                        SpecExpr {
                            kind: SpecExprKind::Index { base: Box::new(e), index: Box::new(index) },
                            span: span_from(ts, e.span.start, q + 1),
                        },
                        q + 1,
                    )
                } else {
                    stall(ts, p)
                }
            } else {
                Err(expected(ts, q, SpecTokenKind::RBracket))
            },
            Err(err) => Err(err),
        },
        _ => Ok((e, p)),
    }
}

pub open spec fn lit_expr(ts: Seq<SpecToken>, p: int, l: SpecLiteral) -> PRes<SpecExpr> {
    Ok((SpecExpr { kind: SpecExprKind::Literal(l), span: tok(ts, p).span }, p + 1))
}

/// The tokens that can start a primary expression.
pub open spec fn starts_primary(k: SpecTokenKind) -> bool {
    k is Int || k is Float || k is True || k is False || k is LParen || k is LBracket || k is LBrace || k is If
        || k is VerBar || k is Or || k is Identifier
}

pub open spec fn primary(ts: Seq<SpecToken>, p: int) -> PRes<SpecExpr>
    decreases ts.len() - p, 26int,
{
    match kind(ts, p) {
        SpecTokenKind::Int(v) => lit_expr(ts, p, SpecLiteral::Int(v)),
        SpecTokenKind::Float(s) => lit_expr(ts, p, SpecLiteral::Float(s)),
        SpecTokenKind::True => lit_expr(ts, p, SpecLiteral::Bool(true)),
        SpecTokenKind::False => lit_expr(ts, p, SpecLiteral::Bool(false)),
        SpecTokenKind::LParen => {
            let q = skip_nl(ts, p + 1);
            if moved(ts, p, q) {
                match expr(ts, q) {
                    Ok((e, r)) => {
                        let r2 = skip_nl(ts, r);
                        if kind(ts, r2) is RParen {
                            Ok((e, r2 + 1))
                        } else {
                            Err(expected(ts, r2, SpecTokenKind::RParen))
                        }
                    },
                    Err(err) => Err(err),
                }
            } else {
                stall(ts, p)
            }
        },
        SpecTokenKind::LBracket => match expr_list(
            ts,
            SpecTokenKind::LBracket,
            SpecTokenKind::RBracket,
            p,
        ) {
            Ok((elems, q)) => Ok(
                (
                    SpecExpr {
                        kind: SpecExprKind::Array(elems),
                        span: span_from(ts, tok(ts, p).span.start, q),
                    },
                    q,
                ),
            ),
            Err(err) => Err(err),
        },
        SpecTokenKind::LBrace => match block(ts, p) {
            Ok((b, q)) => Ok((SpecExpr { kind: SpecExprKind::Block(b), span: b.span }, q)),
            Err(err) => Err(err),
        },
        SpecTokenKind::If => if_expr(ts, p + 1, tok(ts, p).span.start),
        SpecTokenKind::VerBar => closure(ts, p),
        SpecTokenKind::Or => closure(ts, p),
        SpecTokenKind::Identifier(v) => {
            let id = SpecIdentifier { value: v, span: tok(ts, p).span };
            Ok((SpecExpr { kind: SpecExprKind::Identifier(id), span: id.span }, p + 1))
        },
        k => Err(err_at(ts, p, SpecParseErrorKind::ExpectedExpression { got: k })),
    }
}

/// `if` (already read, starting at `start`) then condition, block, and an
/// optional `elif` chain or `else` block.
pub open spec fn if_expr(ts: Seq<SpecToken>, p: int, start: usize) -> PRes<SpecExpr>
    decreases ts.len() - p, 45int,
{
    match expr(ts, p) {
        Ok((condition, q)) => if moved(ts, p, q) {
            match block(ts, q) {
                Ok((then_block, r)) => if moved(ts, p, r) {
                    if kind(ts, r) is Elif {
                        match if_expr(ts, r + 1, tok(ts, r).span.start) {
                            Ok((e, s)) => Ok(
                                (
                                    SpecExpr {
                                        kind: SpecExprKind::If {
                                            condition: Box::new(condition),
                                            then_block,
                                            else_branch: Some(Box::new(e)),
                                        },
                                        span: Span { start, end: e.span.end },
                                    },
                                    s,
                                ),
                            ),
                            Err(err) => Err(err),
                        }
                    } else if kind(ts, r) is Else {
                        match block(ts, r + 1) {
                            Ok((b, s)) => Ok(
                                (
                                    SpecExpr {
                                        kind: SpecExprKind::If {
                                            condition: Box::new(condition),
                                            then_block,
                                            else_branch: Some(
                                                Box::new(
                                                    SpecExpr {
                                                        kind: SpecExprKind::Block(b),
                                                        span: b.span,
                                                    },
                                                ),
                                            ),
                                        },
                                        span: Span { start, end: b.span.end },
                                    },
                                    s,
                                ),
                            ),
                            Err(err) => Err(err),
                        }
                    } else {
                        Ok(
                            (
                                SpecExpr {
                                    kind: SpecExprKind::If {
                                        condition: Box::new(condition),
                                        then_block,
                                        else_branch: None,
                                    },
                                    span: Span { start, end: then_block.span.end },
                                },
                                r,
                            ),
                        )
                    }
                } else {
                    stall(ts, p)
                },
                Err(err) => Err(err),
            }
        } else {
            stall(ts, p)
        },
        Err(err) => Err(err),
    }
}

/// `|params| -> ty => body`, or `|| => body`.
pub open spec fn closure(ts: Seq<SpecToken>, p: int) -> PRes<SpecExpr>
    decreases ts.len() - p, 13int,
{
    let params = if kind(ts, p) is Or {
        Ok((Seq::empty(), p + 1))
    } else {
        param_list(ts, SpecTokenKind::VerBar, SpecTokenKind::VerBar, false, p)
    };
    match params {
        Ok((params, q)) => {
            let ret = if kind(ts, q) is Arrow {
                match ty(ts, q + 1) {
                    Ok((t, r)) => Ok((Some(t), r)),
                    Err(e) => Err(e),
                }
            } else {
                Ok((None, q))
            };
            match ret {
                Ok((ret, r)) => if kind(ts, r) is FatArrow {
                    if moved(ts, p, r + 1) {
                        match expr(ts, r + 1) {
                            Ok((body, s)) => Ok(
                                (
                                    SpecExpr {
                                        kind: SpecExprKind::Closure { params, ret, body: Box::new(body) },
                                        span: Span { start: tok(ts, p).span.start, end: body.span.end },
                                    },
                                    s,
                                ),
                            ),
                            Err(e) => Err(e),
                        }
                    } else {
                        stall(ts, p)
                    }
                } else {
                    Err(expected(ts, r, SpecTokenKind::FatArrow))
                },
                Err(e) => Err(e),
            }
        },
        Err(e) => Err(e),
    }
}

/// A comma-separated list of expressions between `open` and `close`.
pub open spec fn expr_list(
    ts: Seq<SpecToken>,
    open: SpecTokenKind,
    close: SpecTokenKind,
    p: int,
) -> PRes<Seq<SpecExpr>>
    decreases ts.len() - p, 14int,
{
    if kind(ts, p) == open && p < ts.len() {
        proof {
            lemma_skip_bounds(ts, p + 1);
        }
        expr_items(ts, close, skip_nl(ts, p + 1), Seq::empty())
    } else {
        Err(expected(ts, p, open))
    }
}

pub open spec fn expr_items(
    ts: Seq<SpecToken>,
    close: SpecTokenKind,
    p: int,
    acc: Seq<SpecExpr>,
) -> PRes<Seq<SpecExpr>>
    decreases ts.len() - p, 42int,
{
    if kind(ts, p) == close {
        Ok((acc, p + 1))
    } else {
        match expr(ts, p) {
            Ok((x, q)) => {
                let q1 = skip_nl(ts, q);
                if kind(ts, q1) is Comma {
                    let r = skip_nl(ts, q1 + 1);
                    if moved(ts, p, r) {
                        expr_items(ts, close, r, acc.push(x))
                    } else {
                        stall(ts, p)
                    }
                } else if kind(ts, q1) == close {
                    Ok((acc.push(x), q1 + 1))
                } else {
                    Err(err_at(ts, q1, SpecParseErrorKind::ExpectedSeparator { got: kind(ts, q1) }))
                }
            },
            Err(e) => Err(e),
        }
    }
}

// ---- statements ----

/// The block whose statements were read from `start` on.
pub open spec fn finish_block(ts: Seq<SpecToken>, start: usize, r: PRes<Seq<SpecStmt>>) -> PRes<SpecBlock> {
    match r {
        Ok((stmts, q)) => Ok((SpecBlock { stmts, span: span_from(ts, start, q) }, q)),
        Err(e) => Err(e),
    }
}

/// `{ stmt; stmt ... }`: statements separated by newlines, `;` or `,`.
pub open spec fn block(ts: Seq<SpecToken>, p: int) -> PRes<SpecBlock>
    decreases ts.len() - p, 15int,
{
    if kind(ts, p) is LBrace {
        proof {
            lemma_skip_bounds(ts, p + 1);
        }
        finish_block(ts, tok(ts, p).span.start, stmt_items(ts, skip_sep(ts, p + 1), Seq::empty()))
    } else {
        Err(expected(ts, p, SpecTokenKind::LBrace))
    }
}

pub open spec fn stmt_items(ts: Seq<SpecToken>, p: int, acc: Seq<SpecStmt>) -> PRes<Seq<SpecStmt>>
    decreases ts.len() - p, 60int,
{
    if kind(ts, p) is RBrace {
        Ok((acc, p + 1))
    } else {
        match stmt(ts, p) {
            Ok((s, q)) => if is_sep(kind(ts, q)) {
                let r = skip_sep(ts, q);
                if moved(ts, p, r) {
                    stmt_items(ts, r, acc.push(s))
                } else {
                    stall(ts, p)
                }
            } else if kind(ts, q) is RBrace {
                Ok((acc.push(s), q + 1))
            } else {
                Err(err_at(ts, q, SpecParseErrorKind::ExpectedSeparator { got: kind(ts, q) }))
            },
            Err(e) => Err(e),
        }
    }
}

pub open spec fn stmt(ts: Seq<SpecToken>, p: int) -> PRes<SpecStmt>
    decreases ts.len() - p, 55int,
{
    match kind(ts, p) {
        SpecTokenKind::Extern => Err(err_at(ts, p, SpecParseErrorKind::ExternNotTopLevel)),
        SpecTokenKind::Func => Err(err_at(ts, p, SpecParseErrorKind::NestedFunc)),
        SpecTokenKind::Struct => match struct_decl(ts, p) {
            Ok((s, q)) => Ok((SpecStmt::Struct(s), q)),
            Err(e) => Err(e),
        },
        SpecTokenKind::Enum => match enum_decl(ts, p) {
            Ok((s, q)) => Ok((SpecStmt::Enum(s), q)),
            Err(e) => Err(e),
        },
        SpecTokenKind::Local => match let_decl(ts, p + 1, tok(ts, p).span.start) {
            Ok((s, q)) => Ok((SpecStmt::Let(s), q)),
            Err(e) => Err(e),
        },
        SpecTokenKind::Return => match return_stmt(ts, p + 1) {
            Ok((s, q)) => Ok((SpecStmt::Return(s), q)),
            Err(e) => Err(e),
        },
        SpecTokenKind::If => match if_stmt(ts, p + 1, tok(ts, p).span.start) {
            Ok((s, q)) => Ok((SpecStmt::If(s), q)),
            Err(e) => Err(e),
        },
        SpecTokenKind::LBrace => match block(ts, p) {
            Ok((b, q)) => Ok((SpecStmt::Block(b), q)),
            Err(e) => Err(e),
        },
        _ => match expr(ts, p) {
            Ok((e, q)) => if kind(ts, q) is Eq {
                if moved(ts, p, q + 1) {
                    match expr(ts, q + 1) {
                        Ok((value, r)) => Ok(
                            (
                                SpecStmt::Assign(
                                    SpecAssign {
                                        target: e,
                                        value,
                                        span: span_from(ts, e.span.start, r),
                                    },
                                ),
                                r,
                            ),
                        ),
                        Err(err) => Err(err),
                    }
                } else {
                    stall(ts, p)
                }
            } else {
                Ok((SpecStmt::Expr(e), q))
            },
            Err(err) => Err(err),
        },
    }
}

/// `local name: ty = value`, from just after the `local` keyword, which starts at `start`.
pub open spec fn let_decl(ts: Seq<SpecToken>, p: int, start: usize) -> PRes<SpecLet>
    decreases ts.len() - p, 50int,
{
    match ident(ts, p) {
        Ok((name, q)) => match ty_annotation(ts, q) {
            Ok((annot_ty, r)) => if kind(ts, r) is Eq {
                if moved(ts, p, r + 1) {
                    match expr(ts, r + 1) {
                        Ok((value, s)) => Ok(
                            (SpecLet { name, annot_ty, value, span: span_from(ts, start, s) }, s),
                        ),
                        Err(e) => Err(e),
                    }
                } else {
                    stall(ts, p)
                }
            } else {
                Err(expected(ts, r, SpecTokenKind::Eq))
            },
            Err(e) => Err(e),
        },
        Err(e) => Err(e),
    }
}

/// An optional value after `return`, from just after the keyword. Without a
/// value the span is that of the token after the keyword; with one, the value's.
pub open spec fn return_stmt(ts: Seq<SpecToken>, p: int) -> PRes<SpecReturn>
    decreases ts.len() - p, 50int,
{
    let k = kind(ts, p);
    if k is Newline || k is RBrace {
        Ok((SpecReturn { value: None, span: tok(ts, p).span }, p))
    } else {
        match expr(ts, p) {
            Ok((e, q)) => Ok((SpecReturn { value: Some(e), span: e.span }, q)),
            Err(err) => Err(err),
        }
    }
}

/// `if cond { .. }`, any number of `elif cond { .. }`, and an optional `else { .. }`,
/// from just after the `if` keyword, which starts at `start`.
pub open spec fn if_stmt(ts: Seq<SpecToken>, p: int, start: usize) -> PRes<SpecIf>
    decreases ts.len() - p, 50int,
{
    match expr(ts, p) {
        Ok((condition, q)) => if moved(ts, p, q) {
            match block(ts, q) {
                Ok((then_block, r)) => if moved(ts, p, r) {
                    if_rest(ts, p, start, condition, then_block, elif_items(ts, r, Seq::empty()))
                } else {
                    stall(ts, p)
                },
                Err(e) => Err(e),
            }
        } else {
            stall(ts, p)
        },
        Err(e) => Err(e),
    }
}

/// The `if` statement that started at `p` after its `elif` branches were read.
pub open spec fn if_rest(
    ts: Seq<SpecToken>,
    p: int,
    start: usize,
    condition: SpecExpr,
    then_block: SpecBlock,
    elifs: PRes<Seq<SpecElif>>,
) -> PRes<SpecIf>
    decreases ts.len() - p, 49int,
{
    match elifs {
        Ok((elifs, s)) => if moved(ts, p, s) {
            let else_part = if kind(ts, s) is Else {
                match block(ts, s + 1) {
                    Ok((b, t)) => Ok((Some(b), t)),
                    Err(e) => Err(e),
                }
            } else {
                Ok((None, s))
            };
            match else_part {
                Ok((else_block, t)) => Ok(
                    (
                        SpecIf { condition, then_block, elifs, else_block, span: span_from(ts, start, t) },
                        t,
                    ),
                ),
                Err(e) => Err(e),
            }
        } else {
            stall(ts, p)
        },
        Err(e) => Err(e),
    }
}

pub open spec fn elif_items(ts: Seq<SpecToken>, p: int, acc: Seq<SpecElif>) -> PRes<Seq<SpecElif>>
    decreases ts.len() - p, 50int,
{
    if kind(ts, p) is Elif {
        match expr(ts, p + 1) {
            Ok((condition, q)) => if moved(ts, p, q) {
                match block(ts, q) {
                    Ok((then_block, r)) => if moved(ts, p, r) {
                        elif_items(
                            ts,
                            r,
                            acc.push(
                                SpecElif {
                                    condition,
                                    then_block,
                                    span: span_from(ts, tok(ts, p).span.start, r),
                                },
                            ),
                        )
                    } else {
                        stall(ts, p)
                    },
                    Err(e) => Err(e),
                }
            } else {
                stall(ts, p)
            },
            Err(e) => Err(e),
        }
    } else {
        Ok((acc, p))
    }
}

pub open spec fn finish_struct(
    ts: Seq<SpecToken>,
    name: SpecIdentifier,
    start: usize,
    r: PRes<Seq<SpecStructField>>,
) -> PRes<SpecStruct> {
    match r {
        Ok((fields, q)) => Ok((SpecStruct { name, fields, span: span_from(ts, start, q) }, q)),
        Err(e) => Err(e),
    }
}

pub open spec fn finish_enum(
    ts: Seq<SpecToken>,
    name: SpecIdentifier,
    start: usize,
    r: PRes<Seq<SpecEnumVariant>>,
) -> PRes<SpecEnum> {
    match r {
        Ok((variants, q)) => Ok((SpecEnum { name, variants, span: span_from(ts, start, q) }, q)),
        Err(e) => Err(e),
    }
}

/// `struct Name { field: ty ... }` (the keyword is at `p`).
pub open spec fn struct_decl(ts: Seq<SpecToken>, p: int) -> PRes<SpecStruct> {
    match ident(ts, p + 1) {
        Ok((name, q)) => if kind(ts, q) is LBrace {
            finish_struct(ts, name, tok(ts, p).span.start, field_items(ts, skip_sep(ts, q + 1), Seq::empty()))
        } else {
            Err(expected(ts, q, SpecTokenKind::LBrace))
        },
        Err(e) => Err(e),
    }
}

pub open spec fn field(ts: Seq<SpecToken>, p: int) -> PRes<SpecStructField> {
    match ident(ts, p) {
        Ok((name, q)) => if kind(ts, q) is Colon {
            match ty(ts, q + 1) {
                Ok((t, r)) => Ok(
                    (SpecStructField { name, ty: t, span: span_from(ts, tok(ts, p).span.start, r) }, r),
                ),
                Err(e) => Err(e),
            }
        } else {
            Err(expected(ts, q, SpecTokenKind::Colon))
        },
        Err(e) => Err(e),
    }
}

pub open spec fn field_items(ts: Seq<SpecToken>, p: int, acc: Seq<SpecStructField>) -> PRes<
    Seq<SpecStructField>,
>
    decreases ts.len() - p,
{
    if kind(ts, p) is RBrace {
        Ok((acc, p + 1))
    } else {
        match field(ts, p) {
            Ok((x, q)) => if is_sep(kind(ts, q)) {
                let r = skip_sep(ts, q);
                if moved(ts, p, r) {
                    field_items(ts, r, acc.push(x))
                } else {
                    stall(ts, p)
                }
            } else if kind(ts, q) is RBrace {
                Ok((acc.push(x), q + 1))
            } else {
                Err(err_at(ts, q, SpecParseErrorKind::ExpectedSeparator { got: kind(ts, q) }))
            },
            Err(e) => Err(e),
        }
    }
}

/// `enum Name { Variant, Variant(ty, ..) ... }` (the keyword is at `p`).
pub open spec fn enum_decl(ts: Seq<SpecToken>, p: int) -> PRes<SpecEnum> {
    match ident(ts, p + 1) {
        Ok((name, q)) => if kind(ts, q) is LBrace {
            finish_enum(ts, name, tok(ts, p).span.start, variant_items(ts, skip_sep(ts, q + 1), Seq::empty()))
        } else {
            Err(expected(ts, q, SpecTokenKind::LBrace))
        },
        Err(e) => Err(e),
    }
}

pub open spec fn variant(ts: Seq<SpecToken>, p: int) -> PRes<SpecEnumVariant> {
    match ident(ts, p) {
        Ok((name, q)) => {
            let fields = if kind(ts, q) is LParen {
                ty_list(ts, q)
            } else {
                Ok((Seq::empty(), q))
            };
            match fields {
                Ok((ty_fields, r)) => Ok(
                    (
                        SpecEnumVariant {
                            name,
                            ty_fields,
                            span: span_from(ts, tok(ts, p).span.start, r),
                        },
                        r,
                    ),
                ),
                Err(e) => Err(e),
            }
        },
        Err(e) => Err(e),
    }
}

pub open spec fn variant_items(ts: Seq<SpecToken>, p: int, acc: Seq<SpecEnumVariant>) -> PRes<
    Seq<SpecEnumVariant>,
>
    decreases ts.len() - p,
{
    if kind(ts, p) is RBrace {
        Ok((acc, p + 1))
    } else {
        match variant(ts, p) {
            Ok((x, q)) => if is_sep(kind(ts, q)) {
                let r = skip_sep(ts, q);
                if moved(ts, p, r) {
                    variant_items(ts, r, acc.push(x))
                } else {
                    stall(ts, p)
                }
            } else if kind(ts, q) is RBrace {
                Ok((acc.push(x), q + 1))
            } else {
                Err(err_at(ts, q, SpecParseErrorKind::ExpectedSeparator { got: kind(ts, q) }))
            },
            Err(e) => Err(e),
        }
    }
}

// ---- top level ----

/// `func name(params): ret`: the name, typed parameters and optional return type.
pub open spec fn func_sig(ts: Seq<SpecToken>, p: int) -> PRes<
    (SpecIdentifier, Seq<SpecParam>, Option<SpecTy>),
> {
    if kind(ts, p) is Func {
        match ident(ts, p + 1) {
            Ok((name, q)) => match param_list(
                ts,
                SpecTokenKind::LParen,
                SpecTokenKind::RParen,
                true,
                q,
            ) {
                Ok((params, r)) => match ty_annotation(ts, r) {
                    Ok((ret, s)) => Ok(((name, params, ret), s)),
                    Err(e) => Err(e),
                },
                Err(e) => Err(e),
            },
            Err(e) => Err(e),
        }
    } else {
        Err(expected(ts, p, SpecTokenKind::Func))
    }
}

pub open spec fn func_decl(ts: Seq<SpecToken>, p: int) -> PRes<SpecFunc> {
    match func_sig(ts, p) {
        Ok(((name, params, ret), q)) => match block(ts, q) {
            Ok((body, r)) => Ok(
                (
                    SpecFunc { name, params, ret, body, span: span_from(ts, tok(ts, p).span.start, r) },
                    r,
                ),
            ),
            Err(e) => Err(e),
        },
        Err(e) => Err(e),
    }
}

/// `extern module/symbol`, a newline, then a signature without a body
/// (the keyword is at `p`).
pub open spec fn extern_decl(ts: Seq<SpecToken>, p: int) -> PRes<SpecExternFunc> {
    match ident(ts, p + 1) {
        Ok((module, q)) => if kind(ts, q) is Slash {
            match ident(ts, q + 1) {
                Ok((symbol, r)) => if kind(ts, r) is Newline {
                    match func_sig(ts, r + 1) {
                        Ok(((name, params, ret), s)) => if kind(ts, s) is LBrace {
                            Err(err_at(ts, s, SpecParseErrorKind::ExternWithBody))
                        } else {
                            Ok(
                                (
                                    SpecExternFunc {
                                        module,
                                        symbol,
                                        name,
                                        params,
                                        ret,
                                        span: span_from(ts, tok(ts, p).span.start, s),
                                    },
                                    s,
                                ),
                            )
                        },
                        Err(e) => Err(e),
                    }
                } else {
                    Err(err_at(ts, r, SpecParseErrorKind::ExpectedNewline { got: kind(ts, r) }))
                },
                Err(e) => Err(e),
            }
        } else {
            Err(expected(ts, q, SpecTokenKind::Slash))
        },
        Err(e) => Err(e),
    }
}

#[verifier::opaque]
pub open spec fn top_stmt(ts: Seq<SpecToken>, p: int) -> PRes<SpecStmt> {
    match kind(ts, p) {
        SpecTokenKind::Extern => match extern_decl(ts, p) {
            Ok((f, q)) => Ok((SpecStmt::ExternFunc(f), q)),
            Err(e) => Err(e),
        },
        SpecTokenKind::Func => match func_decl(ts, p) {
            Ok((f, q)) => Ok((SpecStmt::Func(f), q)),
            Err(e) => Err(e),
        },
        _ => stmt(ts, p),
    }
}

/// The statements of a program from `p` (after separators) to `Eof`.
pub open spec fn program_items(ts: Seq<SpecToken>, p: int, acc: Seq<SpecStmt>) -> Result<
    Seq<SpecStmt>,
    SpecParseError,
>
    decreases ts.len() - p,
{
    if kind(ts, p) is Eof {
        Ok(acc)
    } else {
        match top_stmt(ts, p) {
            Ok((s, q)) => if kind(ts, q) is Eof {
                Ok(acc.push(s))
            } else if is_sep(kind(ts, q)) {
                let r = skip_sep(ts, q);
                if moved(ts, p, r) {
                    program_items(ts, r, acc.push(s))
                } else {
                    Err(err_at(ts, p, SpecParseErrorKind::NoProgress))
                }
            } else {
                Err(err_at(ts, q, SpecParseErrorKind::ExpectedSeparator { got: kind(ts, q) }))
            },
            Err(e) => Err(e),
        }
    }
}

/// The program that the tokens spell.
pub open spec fn spec_parse(ts: Seq<SpecToken>) -> Result<SpecProgram, SpecParseError> {
    match program_items(ts, skip_sep(ts, 0), Seq::empty()) {
        Ok(stmts) => Ok(SpecProgram { stmts }),
        Err(e) => Err(e),
    }
}

} // verus!
