//! The parser: from tokens to a syntax tree.
//!
//! Every parse function reads from the current position and stops right
//! after what it parsed; its result and the new position are those that the
//! grammar in [`grammar`] gives for the tokens and the old position.
pub mod ast;
pub mod grammar;
pub mod laws;
mod types;
mod exprs;
mod stmts;
mod program;

pub use program::parse;

use vstd::prelude::*;
use crate::common::span::Span;
use crate::common::Literal;
use crate::common::op::{BinOpKind, UnaryOpKind};
use crate::lexer::token::{tokens_view, SpecToken, SpecTokenKind, Token, TokenKind};
use ast::{
    lemma_exprs_view_push, lemma_stmts_view_push, lemma_params_view_push, lemma_fields_view_push,
    lemma_variants_view_push, params_view, fields_view, variants_view, lemma_tys_view_push, lemma_elifs_view_push, exprs_view, stmts_view,
    tys_view, elifs_view, opt_ty_view, Assign, BinaryOp, Block, Call, Closure, DotAccess, DotCall,
    Elif, Enum, EnumVariant, Expr, ExprKind, ExternFunc, Func, Identifier, If, IfExpr, Index, Let,
    Param, Program, Return, SpecEnumVariant, SpecExpr, SpecParam, SpecStmt, SpecStructField,
    SpecTy, SpecIdentifier, Stmt, Struct, StructField, Ty, UnaryOp,
};
use grammar::{
    end_span, kind, moved, prev_end, skip_nl, skip_sep, span_from, tok, is_sep, lemma_skip_bounds,
    PRes, SpecParseError, SpecParseErrorKind,
};

verus! {

/// Why parsing stopped.
#[derive(Debug)]
pub enum ParseErrorKind {
    Expected { expected: TokenKind, got: TokenKind },
    ExpectedIdentifier { got: TokenKind },
    ExpectedType { got: TokenKind },
    ExpectedExpression { got: TokenKind },
    ExpectedNewline { got: TokenKind },
    ExpectedSeparator { got: TokenKind },
    ExternNotTopLevel,
    NestedFunc,
    ExternWithBody,
    MissingParamType,
    NoProgress,
}

/// A parse error and the token where it was found.
#[derive(Debug)]
pub struct ParseError {
    pub kind: ParseErrorKind,
    pub span: Span,
}

impl View for ParseErrorKind {
    type V = SpecParseErrorKind;

    open spec fn view(&self) -> SpecParseErrorKind {
        match self {
            ParseErrorKind::Expected { expected, got } => SpecParseErrorKind::Expected {
                expected: expected@,
                got: got@,
            },
            ParseErrorKind::ExpectedIdentifier { got } => SpecParseErrorKind::ExpectedIdentifier {
                got: got@,
            },
            ParseErrorKind::ExpectedType { got } => SpecParseErrorKind::ExpectedType { got: got@ },
            ParseErrorKind::ExpectedExpression { got } => SpecParseErrorKind::ExpectedExpression {
                got: got@,
            },
            ParseErrorKind::ExpectedNewline { got } => SpecParseErrorKind::ExpectedNewline {
                got: got@,
            },
            ParseErrorKind::ExpectedSeparator { got } => SpecParseErrorKind::ExpectedSeparator {
                got: got@,
            },
            ParseErrorKind::ExternNotTopLevel => SpecParseErrorKind::ExternNotTopLevel,
            ParseErrorKind::NestedFunc => SpecParseErrorKind::NestedFunc,
            ParseErrorKind::ExternWithBody => SpecParseErrorKind::ExternWithBody,
            ParseErrorKind::MissingParamType => SpecParseErrorKind::MissingParamType,
            ParseErrorKind::NoProgress => SpecParseErrorKind::NoProgress,
        }
    }
}

impl View for ParseError {
    type V = SpecParseError;

    open spec fn view(&self) -> SpecParseError {
        SpecParseError { kind: self.kind@, span: self.span }
    }
}

/// The outcome of a parse function in the terms of the grammar.
pub open spec fn outcome<T: View>(r: Result<T, ParseError>, q: usize) -> PRes<T::V> {
    match r {
        Ok(v) => Ok((v@, q as int)),
        Err(e) => Err(e@),
    }
}

pub open spec fn outcome_tys(r: Result<Vec<Ty>, ParseError>, q: usize) -> PRes<Seq<SpecTy>> {
    match r {
        Ok(v) => Ok((tys_view(v@), q as int)),
        Err(e) => Err(e@),
    }
}

pub open spec fn outcome_opt_ty(r: Result<Option<Ty>, ParseError>, q: usize) -> PRes<Option<SpecTy>> {
    match r {
        Ok(v) => Ok((opt_ty_view(v), q as int)),
        Err(e) => Err(e@),
    }
}

pub open spec fn outcome_exprs(r: Result<Vec<Expr>, ParseError>, q: usize) -> PRes<Seq<SpecExpr>> {
    match r {
        Ok(v) => Ok((exprs_view(v@), q as int)),
        Err(e) => Err(e@),
    }
}

pub open spec fn outcome_params(r: Result<Vec<Param>, ParseError>, q: usize) -> PRes<Seq<SpecParam>> {
    match r {
        Ok(v) => Ok((params_view(v@), q as int)),
        Err(e) => Err(e@),
    }
}

pub open spec fn param_open(closure: bool) -> SpecTokenKind {
    if closure { SpecTokenKind::VerBar } else { SpecTokenKind::LParen }
}

pub open spec fn param_close(closure: bool) -> SpecTokenKind {
    if closure { SpecTokenKind::VerBar } else { SpecTokenKind::RParen }
}

pub open spec fn list_open(brackets: bool) -> SpecTokenKind {
    if brackets { SpecTokenKind::LBracket } else { SpecTokenKind::LParen }
}

pub open spec fn list_close(brackets: bool) -> SpecTokenKind {
    if brackets { SpecTokenKind::RBracket } else { SpecTokenKind::RParen }
}

fn bin_op_of(lv: usize, k: &TokenKind) -> (r: Option<BinOpKind>)
    ensures
        r == grammar::bin_op_at(lv as int, k@),
{
    match k {
        TokenKind::Or => if lv == 0 { Some(BinOpKind::Or) } else { None },
        TokenKind::And => if lv == 1 { Some(BinOpKind::And) } else { None },
        TokenKind::EqEq => if lv == 2 { Some(BinOpKind::EqEq) } else { None },
        TokenKind::BangEq => if lv == 2 { Some(BinOpKind::NotEq) } else { None },
        TokenKind::Lt => if lv == 3 { Some(BinOpKind::Lt) } else { None },
        TokenKind::Gt => if lv == 3 { Some(BinOpKind::Gt) } else { None },
        TokenKind::LtEq => if lv == 3 { Some(BinOpKind::LtEq) } else { None },
        TokenKind::GtEq => if lv == 3 { Some(BinOpKind::GtEq) } else { None },
        TokenKind::Plus => if lv == 4 { Some(BinOpKind::Add) } else { None },
        TokenKind::Minus => if lv == 4 { Some(BinOpKind::Sub) } else { None },
        TokenKind::Asterisk => if lv >= 5 { Some(BinOpKind::Mul) } else { None },
        TokenKind::Slash => if lv >= 5 { Some(BinOpKind::Div) } else { None },
        _ => None,
    }
}

pub open spec fn outcome_sig(
    r: Result<(Identifier, Vec<Param>, Option<Ty>), ParseError>,
    q: usize,
) -> PRes<(SpecIdentifier, Seq<SpecParam>, Option<SpecTy>)> {
    match r {
        Ok((n, ps, rt)) => Ok(((n@, params_view(ps@), opt_ty_view(rt)), q as int)),
        Err(e) => Err(e@),
    }
}

/// A parser over a sequence of tokens; past the last token it reads `Eof`.
pub struct Parser {
    pub tokens: Vec<Token>,
    pub pos: usize,
    pub eof: Token,
}

impl Parser {
    pub open spec fn ts(&self) -> Seq<SpecToken> {
        tokens_view(self.tokens@)
    }

    pub open spec fn at(&self) -> int {
        self.pos as int
    }

    pub open spec fn wf(&self) -> bool {
        &&& self.pos <= self.tokens.len()
        &&& self.eof@ == tok(self.ts(), self.tokens.len() as int)
    }

    /// The parser reads the same tokens as `other`.
    pub open spec fn same_input(&self, other: &Parser) -> bool {
        &&& self.tokens@ == other.tokens@
        &&& self.eof@ == other.eof@
    }

    pub fn new(tokens: Vec<Token>) -> (p: Parser)
        ensures
            p.wf(),
            p.pos == 0,
            p.tokens@ == tokens@,
    {
        let span = if tokens.len() > 0 {
            let last = tokens[tokens.len() - 1].span;
            Span { start: last.end, end: last.end }
        } else {
            Span { start: 0, end: 0 }
        };
        let p = Parser { tokens, pos: 0, eof: Token { kind: TokenKind::Eof, span } };
        proof {
            if p.tokens.len() > 0 {
                assert(p.ts().last() == p.tokens@.last()@);
            }
        }
        p
    }

    fn peek(&self) -> (t: &Token)
        requires
            self.wf(),
        ensures
            t@ == tok(self.ts(), self.at()),
    {
        if self.pos < self.tokens.len() {
            &self.tokens[self.pos]
        } else {
            &self.eof
        }
    }

    fn advance(&mut self)
        requires
            old(self).wf(),
            old(self).pos < old(self).tokens.len(),
        ensures
            final(self).wf(),
            final(self).same_input(old(self)),
            final(self).pos == old(self).pos + 1,
    {
        self.pos = self.pos + 1;
    }

    fn cur_span(&self) -> (s: Span)
        requires
            self.wf(),
        ensures
            s == tok(self.ts(), self.at()).span,
    {
        self.peek().span
    }

    fn span_from(&self, start: usize) -> (s: Span)
        requires
            self.wf(),
        ensures
            s == span_from(self.ts(), start, self.at()),
    {
        let end = if self.pos > 0 {
            self.tokens[self.pos - 1].span.end
        } else {
            self.peek().span.start
        };
        Span { start, end }
    }

    fn err(&self, kind: ParseErrorKind) -> (e: ParseError)
        requires
            self.wf(),
        ensures
            e@ == grammar::err_at(self.ts(), self.at(), kind@),
    {
        ParseError { kind, span: self.cur_span() }
    }

    fn expected(&self, k: TokenKind) -> (e: ParseError)
        requires
            self.wf(),
        ensures
            e@ == grammar::expected(self.ts(), self.at(), k@),
    {
        let got = self.peek().kind.duplicate();
        ParseError { kind: ParseErrorKind::Expected { expected: k, got }, span: self.cur_span() }
    }

    fn skip_newlines(&mut self)
        requires
            old(self).wf(),
        ensures
            final(self).wf(),
            final(self).same_input(old(self)),
            final(self).at() == skip_nl(old(self).ts(), old(self).at()),
            old(self).pos <= final(self).pos,
    {
        proof {
            lemma_skip_bounds(self.ts(), self.at());
        }
        while self.pos < self.tokens.len() && matches!(self.tokens[self.pos].kind, TokenKind::Newline)
            invariant
                self.wf(),
                self.same_input(old(self)),
                skip_nl(self.ts(), self.at()) == skip_nl(old(self).ts(), old(self).at()),
            decreases self.tokens.len() - self.pos,
        {
            self.advance();
        }
    }

    fn skip_separators(&mut self)
        requires
            old(self).wf(),
        ensures
            final(self).wf(),
            final(self).same_input(old(self)),
            final(self).at() == skip_sep(old(self).ts(), old(self).at()),
            old(self).pos <= final(self).pos,
    {
        proof {
            lemma_skip_bounds(self.ts(), self.at());
        }
        while self.pos < self.tokens.len() && (matches!(self.tokens[self.pos].kind, TokenKind::Newline)
            || matches!(self.tokens[self.pos].kind, TokenKind::Semicolon) || matches!(
            self.tokens[self.pos].kind,
            TokenKind::Comma,
        ))
            invariant
                self.wf(),
                self.same_input(old(self)),
                skip_sep(self.ts(), self.at()) == skip_sep(old(self).ts(), old(self).at()),
            decreases self.tokens.len() - self.pos,
        {
            self.advance();
        }
    }

    // ---- expressions ----

    // ---- statements ----

    // ---- top level ----

}

} // verus!
