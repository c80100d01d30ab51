use vstd::prelude::*;
use crate::common::span::Span;
use crate::common::Literal;
use crate::common::op::{BinOpKind, UnaryOpKind};
use crate::lexer::token::{SpecTokenKind, TokenKind};
use super::ast::{
    lemma_exprs_view_push, lemma_stmts_view_push, lemma_tys_view_push, lemma_elifs_view_push,
    lemma_params_view_push, lemma_fields_view_push, lemma_variants_view_push, params_view,
    fields_view, variants_view, exprs_view, stmts_view, tys_view, elifs_view, Assign, BinaryOp,
    Block, Call, Closure, DotAccess, DotCall, Elif, Enum, EnumVariant, Expr, ExprKind, ExternFunc,
    Func, Identifier, If, IfExpr, Index, Let, Param, Return, SpecEnumVariant, SpecExpr, SpecParam,
    SpecStructField, Stmt, Struct, StructField, Ty, UnaryOp,
};
use super::grammar::{self, kind, is_sep, SpecParseError};
use super::{
    bin_op_of, list_close, list_open, outcome, outcome_exprs, outcome_opt_ty, outcome_params,
    outcome_sig, outcome_tys, param_close, param_open, ParseErrorKind, Parser, ParseError,
};

verus! {

impl Parser {
    pub fn parse_identifier(&mut self) -> (res: Result<Identifier, ParseError>)
        requires
            old(self).wf(),
        ensures
            final(self).wf(),
            final(self).same_input(old(self)),
            outcome(res, final(self).pos) == grammar::ident(old(self).ts(), old(self).at()),
            res is Ok ==> final(self).pos == old(self).pos + 1,
    {
        let t = self.peek();
        match &t.kind {
            TokenKind::Identifier(v) => {
                let id = Identifier { value: v.clone(), span: t.span };
                self.advance();
                Ok(id)
            },
            k => Err(self.err(ParseErrorKind::ExpectedIdentifier { got: k.duplicate() })),
        }
    }

    pub fn parse_type(&mut self) -> (res: Result<Ty, ParseError>)
        requires
            old(self).wf(),
        ensures
            final(self).wf(),
            final(self).same_input(old(self)),
            outcome(res, final(self).pos) == grammar::ty(old(self).ts(), old(self).at()),
            res is Ok ==> old(self).pos < final(self).pos,
        decreases old(self).tokens@.len() - old(self).pos, 3int,
    {
        reveal_with_fuel(grammar::ty, 1);
        if matches!(self.peek().kind, TokenKind::LBracket) {
            self.advance();
            let inner = self.parse_type()?;
            if matches!(self.peek().kind, TokenKind::RBracket) {
                self.advance();
                Ok(Ty::Array(Box::new(inner)))
            } else {
                Err(self.expected(TokenKind::RBracket))
            }
        } else if matches!(self.peek().kind, TokenKind::VerBar) {
            let p = self.pos;
            self.advance();
            if !matches!(self.peek().kind, TokenKind::Func) {
                return Err(self.expected(TokenKind::Func));
            }
            self.advance();
            let params = match self.parse_type_list() {
                Ok(v) => v,
                Err(e) => return Err(e),
            };
            let ret = if matches!(self.peek().kind, TokenKind::Colon) {
                self.advance();
                Some(Box::new(self.parse_type()?))
            } else {
                None
            };
            if matches!(self.peek().kind, TokenKind::VerBar) {
                self.advance();
                Ok(Ty::Func { params, ret })
            } else {
                Err(self.expected(TokenKind::VerBar))
            }
        } else if matches!(self.peek().kind, TokenKind::Identifier(_)) {
            let name = self.parse_identifier()?;
            Ok(Ty::Named { name })
        } else {
            let got = self.peek().kind.duplicate();
            Err(self.err(ParseErrorKind::ExpectedType { got }))
        }
    }

    /// `( ty, ty, ... )`
    pub(super) fn parse_type_list(&mut self) -> (res: Result<Vec<Ty>, ParseError>)
        requires
            old(self).wf(),
        ensures
            final(self).wf(),
            final(self).same_input(old(self)),
            outcome_tys(res, final(self).pos) == grammar::ty_list(old(self).ts(), old(self).at()),
            res is Ok ==> old(self).pos < final(self).pos,
        decreases old(self).tokens@.len() - old(self).pos, 2int,
    {
        reveal_with_fuel(grammar::ty_list, 1);
        reveal_with_fuel(grammar::ty_items, 1);
        if !matches!(self.peek().kind, TokenKind::LParen) {
            return Err(self.expected(TokenKind::LParen));
        }
        self.advance();
        self.skip_newlines();
        let mut acc: Vec<Ty> = Vec::new();
        loop
            invariant
                self.wf(),
                self.same_input(old(self)),
                old(self).pos < self.pos,
                grammar::ty_items(self.ts(), self.at(), tys_view(acc@)) == grammar::ty_list(
                    old(self).ts(),
                    old(self).at(),
                ),
            decreases self.tokens@.len() - self.pos,
        {
            reveal_with_fuel(grammar::ty_list, 1);
            reveal_with_fuel(grammar::ty_items, 1);
            if matches!(self.peek().kind, TokenKind::RParen) {
                self.advance();
                return Ok(acc);
            }
            let x = self.parse_type()?;
            self.skip_newlines();
            if matches!(self.peek().kind, TokenKind::Comma) {
                self.advance();
                self.skip_newlines();
                proof {
                    lemma_tys_view_push(acc@, x);
                }
                acc.push(x);
            } else if matches!(self.peek().kind, TokenKind::RParen) {
                self.advance();
                proof {
                    lemma_tys_view_push(acc@, x);
                }
                acc.push(x);
                return Ok(acc);
            } else {
                let got = self.peek().kind.duplicate();
                return Err(self.err(ParseErrorKind::ExpectedSeparator { got }));
            }
        }
    }

    /// `: ty`, when the next token is a colon.
    pub fn parse_type_annotation(&mut self) -> (res: Result<Option<Ty>, ParseError>)
        requires
            old(self).wf(),
        ensures
            final(self).wf(),
            final(self).same_input(old(self)),
            outcome_opt_ty(res, final(self).pos) == grammar::ty_annotation(
                old(self).ts(),
                old(self).at(),
            ),
            res is Ok ==> old(self).pos <= final(self).pos,
    {
        if !matches!(self.peek().kind, TokenKind::Colon) {
            return Ok(None);
        }
        self.advance();
        Ok(Some(self.parse_type()?))
    }

    pub fn parse_param(&mut self) -> (res: Result<Param, ParseError>)
        requires
            old(self).wf(),
        ensures
            final(self).wf(),
            final(self).same_input(old(self)),
            outcome(res, final(self).pos) == grammar::param(old(self).ts(), old(self).at()),
            res is Ok ==> old(self).pos < final(self).pos,
    {
        let name = self.parse_identifier()?;
        let ty = self.parse_type_annotation()?;
        Ok(Param { name, ty })
    }

    /// Whether the next token closes a parameter list (`|` for closures, `)` otherwise).
    pub(super) fn at_param_close(&self, closure: bool) -> (b: bool)
        requires
            self.wf(),
        ensures
            b == (kind(self.ts(), self.at()) == param_close(closure)),
    {
        if closure {
            matches!(self.peek().kind, TokenKind::VerBar)
        } else {
            matches!(self.peek().kind, TokenKind::RParen)
        }
    }

    /// The parameters of a function: `(a: Int, b: Int)`, every parameter typed.
    pub fn parse_func_params(&mut self) -> (res: Result<Vec<Param>, ParseError>)
        requires
            old(self).wf(),
        ensures
            final(self).wf(),
            final(self).same_input(old(self)),
            outcome_params(res, final(self).pos) == grammar::param_list(
                old(self).ts(),
                SpecTokenKind::LParen,
                SpecTokenKind::RParen,
                true,
                old(self).at(),
            ),
            res is Ok ==> old(self).pos < final(self).pos,
    {
        self.parse_param_list(false)
    }

    /// The parameters of a closure (`|a, b: Int|`) or of a function
    /// (`(a: Int, b: Int)`, every parameter typed).
    pub(super) fn parse_param_list(&mut self, closure: bool) -> (res: Result<Vec<Param>, ParseError>)
        requires
            old(self).wf(),
        ensures
            final(self).wf(),
            final(self).same_input(old(self)),
            outcome_params(res, final(self).pos) == grammar::param_list(
                old(self).ts(),
                param_open(closure),
                param_close(closure),
                !closure,
                old(self).at(),
            ),
            res is Ok ==> old(self).pos < final(self).pos,
    {
        reveal(grammar::param_list);
        reveal_with_fuel(grammar::param_items, 1);
        let opened = if closure {
            matches!(self.peek().kind, TokenKind::VerBar)
        } else {
            matches!(self.peek().kind, TokenKind::LParen)
        };
        if !opened {
            return Err(self.expected(if closure { TokenKind::VerBar } else { TokenKind::LParen }));
        }
        self.advance();
        self.skip_newlines();
        let mut acc: Vec<Param> = Vec::new();
        assert(params_view(acc@) =~= Seq::<SpecParam>::empty());
        loop
            invariant
                self.wf(),
                self.same_input(old(self)),
                old(self).pos < self.pos,
                grammar::param_items(
                    self.ts(),
                    param_close(closure),
                    !closure,
                    self.at(),
                    params_view(acc@),
                ) == grammar::param_list(
                    old(self).ts(),
                    param_open(closure),
                    param_close(closure),
                    !closure,
                    old(self).at(),
                ),
            decreases self.tokens@.len() - self.pos,
        {
            reveal(grammar::param_list);
            reveal_with_fuel(grammar::param_items, 1);
            if self.at_param_close(closure) {
                self.advance();
                return Ok(acc);
            }
            let x = self.parse_param()?;
            if !closure && x.ty.is_none() {
                return Err(self.err(ParseErrorKind::MissingParamType));
            }
            self.skip_newlines();
            let ghost before = params_view(acc@);
            if matches!(self.peek().kind, TokenKind::Comma) {
                self.advance();
                self.skip_newlines();
                proof {
                    lemma_params_view_push(acc@, x);
                }
                acc.push(x);
            } else if self.at_param_close(closure) {
                self.advance();
                proof {
                    lemma_params_view_push(acc@, x);
                }
                acc.push(x);
                return Ok(acc);
            } else {
                let got = self.peek().kind.duplicate();
                return Err(self.err(ParseErrorKind::ExpectedSeparator { got }));
            }
        }
    }
}

} // verus!
