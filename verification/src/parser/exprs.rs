use vstd::prelude::*;
use crate::common::span::Span;
use crate::common::Literal;
use crate::common::op::{BinOpKind, UnaryOpKind};
use crate::lexer::token::{SpecTokenKind, TokenKind};
use super::ast::{SpecBlock, SpecExprKind, 
    lemma_exprs_view_push, lemma_stmts_view_push, lemma_tys_view_push, lemma_elifs_view_push,
    lemma_params_view_push, lemma_fields_view_push, lemma_variants_view_push, params_view,
    fields_view, variants_view, exprs_view, stmts_view, tys_view, elifs_view, Assign, BinaryOp,
    Block, Call, Closure, DotAccess, DotCall, Elif, Enum, EnumVariant, Expr, ExprKind, ExternFunc,
    Func, Identifier, If, IfExpr, Index, Let, Param, Return, SpecEnumVariant, SpecExpr, SpecParam,
    SpecStructField, Stmt, Struct, StructField, Ty, UnaryOp,
};
use super::grammar::{self, kind, is_sep, SpecParseError};
use super::{
    bin_op_of, list_close, list_open, outcome, outcome_exprs, outcome_opt_ty, outcome_params,
    outcome_sig, outcome_tys, param_close, param_open, ParseErrorKind, Parser, ParseError,
};

verus! {

impl Parser {
    pub(super) fn parse_expr(&mut self) -> (res: Result<Expr, ParseError>)
        requires
            old(self).wf(),
        ensures
            final(self).wf(),
            final(self).same_input(old(self)),
            outcome(res, final(self).pos) == grammar::expr(old(self).ts(), old(self).at()),
            res is Ok ==> old(self).pos < final(self).pos,
        decreases old(self).tokens@.len() - old(self).pos, 41int,
    {
        reveal_with_fuel(grammar::expr, 1);
        self.parse_binary(0)
    }

    /// A chain of operators of precedence level `lv` (see [`grammar::bin_op_at`]).
    pub(super) fn parse_binary(&mut self, lv: usize) -> (res: Result<Expr, ParseError>)
        requires
            old(self).wf(),
            lv <= 5,
        ensures
            final(self).wf(),
            final(self).same_input(old(self)),
            outcome(res, final(self).pos) == grammar::binary(old(self).ts(), lv as int, old(self).at()),
            res is Ok ==> old(self).pos < final(self).pos,
        decreases old(self).tokens@.len() - old(self).pos, grammar::level_rank(lv as int),
    {
        reveal_with_fuel(grammar::binary, 1);
        reveal_with_fuel(grammar::binary_tail, 1);
        let mut left = self.parse_operand(lv)?;
        loop
            invariant
                self.wf(),
                self.same_input(old(self)),
                old(self).pos < self.pos,
                lv <= 5,
                grammar::binary_tail(self.ts(), lv as int, left@, self.at()) == grammar::binary(
                    old(self).ts(),
                    lv as int,
                    old(self).at(),
                ),
            decreases self.tokens@.len() - self.pos,
        {
            reveal_with_fuel(grammar::binary, 1);
            reveal_with_fuel(grammar::binary_tail, 1);
            let op = match bin_op_of(lv, &self.peek().kind) {
                Some(op) => op,
                None => return Ok(left),
            };
            self.advance();
            let right = self.parse_operand(lv)?;
            let span = Span { start: left.span.start, end: right.span.end };
            left = Expr {
                kind: ExprKind::BinaryOp(BinaryOp { op, left: Box::new(left), right: Box::new(right) }),
                span,
            };
        }
    }

    pub(super) fn parse_operand(&mut self, lv: usize) -> (res: Result<Expr, ParseError>)
        requires
            old(self).wf(),
            lv <= 5,
        ensures
            final(self).wf(),
            final(self).same_input(old(self)),
            outcome(res, final(self).pos) == grammar::operand(old(self).ts(), lv as int, old(self).at()),
            res is Ok ==> old(self).pos < final(self).pos,
        decreases old(self).tokens@.len() - old(self).pos, grammar::level_rank(lv as int) - 1,
    {
        reveal_with_fuel(grammar::operand, 1);
        if lv < 5 {
            self.parse_binary(lv + 1)
        } else {
            self.parse_unary()
        }
    }

    pub(super) fn parse_unary(&mut self) -> (res: Result<Expr, ParseError>)
        requires
            old(self).wf(),
        ensures
            final(self).wf(),
            final(self).same_input(old(self)),
            outcome(res, final(self).pos) == grammar::unary(old(self).ts(), old(self).at()),
            res is Ok ==> old(self).pos < final(self).pos,
        decreases old(self).tokens@.len() - old(self).pos, 28int,
    {
        reveal_with_fuel(grammar::unary, 1);
        let is_neg = matches!(self.peek().kind, TokenKind::Minus);
        let is_not = matches!(self.peek().kind, TokenKind::Bang);
        if is_neg || is_not {
            let op = if is_neg {
                UnaryOpKind::Neg
            } else {
                UnaryOpKind::Not
            };
            let start = self.cur_span().start;
            self.advance();
            let operand = self.parse_unary()?;
            let span = Span { start, end: operand.span.end };
            Ok(Expr { kind: ExprKind::UnaryOp(UnaryOp { op, operand: Box::new(operand) }), span })
        } else {
            self.parse_postfix()
        }
    }

    pub(super) fn parse_postfix(&mut self) -> (res: Result<Expr, ParseError>)
        requires
            old(self).wf(),
        ensures
            final(self).wf(),
            final(self).same_input(old(self)),
            outcome(res, final(self).pos) == grammar::postfix(old(self).ts(), old(self).at()),
            res is Ok ==> old(self).pos < final(self).pos,
        decreases old(self).tokens@.len() - old(self).pos, 27int,
    {
        reveal_with_fuel(grammar::postfix, 1);
        reveal_with_fuel(grammar::postfix_tail, 1);
        let mut e = self.parse_primary()?;
        loop
            invariant
                self.wf(),
                self.same_input(old(self)),
                old(self).pos < self.pos,
                grammar::postfix_tail(self.ts(), e@, self.at()) == grammar::postfix(
                    old(self).ts(),
                    old(self).at(),
                ),
            decreases self.tokens@.len() - self.pos,
        {
            reveal_with_fuel(grammar::postfix, 1);
            reveal_with_fuel(grammar::postfix_tail, 1);
            let start = e.span.start;
            if matches!(self.peek().kind, TokenKind::Dot) {
                self.advance();
                let name = self.parse_identifier()?;
                if matches!(self.peek().kind, TokenKind::LParen) {
                    let args = self.parse_expr_list(false)?;
                    let span = self.span_from(start);
                    e = Expr { kind: ExprKind::DotCall(DotCall { base: Box::new(e), callee: name, args }), span };
                } else {
                    let span = Span { start, end: name.span.end };
                    e = Expr { kind: ExprKind::DotAccess(DotAccess { base: Box::new(e), name }), span };
                }
            } else if matches!(self.peek().kind, TokenKind::LParen) {
                let args = self.parse_expr_list(false)?;
                let span = self.span_from(start);
                e = Expr { kind: ExprKind::Call(Call { callee: Box::new(e), args }), span };
            } else if matches!(self.peek().kind, TokenKind::LBracket) {
                self.advance();
                let index = self.parse_expr()?;
                if !matches!(self.peek().kind, TokenKind::RBracket) {
                    return Err(self.expected(TokenKind::RBracket));
                }
                self.advance();
                let span = self.span_from(start);
                e = Expr { kind: ExprKind::Index(Index { base: Box::new(e), index: Box::new(index) }), span };
            } else {
                return Ok(e);
            }
        }
    }

    pub(super) fn literal_expr(&mut self, lit: Literal) -> (e: Expr)
        requires
            old(self).wf(),
            old(self).pos < old(self).tokens.len(),
        ensures
            final(self).wf(),
            final(self).same_input(old(self)),
            final(self).pos == old(self).pos + 1,
            grammar::lit_expr(old(self).ts(), old(self).at(), lit@) == Ok::<(SpecExpr, int), SpecParseError>((e@, final(self).at())),
    {
        let span = self.cur_span();
        self.advance();
        Expr { kind: ExprKind::Literal(lit), span }
    }

    pub(super) fn parse_primary(&mut self) -> (res: Result<Expr, ParseError>)
        requires
            old(self).wf(),
        ensures
            final(self).wf(),
            final(self).same_input(old(self)),
            outcome(res, final(self).pos) == grammar::primary(old(self).ts(), old(self).at()),
            res is Ok ==> old(self).pos < final(self).pos,
            !grammar::starts_primary(kind(old(self).ts(), old(self).at())) ==> final(self).pos == old(self).pos,
        decreases old(self).tokens@.len() - old(self).pos, 26int,
    {
        reveal_with_fuel(grammar::primary, 1);
        let k = self.peek().kind.duplicate();
        match k {
            TokenKind::Int(v) => Ok(self.literal_expr(Literal::Int(v))),
            TokenKind::Float(s) => Ok(self.literal_expr(Literal::Float(s))),
            TokenKind::True => Ok(self.literal_expr(Literal::Bool(true))),
            TokenKind::False => Ok(self.literal_expr(Literal::Bool(false))),
            TokenKind::LParen => {
                self.advance();
                self.skip_newlines();
                let e = self.parse_expr()?;
                self.skip_newlines();
                if !matches!(self.peek().kind, TokenKind::RParen) {
                    return Err(self.expected(TokenKind::RParen));
                }
                self.advance();
                Ok(e)
            },
            TokenKind::LBracket => {
                let start = self.cur_span().start;
                let elems = self.parse_expr_list(true)?;
                let span = self.span_from(start);
                Ok(Expr { kind: ExprKind::Array(elems), span })
            },
            TokenKind::LBrace => {
                let b = self.parse_block()?;
                let span = b.span;
                Ok(Expr { kind: ExprKind::Block(b), span })
            },
            TokenKind::If => {
                let start = self.cur_span().start;
                self.advance();
                self.parse_if_expr(start)
            },
            TokenKind::VerBar => self.parse_closure(),
            TokenKind::Or => self.parse_closure(),
            TokenKind::Identifier(_) => {
                let id = self.parse_identifier()?;
                let span = id.span;
                Ok(Expr { kind: ExprKind::Identifier(id), span })
            },
            got => Err(self.err(ParseErrorKind::ExpectedExpression { got })),
        }
    }

    /// The rest of an `if` expression after the keyword, which starts at `start`.
    pub(super) fn parse_if_expr(&mut self, start: usize) -> (res: Result<Expr, ParseError>)
        requires
            old(self).wf(),
        ensures
            final(self).wf(),
            final(self).same_input(old(self)),
            outcome(res, final(self).pos) == grammar::if_expr(old(self).ts(), old(self).at(), start),
            res is Ok ==> old(self).pos < final(self).pos,
        decreases old(self).tokens@.len() - old(self).pos, 45int,
    {
        reveal_with_fuel(grammar::if_expr, 1);
        let ghost ts = old(self).ts();
        let ghost p = old(self).at();
        let condition = self.parse_expr()?;
        let ghost q = self.at();
        let then_block = self.parse_block()?;
        let ghost r = self.at();
        assert(grammar::expr(ts, p) == Ok::<(SpecExpr, int), SpecParseError>((condition@, q)));
        assert(grammar::block(ts, q) == Ok::<(SpecBlock, int), SpecParseError>((then_block@, r)));
        if matches!(self.peek().kind, TokenKind::Elif) {
            let elif_start = self.cur_span().start;
            self.advance();
            let e = self.parse_if_expr(elif_start)?;
            let ghost s1 = self.at();
            let ghost ev = e@;
            assert(grammar::if_expr(ts, r + 1, elif_start) == Ok::<(SpecExpr, int), SpecParseError>((ev, s1)));
            let span = Span { start, end: e.span.end };
            let out = Expr {
                kind: ExprKind::If(
                    IfExpr { condition: Box::new(condition), then_block, else_branch: Some(Box::new(e)) },
                ),
                span,
            };
            assert(out@.kind == (SpecExprKind::If {
                condition: Box::new(condition@),
                then_block: then_block@,
                else_branch: Some(Box::new(ev)),
            }));
            assert(grammar::if_expr(ts, p, start) == Ok::<(SpecExpr, int), SpecParseError>((out@, self.at())));
            Ok(out)
        } else if matches!(self.peek().kind, TokenKind::Else) {
            self.advance();
            let b = self.parse_block()?;
            let ghost s1 = self.at();
            assert(grammar::block(ts, r + 1) == Ok::<(SpecBlock, int), SpecParseError>((b@, s1)));
            let bspan = b.span;
            let ghost bv = b@;
            let else_expr = Expr { kind: ExprKind::Block(b), span: bspan };
            assert(else_expr@ == SpecExpr { kind: SpecExprKind::Block(bv), span: bv.span });
            let out = Expr {
                kind: ExprKind::If(
                    IfExpr {
                        condition: Box::new(condition),
                        then_block,
                        else_branch: Some(Box::new(else_expr)),
                    },
                ),
                span: Span { start, end: bspan.end },
            };
            assert(grammar::if_expr(ts, p, start) == Ok::<(SpecExpr, int), SpecParseError>((out@, self.at())));
            Ok(out)
        } else {
            let span = Span { start, end: then_block.span.end };
            let out = Expr {
                kind: ExprKind::If(
                    IfExpr { condition: Box::new(condition), then_block, else_branch: None },
                ),
                span,
            };
            assert(grammar::if_expr(ts, p, start) == Ok::<(SpecExpr, int), SpecParseError>((out@, self.at())));
            Ok(out)
        }
    }

    pub(super) fn parse_closure(&mut self) -> (res: Result<Expr, ParseError>)
        requires
            old(self).wf(),
        ensures
            final(self).wf(),
            final(self).same_input(old(self)),
            outcome(res, final(self).pos) == grammar::closure(old(self).ts(), old(self).at()),
            res is Ok ==> old(self).pos < final(self).pos,
        decreases old(self).tokens@.len() - old(self).pos, 13int,
    {
        reveal_with_fuel(grammar::closure, 1);
        let start = self.cur_span().start;
        // `||` is read as one token: an empty parameter list
        let params = if matches!(self.peek().kind, TokenKind::Or) {
            self.advance();
            let v: Vec<Param> = Vec::new();
            assert(params_view(v@) =~= Seq::<SpecParam>::empty());
            v
        } else {
            self.parse_param_list(true)?
        };
        let ret = if matches!(self.peek().kind, TokenKind::Arrow) {
            self.advance();
            Some(self.parse_type()?)
        } else {
            None
        };
        if !matches!(self.peek().kind, TokenKind::FatArrow) {
            return Err(self.expected(TokenKind::FatArrow));
        }
        self.advance();
        let body = self.parse_expr()?;
        let span = Span { start, end: body.span.end };
        Ok(Expr { kind: ExprKind::Closure(Closure { params, ret, body: Box::new(body) }), span })
    }

    /// Arguments `( e, e, ... )`, or with `brackets` array elements `[ e, e, ... ]`.
    pub(super) fn parse_expr_list(&mut self, brackets: bool) -> (res: Result<Vec<Expr>, ParseError>)
        requires
            old(self).wf(),
        ensures
            final(self).wf(),
            final(self).same_input(old(self)),
            outcome_exprs(res, final(self).pos) == grammar::expr_list(
                old(self).ts(),
                list_open(brackets),
                list_close(brackets),
                old(self).at(),
            ),
            res is Ok ==> old(self).pos < final(self).pos,
        decreases old(self).tokens@.len() - old(self).pos, 14int,
    {
        reveal_with_fuel(grammar::expr_list, 1);
        reveal_with_fuel(grammar::expr_items, 1);
        let opened = if brackets {
            matches!(self.peek().kind, TokenKind::LBracket)
        } else {
            matches!(self.peek().kind, TokenKind::LParen)
        };
        if !opened {
            return Err(self.expected(if brackets { TokenKind::LBracket } else { TokenKind::LParen }));
        }
        self.advance();
        self.skip_newlines();
        let mut acc: Vec<Expr> = Vec::new();
        loop
            invariant
                self.wf(),
                self.same_input(old(self)),
                old(self).pos < self.pos,
                grammar::expr_items(self.ts(), list_close(brackets), self.at(), exprs_view(acc@))
                    == grammar::expr_list(
                    old(self).ts(),
                    list_open(brackets),
                    list_close(brackets),
                    old(self).at(),
                ),
            decreases self.tokens@.len() - self.pos,
        {
            reveal_with_fuel(grammar::expr_list, 1);
            reveal_with_fuel(grammar::expr_items, 1);
            if self.at_list_close(brackets) {
                self.advance();
                return Ok(acc);
            }
            let x = self.parse_expr()?;
            self.skip_newlines();
            if matches!(self.peek().kind, TokenKind::Comma) {
                self.advance();
                self.skip_newlines();
                proof {
                    lemma_exprs_view_push(acc@, x);
                }
                acc.push(x);
            } else if self.at_list_close(brackets) {
                self.advance();
                proof {
                    lemma_exprs_view_push(acc@, x);
                }
                acc.push(x);
                return Ok(acc);
            } else {
                let got = self.peek().kind.duplicate();
                return Err(self.err(ParseErrorKind::ExpectedSeparator { got }));
            }
        }
    }

    pub(super) fn at_list_close(&self, brackets: bool) -> (b: bool)
        requires
            self.wf(),
        ensures
            b == (kind(self.ts(), self.at()) == list_close(brackets)),
    {
        if brackets {
            matches!(self.peek().kind, TokenKind::RBracket)
        } else {
            matches!(self.peek().kind, TokenKind::RParen)
        }
    }
}

} // verus!
