use vstd::prelude::*;
use crate::common::span::Span;
use crate::common::Literal;
use crate::common::op::{BinOpKind, UnaryOpKind};
use crate::lexer::token::{SpecTokenKind, TokenKind};
use super::ast::{
    SpecElif,
    lemma_exprs_view_push, lemma_stmts_view_push, lemma_tys_view_push, lemma_elifs_view_push,
    lemma_params_view_push, lemma_fields_view_push, lemma_variants_view_push, params_view,
    fields_view, variants_view, exprs_view, stmts_view, tys_view, elifs_view, Assign, BinaryOp,
    Block, Call, Closure, DotAccess, DotCall, Elif, Enum, EnumVariant, Expr, ExprKind, ExternFunc,
    Func, Identifier, If, IfExpr, Index, Let, Param, Return, SpecEnumVariant, SpecExpr, SpecParam,
    SpecStructField, Stmt, Struct, StructField, Ty, UnaryOp,
};
use super::grammar::{self, kind, is_sep, PRes, SpecParseError};
use super::{
    bin_op_of, list_close, list_open, outcome, outcome_exprs, outcome_opt_ty, outcome_params,
    outcome_sig, outcome_tys, param_close, param_open, ParseErrorKind, Parser, ParseError,
};

verus! {

spec fn outcome_elifs(r: Result<Vec<Elif>, ParseError>, q: usize) -> PRes<Seq<SpecElif>> {
    match r {
        Ok(v) => Ok((elifs_view(v@), q as int)),
        Err(e) => Err(e@),
    }
}

impl Parser {
    pub(super) fn at_sep(&self) -> (b: bool)
        requires
            self.wf(),
        ensures
            b == is_sep(kind(self.ts(), self.at())),
    {
        matches!(self.peek().kind, TokenKind::Newline) || matches!(self.peek().kind, TokenKind::Semicolon)
            || matches!(self.peek().kind, TokenKind::Comma)
    }

    pub(super) fn parse_block(&mut self) -> (res: Result<Block, ParseError>)
        requires
            old(self).wf(),
        ensures
            final(self).wf(),
            final(self).same_input(old(self)),
            outcome(res, final(self).pos) == grammar::block(old(self).ts(), old(self).at()),
            res is Ok ==> old(self).pos < final(self).pos,
        decreases old(self).tokens@.len() - old(self).pos, 15int,
    {
        reveal_with_fuel(grammar::block, 1);
        reveal_with_fuel(grammar::stmt_items, 1);
        if !matches!(self.peek().kind, TokenKind::LBrace) {
            return Err(self.expected(TokenKind::LBrace));
        }
        let start = self.cur_span().start;
        self.advance();
        self.skip_separators();
        let mut acc: Vec<Stmt> = Vec::new();
        loop
            invariant
                self.wf(),
                self.same_input(old(self)),
                old(self).pos < self.pos,
                grammar::finish_block(
                    self.ts(),
                    start,
                    grammar::stmt_items(self.ts(), self.at(), stmts_view(acc@)),
                ) == grammar::block(old(self).ts(), old(self).at()),
            decreases self.tokens@.len() - self.pos,
        {
            reveal_with_fuel(grammar::block, 1);
            reveal_with_fuel(grammar::stmt_items, 1);
            if matches!(self.peek().kind, TokenKind::RBrace) {
                self.advance();
                let span = self.span_from(start);
                return Ok(Block { stmts: acc, span });
            }
            let x = self.parse_stmt()?;
            if self.at_sep() {
                self.skip_separators();
                proof {
                    lemma_stmts_view_push(acc@, x);
                }
                acc.push(x);
            } else if matches!(self.peek().kind, TokenKind::RBrace) {
                self.advance();
                proof {
                    lemma_stmts_view_push(acc@, x);
                }
                acc.push(x);
                let span = self.span_from(start);
                return Ok(Block { stmts: acc, span });
            } else {
                let got = self.peek().kind.duplicate();
                return Err(self.err(ParseErrorKind::ExpectedSeparator { got }));
            }
        }
    }

    pub(super) fn parse_stmt(&mut self) -> (res: Result<Stmt, ParseError>)
        requires
            old(self).wf(),
        ensures
            final(self).wf(),
            final(self).same_input(old(self)),
            outcome(res, final(self).pos) == grammar::stmt(old(self).ts(), old(self).at()),
            res is Ok ==> old(self).pos < final(self).pos,
        decreases old(self).tokens@.len() - old(self).pos, 55int,
    {
        reveal_with_fuel(grammar::stmt, 1);
        if matches!(self.peek().kind, TokenKind::Extern) {
            Err(self.err(ParseErrorKind::ExternNotTopLevel))
        } else if matches!(self.peek().kind, TokenKind::Func) {
            Err(self.err(ParseErrorKind::NestedFunc))
        } else if matches!(self.peek().kind, TokenKind::Struct) {
            Ok(Stmt::Struct(self.parse_struct_decl()?))
        } else if matches!(self.peek().kind, TokenKind::Enum) {
            Ok(Stmt::Enum(self.parse_enum_decl()?))
        } else if matches!(self.peek().kind, TokenKind::Local) {
            let start = self.cur_span().start;
            self.advance();
            Ok(Stmt::Let(self.parse_let(start)?))
        } else if matches!(self.peek().kind, TokenKind::Return) {
            self.advance();
            Ok(Stmt::Return(self.parse_return()?))
        } else if matches!(self.peek().kind, TokenKind::If) {
            let start = self.cur_span().start;
            self.advance();
            Ok(Stmt::If(self.parse_if_stmt(start)?))
        } else if matches!(self.peek().kind, TokenKind::LBrace) {
            Ok(Stmt::Block(self.parse_block()?))
        } else {
            let e = self.parse_expr()?;
            if matches!(self.peek().kind, TokenKind::Eq) {
                let start = e.span.start;
                self.advance();
                let value = self.parse_expr()?;
                let span = self.span_from(start);
                Ok(Stmt::Assign(Assign { target: e, value, span }))
            } else {
                Ok(Stmt::Expr(e))
            }
        }
    }

    /// The rest of `local name: ty = value` after the keyword, which starts at `start`.
    pub(super) fn parse_let(&mut self, start: usize) -> (res: Result<Let, ParseError>)
        requires
            old(self).wf(),
        ensures
            final(self).wf(),
            final(self).same_input(old(self)),
            outcome(res, final(self).pos) == grammar::let_decl(old(self).ts(), old(self).at(), start),
            res is Ok ==> old(self).pos < final(self).pos,
        decreases old(self).tokens@.len() - old(self).pos, 50int,
    {
        reveal_with_fuel(grammar::let_decl, 1);
        let name = self.parse_identifier()?;
        let annot_ty = self.parse_type_annotation()?;
        if !matches!(self.peek().kind, TokenKind::Eq) {
            return Err(self.expected(TokenKind::Eq));
        }
        self.advance();
        let value = self.parse_expr()?;
        let span = self.span_from(start);
        Ok(Let { name, annot_ty, value, span })
    }

    /// The rest of a `return` statement after the keyword.
    pub(super) fn parse_return(&mut self) -> (res: Result<Return, ParseError>)
        requires
            old(self).wf(),
        ensures
            final(self).wf(),
            final(self).same_input(old(self)),
            outcome(res, final(self).pos) == grammar::return_stmt(old(self).ts(), old(self).at()),
            res is Ok ==> old(self).pos <= final(self).pos,
        decreases old(self).tokens@.len() - old(self).pos, 50int,
    {
        reveal_with_fuel(grammar::return_stmt, 1);
        if matches!(self.peek().kind, TokenKind::Newline) || matches!(self.peek().kind, TokenKind::RBrace) {
            let span = self.cur_span();
            Ok(Return { value: None, span })
        } else {
            let e = self.parse_expr()?;
            let span = e.span;
            Ok(Return { value: Some(e), span })
        }
    }

    /// The `elif` branches that follow, if any.
    fn parse_elif_chain(&mut self) -> (res: Result<Vec<Elif>, ParseError>)
        requires
            old(self).wf(),
        ensures
            final(self).wf(),
            final(self).same_input(old(self)),
            outcome_elifs(res, final(self).pos) == grammar::elif_items(
                old(self).ts(),
                old(self).at(),
                Seq::empty(),
            ),
            res is Ok ==> old(self).pos <= final(self).pos,
        decreases old(self).tokens@.len() - old(self).pos, 49int,
    {
        let mut elifs: Vec<Elif> = Vec::new();
        assert(elifs_view(elifs@) =~= Seq::<SpecElif>::empty());
        loop
            invariant
                self.wf(),
                self.same_input(old(self)),
                old(self).pos <= self.pos,
                grammar::elif_items(self.ts(), self.at(), elifs_view(elifs@))
                    == grammar::elif_items(old(self).ts(), old(self).at(), Seq::empty()),
            decreases self.tokens@.len() - self.pos,
        {
            reveal_with_fuel(grammar::elif_items, 1);
            if !matches!(self.peek().kind, TokenKind::Elif) {
                return Ok(elifs);
            }
            let elif_start = self.cur_span().start;
            self.advance();
            let condition = self.parse_expr()?;
            let then_block = self.parse_block()?;
            let span = self.span_from(elif_start);
            let elif = Elif { condition, then_block, span };
            proof {
                lemma_elifs_view_push(elifs@, elif);
            }
            elifs.push(elif);
        }
    }

    /// The rest of an `if` statement after the keyword, which starts at `start`.
    pub(super) fn parse_if_stmt(&mut self, start: usize) -> (res: Result<If, ParseError>)
        requires
            old(self).wf(),
        ensures
            final(self).wf(),
            final(self).same_input(old(self)),
            outcome(res, final(self).pos) == grammar::if_stmt(old(self).ts(), old(self).at(), start),
            res is Ok ==> old(self).pos < final(self).pos,
        decreases old(self).tokens@.len() - old(self).pos, 50int,
    {
        reveal_with_fuel(grammar::if_stmt, 1);
        reveal_with_fuel(grammar::if_rest, 1);
        let ghost ts = old(self).ts();
        let ghost p = old(self).at();
        let condition = self.parse_expr()?;
        let then_block = self.parse_block()?;
        let ghost r = self.at();
        let elifs = self.parse_elif_chain()?;
        let ghost s1 = self.at();
        assert(grammar::elif_items(ts, r, Seq::empty())
            == Ok::<(Seq<SpecElif>, int), SpecParseError>((elifs_view(elifs@), s1)));
        let else_block = if matches!(self.peek().kind, TokenKind::Else) {
            self.advance();
            Some(self.parse_block()?)
        } else {
            None
        };
        let span = self.span_from(start);
        Ok(If { condition, then_block, elifs, else_block, span })
    }

    /// `struct Name { field: ty ... }`; the keyword is the next token.
    pub fn parse_struct_decl(&mut self) -> (res: Result<Struct, ParseError>)
        requires
            old(self).wf(),
            kind(old(self).ts(), old(self).at()) is Struct,
        ensures
            final(self).wf(),
            final(self).same_input(old(self)),
            outcome(res, final(self).pos) == grammar::struct_decl(old(self).ts(), old(self).at()),
            res is Ok ==> old(self).pos < final(self).pos,
    {
        reveal(grammar::struct_decl);
        reveal_with_fuel(grammar::field_items, 1);
        let start = self.cur_span().start;
        self.advance();
        let name = self.parse_identifier()?;
        if !matches!(self.peek().kind, TokenKind::LBrace) {
            return Err(self.expected(TokenKind::LBrace));
        }
        self.advance();
        self.skip_separators();
        let mut acc: Vec<StructField> = Vec::new();
        assert(fields_view(acc@) =~= Seq::<SpecStructField>::empty());
        loop
            invariant
                self.wf(),
                self.same_input(old(self)),
                old(self).pos < self.pos,
                grammar::finish_struct(
                    self.ts(),
                    name@,
                    start,
                    grammar::field_items(self.ts(), self.at(), fields_view(acc@)),
                ) == grammar::struct_decl(old(self).ts(), old(self).at()),
            decreases self.tokens@.len() - self.pos,
        {
            reveal(grammar::struct_decl);
            reveal_with_fuel(grammar::field_items, 1);
            if matches!(self.peek().kind, TokenKind::RBrace) {
                self.advance();
                let span = self.span_from(start);
                return Ok(Struct { name, fields: acc, span });
            }
            let x = self.parse_struct_field()?;
            let ghost before = fields_view(acc@);
            if self.at_sep() {
                self.skip_separators();
                proof {
                    lemma_fields_view_push(acc@, x);
                }
                acc.push(x);
            } else if matches!(self.peek().kind, TokenKind::RBrace) {
                self.advance();
                proof {
                    lemma_fields_view_push(acc@, x);
                }
                acc.push(x);
                let span = self.span_from(start);
                return Ok(Struct { name, fields: acc, span });
            } else {
                let got = self.peek().kind.duplicate();
                return Err(self.err(ParseErrorKind::ExpectedSeparator { got }));
            }
        }
    }

    pub fn parse_struct_field(&mut self) -> (res: Result<StructField, ParseError>)
        requires
            old(self).wf(),
        ensures
            final(self).wf(),
            final(self).same_input(old(self)),
            outcome(res, final(self).pos) == grammar::field(old(self).ts(), old(self).at()),
            res is Ok ==> old(self).pos < final(self).pos,
    {
        reveal(grammar::field);
        let start = self.cur_span().start;
        let name = self.parse_identifier()?;
        if !matches!(self.peek().kind, TokenKind::Colon) {
            return Err(self.expected(TokenKind::Colon));
        }
        self.advance();
        let ty = self.parse_type()?;
        let span = self.span_from(start);
        Ok(StructField { name, ty, span })
    }

    /// `enum Name { Variant, Variant(ty, ...) ... }`; the keyword is the next token.
    pub fn parse_enum_decl(&mut self) -> (res: Result<Enum, ParseError>)
        requires
            old(self).wf(),
            kind(old(self).ts(), old(self).at()) is Enum,
        ensures
            final(self).wf(),
            final(self).same_input(old(self)),
            outcome(res, final(self).pos) == grammar::enum_decl(old(self).ts(), old(self).at()),
            res is Ok ==> old(self).pos < final(self).pos,
    {
        reveal(grammar::enum_decl);
        reveal_with_fuel(grammar::variant_items, 1);
        let start = self.cur_span().start;
        self.advance();
        let name = self.parse_identifier()?;
        if !matches!(self.peek().kind, TokenKind::LBrace) {
            return Err(self.expected(TokenKind::LBrace));
        }
        self.advance();
        self.skip_separators();
        let mut acc: Vec<EnumVariant> = Vec::new();
        assert(variants_view(acc@) =~= Seq::<SpecEnumVariant>::empty());
        loop
            invariant
                self.wf(),
                self.same_input(old(self)),
                old(self).pos < self.pos,
                grammar::finish_enum(
                    self.ts(),
                    name@,
                    start,
                    grammar::variant_items(self.ts(), self.at(), variants_view(acc@)),
                ) == grammar::enum_decl(old(self).ts(), old(self).at()),
            decreases self.tokens@.len() - self.pos,
        {
            reveal(grammar::enum_decl);
            reveal_with_fuel(grammar::variant_items, 1);
            if matches!(self.peek().kind, TokenKind::RBrace) {
                self.advance();
                let span = self.span_from(start);
                return Ok(Enum { name, variants: acc, span });
            }
            let x = self.parse_enum_variant()?;
            let ghost before = variants_view(acc@);
            if self.at_sep() {
                self.skip_separators();
                proof {
                    lemma_variants_view_push(acc@, x);
                }
                acc.push(x);
            } else if matches!(self.peek().kind, TokenKind::RBrace) {
                self.advance();
                proof {
                    lemma_variants_view_push(acc@, x);
                }
                acc.push(x);
                let span = self.span_from(start);
                return Ok(Enum { name, variants: acc, span });
            } else {
                let got = self.peek().kind.duplicate();
                return Err(self.err(ParseErrorKind::ExpectedSeparator { got }));
            }
        }
    }

    pub fn parse_enum_variant(&mut self) -> (res: Result<EnumVariant, ParseError>)
        requires
            old(self).wf(),
        ensures
            final(self).wf(),
            final(self).same_input(old(self)),
            outcome(res, final(self).pos) == grammar::variant(old(self).ts(), old(self).at()),
            res is Ok ==> old(self).pos < final(self).pos,
    {
        reveal(grammar::variant);
        let start = self.cur_span().start;
        let name = self.parse_identifier()?;
        let ty_fields = if matches!(self.peek().kind, TokenKind::LParen) {
            self.parse_type_list()?
        } else {
            Vec::new()
        };
        let span = self.span_from(start);
        Ok(EnumVariant { name, ty_fields, span })
    }

    pub fn parse_func_sig(&mut self) -> (res: Result<(Identifier, Vec<Param>, Option<Ty>), ParseError>)
        requires
            old(self).wf(),
        ensures
            final(self).wf(),
            final(self).same_input(old(self)),
            outcome_sig(res, final(self).pos) == grammar::func_sig(old(self).ts(), old(self).at()),
            res is Ok ==> old(self).pos < final(self).pos,
    {
        reveal(grammar::func_sig);
        if !matches!(self.peek().kind, TokenKind::Func) {
            return Err(self.expected(TokenKind::Func));
        }
        self.advance();
        let name = self.parse_identifier()?;
        let params = self.parse_func_params()?;
        let ret = self.parse_type_annotation()?;
        Ok((name, params, ret))
    }

    pub(super) fn parse_func_decl(&mut self) -> (res: Result<Func, ParseError>)
        requires
            old(self).wf(),
        ensures
            final(self).wf(),
            final(self).same_input(old(self)),
            outcome(res, final(self).pos) == grammar::func_decl(old(self).ts(), old(self).at()),
            res is Ok ==> old(self).pos < final(self).pos,
    {
        reveal(grammar::func_decl);
        let start = self.cur_span().start;
        let (name, params, ret) = self.parse_func_sig()?;
        let body = self.parse_block()?;
        let span = self.span_from(start);
        Ok(Func { name, params, ret, body, span })
    }

    /// `extern module/symbol`, a newline, then a signature; the keyword is the next token.
    pub fn parse_extern_func_decl(&mut self) -> (res: Result<ExternFunc, ParseError>)
        requires
            old(self).wf(),
            kind(old(self).ts(), old(self).at()) is Extern,
        ensures
            final(self).wf(),
            final(self).same_input(old(self)),
            outcome(res, final(self).pos) == grammar::extern_decl(old(self).ts(), old(self).at()),
            res is Ok ==> old(self).pos < final(self).pos,
    {
        reveal(grammar::extern_decl);
        let start = self.cur_span().start;
        self.advance();
        let module = self.parse_identifier()?;
        if !matches!(self.peek().kind, TokenKind::Slash) {
            return Err(self.expected(TokenKind::Slash));
        }
        self.advance();
        let symbol = self.parse_identifier()?;
        if !matches!(self.peek().kind, TokenKind::Newline) {
            let got = self.peek().kind.duplicate();
            return Err(self.err(ParseErrorKind::ExpectedNewline { got }));
        }
        self.advance();
        let (name, params, ret) = self.parse_func_sig()?;
        if matches!(self.peek().kind, TokenKind::LBrace) {
            return Err(self.err(ParseErrorKind::ExternWithBody));
        }
        let span = self.span_from(start);
        Ok(ExternFunc { module, symbol, name, params, ret, span })
    }

    pub(super) fn parse_top_level_stmt(&mut self) -> (res: Result<Stmt, ParseError>)
        requires
            old(self).wf(),
        ensures
            final(self).wf(),
            final(self).same_input(old(self)),
            outcome(res, final(self).pos) == grammar::top_stmt(old(self).ts(), old(self).at()),
            res is Ok ==> old(self).pos < final(self).pos,
    {
        reveal(grammar::top_stmt);
        if matches!(self.peek().kind, TokenKind::Extern) {
            Ok(Stmt::ExternFunc(self.parse_extern_func_decl()?))
        } else if matches!(self.peek().kind, TokenKind::Func) {
            Ok(Stmt::Func(self.parse_func_decl()?))
        } else {
            self.parse_stmt()
        }
    }
}

} // verus!
