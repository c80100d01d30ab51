//! The entry point of the parser: a whole program.
use vstd::prelude::*;
use crate::lexer::token::{tokens_view, Token, TokenKind};
use super::ast::{self, lemma_stmts_view_push, stmts_view, Program, Stmt};
use super::grammar::{self, skip_sep, SpecParseError};
use super::{ParseErrorKind, Parser, ParseError};

verus! {

/// Parses a program: top-level statements separated by newlines, `;` or `,`, up to `Eof`.
pub fn parse(tokens: Vec<Token>) -> (res: Result<Program, ParseError>)
    ensures
        match res {
            Ok(prog) => grammar::spec_parse(tokens_view(tokens@)) == Ok::<
                ast::SpecProgram,
                SpecParseError,
            >(prog@),
            Err(e) => grammar::spec_parse(tokens_view(tokens@)) == Err::<
                ast::SpecProgram,
                SpecParseError,
            >(e@),
        },
{
    reveal_with_fuel(grammar::program_items, 1);
    let ghost tv = tokens_view(tokens@);
    let mut parser = Parser::new(tokens);
    parser.skip_separators();
    let mut acc: Vec<Stmt> = Vec::new();
    let ghost ts = parser.ts();
    loop
        invariant
            parser.wf(),
            parser.ts() == ts,
            ts == tv,
            tv == tokens_view(tokens@),
            grammar::program_items(ts, parser.at(), stmts_view(acc@)) == grammar::program_items(
                ts,
                skip_sep(ts, 0),
                Seq::empty(),
            ),
        decreases parser.tokens@.len() - parser.pos,
    {
        reveal_with_fuel(grammar::program_items, 1);
        if matches!(parser.peek().kind, TokenKind::Eof) {
            return Ok(Program { stmts: acc });
        }
        let x = parser.parse_top_level_stmt()?;
        proof {
            lemma_stmts_view_push(acc@, x);
        }
        if matches!(parser.peek().kind, TokenKind::Eof) {
            acc.push(x);
            return Ok(Program { stmts: acc });
        } else if parser.at_sep() {
            parser.skip_separators();
            acc.push(x);
        } else {
            let got = parser.peek().kind.duplicate();
            return Err(parser.err(ParseErrorKind::ExpectedSeparator { got }));
        }
    }
}

} // verus!
