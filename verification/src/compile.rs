//! The whole pipeline: from the text of a program to the bytes of its
//! WebAssembly module.
use vstd::prelude::*;
use crate::codegen::{self, emit, emittable};
use crate::lexer::{lex, spec_lex, LexError};
use crate::lower::{self, lower, lowerable};
use crate::parser::grammar::{spec_parse, SpecParseError};
use crate::parser::{parse, ParseError};
use crate::sema::rules::spec_check;
use crate::sema::{check, SemaError, SpecSemaError};

verus! {

/// Why a program did not compile: the stage that refused it.
#[derive(Debug)]
pub enum CompileError {
    /// Characters that belong to no token, every one of them in order.
    Lex(Vec<LexError>),
    /// The first place where the tokens do not follow the grammar.
    Parse(ParseError),
    /// The first name or type error of the checker.
    Sema(SemaError),
    /// The checked program uses a construct that lowering does not cover.
    NotLowerable,
    /// The lowered module uses a construct that code generation does not cover.
    NotEmittable,
}

pub enum SpecCompileError {
    Lex(Seq<LexError>),
    Parse(SpecParseError),
    Sema(SpecSemaError),
    NotLowerable,
    NotEmittable,
}

impl View for CompileError {
    type V = SpecCompileError;

    open spec fn view(&self) -> SpecCompileError {
        match self {
            CompileError::Lex(es) => SpecCompileError::Lex(es@),
            CompileError::Parse(e) => SpecCompileError::Parse(e@),
            CompileError::Sema(e) => SpecCompileError::Sema(e@),
            CompileError::NotLowerable => SpecCompileError::NotLowerable,
            CompileError::NotEmittable => SpecCompileError::NotEmittable,
        }
    }
}

/// What compiling a text gives: each stage in turn, the first refusal
/// ending the chain.
pub open spec fn spec_compile(cs: Seq<char>) -> Result<Seq<u8>, SpecCompileError> {
    match spec_lex(cs) {
        Err(es) => Err(SpecCompileError::Lex(es)),
        Ok(ts) => match spec_parse(ts) {
            Err(e) => Err(SpecCompileError::Parse(e)),
            Ok(p) => match spec_check(p) {
                Err(e) => Err(SpecCompileError::Sema(e)),
                Ok(t) => if !lower::rules::lowerable_program(t) {
                    Err(SpecCompileError::NotLowerable)
                } else if !codegen::rules::emittable_module(lower::rules::spec_lower(t)) {
                    Err(SpecCompileError::NotEmittable)
                } else {
                    Ok(codegen::rules::spec_emit(lower::rules::spec_lower(t)))
                },
            },
        },
    }
}

pub open spec fn compile_outcome(r: Result<Vec<u8>, CompileError>) -> Result<
    Seq<u8>,
    SpecCompileError,
> {
    match r {
        Ok(bytes) => Ok(bytes@),
        Err(e) => Err(e@),
    }
}

/// Compiles the text of a program, prelude included, to a WebAssembly module.
pub fn compile_source(text: &str) -> (res: Result<Vec<u8>, CompileError>)
    ensures
        compile_outcome(res) == spec_compile(text@),
{
    let tokens = match lex(text) {
        Ok(tokens) => tokens,
        Err(errs) => return Err(CompileError::Lex(errs)),
    };
    let program = match parse(tokens) {
        Ok(program) => program,
        Err(e) => return Err(CompileError::Parse(e)),
    };
    let typed = match check(program) {
        Ok(typed) => typed,
        Err(e) => return Err(CompileError::Sema(e)),
    };
    if !lowerable(&typed) {
        return Err(CompileError::NotLowerable);
    }
    let module = lower(typed);
    if !emittable(&module) {
        return Err(CompileError::NotEmittable);
    }
    Ok(emit(module))
}

} // verus!
