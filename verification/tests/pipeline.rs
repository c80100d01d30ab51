use wazi::codegen::{emit, emittable};
use wazi::common::span::Span;
use wazi::compile::{compile_source, CompileError};
use wazi::common::Literal;
use wazi::lexer::lex;
use wazi::lexer::token::TokenKind;
use wazi::lexer::LexErrorKind;
use wazi::lower::ir::{FuncId, IrTy};
use wazi::lower::{lower, lowerable, Lower};
use wazi::parser::ast;
use wazi::parser::parse;
use wazi::parser::ParseErrorKind;
use wazi::sema::symbols::{is_pascal_case, is_snake_case};
use wazi::sema::tast;
use wazi::sema::ty::Ty;
use wazi::sema::{check, SemaError, SemaErrorKind};

const EXAMPLE: &str = "extern env/print_int
func print_int(value: Int)

func main() {
    local result = add(12, 28)
    print_int(result)
}

func add(a: Int, b: Int): Int {
    return a + b
}
";

fn kinds(src: &str) -> Vec<TokenKind> {
    lex(src).unwrap().into_iter().map(|t| t.kind).collect()
}

fn parse_src(src: &str) -> Result<ast::Program, ParseErrorKind> {
    parse(lex(src).unwrap()).map_err(|e| e.kind)
}

fn check_src(src: &str) -> Result<tast::Program, SemaError> {
    check(parse(lex(src).unwrap()).unwrap())
}

fn sema_kind(src: &str) -> SemaErrorKind {
    check_src(src).unwrap_err().kind
}

// ---- lexer ----

#[test]
fn lex_keywords_identifiers_and_eof() {
    assert_eq!(
        kinds("func main local"),
        vec![TokenKind::Func, TokenKind::Identifier("main".to_string()), TokenKind::Local, TokenKind::Eof]
    );
}

#[test]
fn lex_numbers() {
    assert_eq!(kinds("12 3.5"), vec![TokenKind::Int(12), TokenKind::Float("3.5".to_string()), TokenKind::Eof]);
}

#[test]
fn lex_two_char_punctuation_wins() {
    assert_eq!(
        kinds("== != <= -> && ||"),
        vec![
            TokenKind::EqEq,
            TokenKind::BangEq,
            TokenKind::LtEq,
            TokenKind::Arrow,
            TokenKind::And,
            TokenKind::Or,
            TokenKind::Eof
        ]
    );
}

#[test]
fn lex_comment_is_skipped() {
    assert_eq!(kinds("1 // two\n3"), vec![TokenKind::Int(1), TokenKind::Newline, TokenKind::Int(3), TokenKind::Eof]);
}

#[test]
fn lex_string_escapes() {
    assert_eq!(kinds("\"a\\nb\""), vec![TokenKind::StringLit("a\nb".to_string()), TokenKind::Eof]);
}

#[test]
fn lex_spans_cover_the_characters() {
    let toks = lex("ab  cd").unwrap();
    assert_eq!(toks[0].span, Span { start: 0, end: 2 });
    assert_eq!(toks[1].span, Span { start: 4, end: 6 });
    assert_eq!(toks[2].span, Span { start: 6, end: 6 });
}

#[test]
fn lex_error_unexpected_char() {
    let errs = lex("1 @ 2 #").unwrap_err();
    assert_eq!(errs.len(), 2);
    assert_eq!(errs[0].kind, LexErrorKind::UnexpectedChar('@'));
    assert_eq!(errs[0].span, Span { start: 2, end: 3 });
    assert_eq!(errs[1].kind, LexErrorKind::UnexpectedChar('#'));
}

#[test]
fn lex_error_int_out_of_range() {
    let errs = lex("2147483648").unwrap_err();
    assert_eq!(errs[0].kind, LexErrorKind::IntOutOfRange);
    assert_eq!(kinds("2147483647"), vec![TokenKind::Int(2147483647), TokenKind::Eof]);
}

// ---- parser ----

#[test]
fn parse_example_program() {
    let p = parse_src(EXAMPLE).unwrap();
    assert_eq!(p.stmts.len(), 3);
    assert!(matches!(&p.stmts[0], ast::Stmt::ExternFunc(f) if f.module.value == "env" && f.symbol.value == "print_int"));
    match &p.stmts[2] {
        ast::Stmt::Func(f) => {
            assert_eq!(f.name.value, "add");
            assert_eq!(f.params.len(), 2);
            assert_eq!(f.body.stmts.len(), 1);
        }
        _ => panic!("expected a function"),
    }
}

#[test]
fn parse_precedence_mul_before_add() {
    let p = parse_src("func main() {\n1 + 2 * 3\n}").unwrap();
    let ast::Stmt::Func(f) = &p.stmts[0] else { panic!("expected a function") };
    let ast::Stmt::Expr(e) = &f.body.stmts[0] else { panic!("expected an expression") };
    match &e.kind {
        ast::ExprKind::BinaryOp(b) => {
            assert_eq!(b.op, wazi::common::op::BinOpKind::Add);
            assert!(matches!(b.right.kind, ast::ExprKind::BinaryOp(_)));
        }
        _ => panic!("expected a binary operation"),
    }
}

#[test]
fn parse_error_expected_identifier() {
    assert!(matches!(parse_src("func (a: Int) {}"), Err(ParseErrorKind::ExpectedIdentifier { .. })));
}

#[test]
fn parse_error_expected_token() {
    assert!(matches!(parse_src("func main {}"), Err(ParseErrorKind::Expected { expected: TokenKind::LParen, .. })));
}

#[test]
fn parse_error_expected_type() {
    assert!(matches!(parse_src("func f(a: 5) {}"), Err(ParseErrorKind::ExpectedType { .. })));
}

#[test]
fn parse_error_expected_expression() {
    assert!(matches!(parse_src("func main() {\nlocal x = )\n}"), Err(ParseErrorKind::ExpectedExpression { .. })));
}

#[test]
fn parse_error_expected_newline() {
    assert!(matches!(parse_src("extern env/f func f()"), Err(ParseErrorKind::ExpectedNewline { .. })));
}

#[test]
fn parse_error_expected_separator() {
    assert!(matches!(parse_src("func a() {} 5"), Err(ParseErrorKind::ExpectedSeparator { .. })));
}

#[test]
fn parse_error_extern_not_top_level() {
    assert!(matches!(parse_src("func main() {\nextern env/f\n}"), Err(ParseErrorKind::ExternNotTopLevel)));
}

#[test]
fn parse_error_nested_func() {
    assert!(matches!(parse_src("func main() {\nfunc g() {}\n}"), Err(ParseErrorKind::NestedFunc)));
}

#[test]
fn parse_error_extern_with_body() {
    assert!(matches!(parse_src("extern env/f\nfunc f() {}"), Err(ParseErrorKind::ExternWithBody)));
}

#[test]
fn parse_error_missing_param_type() {
    assert!(parse_src("func f(a) {}").is_err());
}

// ---- semantic analysis ----

#[test]
fn check_example_program() {
    let t = check_src(EXAMPLE).unwrap();
    assert_eq!(t.stmts.len(), 3);
    assert_eq!(t.entry, Some(tast::FuncId(1)));
    match &t.stmts[2] {
        tast::Stmt::Func(f) => {
            assert_eq!(f.id, tast::FuncId(2));
            assert!(f.ret_ty.same(&Ty::Int));
            assert_eq!(f.params[1].id, tast::VarId(1));
        }
        _ => panic!("expected a function"),
    }
}

#[test]
fn check_binary_op_types() {
    let t = check_src("func f(): Bool {\n1.5 < 2.0\n}").unwrap();
    let tast::Stmt::Func(f) = &t.stmts[0] else { panic!("expected a function") };
    assert!(f.body.ty.same(&Ty::Bool));
}

#[test]
fn check_no_main_no_entry() {
    assert_eq!(check_src("func f() {}").unwrap().entry, None);
}

#[test]
fn check_error_top_level_statements() {
    assert!(matches!(sema_kind("return 1"), SemaErrorKind::TopLevelReturn));
    assert!(matches!(sema_kind("local x = 1"), SemaErrorKind::TopLevelLet));
    assert!(matches!(sema_kind("x = 1"), SemaErrorKind::TopLevelAssign));
    assert!(matches!(sema_kind("if true {}"), SemaErrorKind::TopLevelIf));
    assert!(matches!(sema_kind("{}"), SemaErrorKind::TopLevelBlock));
    assert!(matches!(sema_kind("1 + 2"), SemaErrorKind::TopLevelExpr));
}

#[test]
fn check_error_enum_not_implemented() {
    assert!(matches!(sema_kind("enum Color { Red }"), SemaErrorKind::NotImplemented));
}

#[test]
fn check_error_unknown_type() {
    assert!(matches!(sema_kind("func f(a: Foo) {}"), SemaErrorKind::UnknownType { name } if name == "Foo"));
}

#[test]
fn check_error_naming() {
    assert!(matches!(sema_kind("func Main() {}"), SemaErrorKind::FuncNotSnakeCase { .. }));
    // the name is checked before the types of the signature
    assert!(matches!(sema_kind("func Main(a: Foo) {}"), SemaErrorKind::FuncNotSnakeCase { .. }));
    assert!(matches!(sema_kind("struct point { x: Int }"), SemaErrorKind::StructNotPascalCase { .. }));
    assert!(matches!(sema_kind("func main() {\nlocal X = 1\n}"), SemaErrorKind::VarNotSnakeCase { .. }));
}

#[test]
fn check_error_already_defined() {
    assert!(matches!(sema_kind("func f() {}\nfunc f() {}"), SemaErrorKind::FuncAlreadyDefined { .. }));
    assert!(matches!(sema_kind("struct P { x: Int }\nstruct P { y: Int }"), SemaErrorKind::StructAlreadyDefined { .. }));
    assert!(matches!(sema_kind("struct P { x: Int, x: Int }"), SemaErrorKind::FieldAlreadyDefined { .. }));
    assert!(matches!(sema_kind("func main() {\nlocal x = 1\nlocal x = 2\n}"), SemaErrorKind::VarAlreadyDefined { .. }));
}

#[test]
fn check_error_struct_not_declared() {
    assert!(matches!(sema_kind("func main() {\nstruct P { x: Int }\n}"), SemaErrorKind::StructNotDeclared { .. }));
}

#[test]
fn check_error_type_mismatch() {
    match sema_kind("func f(): Int {\ntrue\n}") {
        SemaErrorKind::ReturnTypeMismatch { func, expected, got } => {
            assert_eq!(func, "f");
            assert!(expected.same(&Ty::Int));
            assert!(got.same(&Ty::Bool));
        }
        k => panic!("unexpected {:?}", k),
    }
    assert!(matches!(sema_kind("func main() {\nif 1 {}\n}"), SemaErrorKind::ConditionNotBool { got: Ty::Int }));
    assert!(matches!(
        sema_kind("func main() {\nif true {\n} elif 2 {\n}\n}"),
        SemaErrorKind::ConditionNotBool { .. }
    ));
    assert!(matches!(sema_kind("func f(): Int {\nreturn true\n}"), SemaErrorKind::ReturnValueMismatch { .. }));
    match sema_kind("func f(a: Int, b: Int) {}\nfunc main() {\nf(1, true)\n}") {
        SemaErrorKind::ArgTypeMismatch { func, expected, got } => {
            assert_eq!(func, "f");
            assert!(expected.same(&Ty::Int));
            assert!(got.same(&Ty::Bool));
        }
        k => panic!("unexpected {:?}", k),
    }
    assert!(matches!(
        sema_kind("struct P { x: Int, y: Int }\nfunc main() {\nP(1, true)\n}"),
        SemaErrorKind::FieldTypeMismatch { name, .. } if name == "P"
    ));
    assert!(matches!(
        sema_kind("func main() {\nlocal x = 1\nx = true\n}"),
        SemaErrorKind::AssignTypeMismatch { var, .. } if var == "x"
    ));
    assert!(matches!(
        sema_kind("func main() {\nlocal x: Int = true\n}"),
        SemaErrorKind::LetTypeMismatch { var, .. } if var == "x"
    ));
}

#[test]
fn check_return_skips_body_type() {
    assert!(check_src("func f(): Int {\nreturn 1\n}").is_ok());
}

#[test]
fn check_error_invalid_assign_target() {
    assert!(matches!(sema_kind("func main() {\n1 = 2\n}"), SemaErrorKind::InvalidAssignTarget));
}

#[test]
fn check_error_unknown_names() {
    assert!(matches!(sema_kind("func main() {\ny\n}"), SemaErrorKind::UnknownVariable { .. }));
    assert!(matches!(sema_kind("func main() {\ng()\n}"), SemaErrorKind::UnknownFunction { .. }));
}

#[test]
fn check_error_invalid_binary_op() {
    assert!(matches!(sema_kind("func main() {\n1 + true\n}"), SemaErrorKind::InvalidBinaryOp { .. }));
}

#[test]
fn check_error_counts() {
    assert!(matches!(
        sema_kind("func f(a: Int) {}\nfunc main() {\nf()\n}"),
        SemaErrorKind::ArgCount { expected: 1, got: 0, .. }
    ));
    assert!(matches!(
        sema_kind("struct P { x: Int }\nfunc main() {\nP()\n}"),
        SemaErrorKind::FieldCount { expected: 1, got: 0, .. }
    ));
}

#[test]
fn check_struct_literal() {
    let t = check_src("struct P { x: Int }\nfunc main() {\nlocal p = P(1)\n}").unwrap();
    let tast::Stmt::Func(f) = &t.stmts[1] else { panic!("expected a function") };
    let tast::Stmt::Local(l) = &f.body.stmts[0] else { panic!("expected a local") };
    assert!(l.value_ty.same(&Ty::Struct(wazi::sema::ty::StructId(0))));
}

#[test]
fn check_error_callee_and_unsupported() {
    assert!(matches!(sema_kind("func main() {\n(1)()\n}"), SemaErrorKind::CalleeNotIdentifier));
    assert!(matches!(sema_kind("func main() {\n-1\n}"), SemaErrorKind::UnsupportedExpression));
}

#[test]
fn naming_conventions() {
    assert!(is_snake_case("print_int"));
    assert!(is_snake_case("_x2"));
    assert!(!is_snake_case("Print"));
    assert!(!is_snake_case(""));
    assert!(is_pascal_case("Point3"));
    assert!(!is_pascal_case("point"));
    assert!(!is_pascal_case("Po_int"));
}

#[test]
fn always_returns_needs_every_branch() {
    let t = check_src("func f(c: Bool): Int {\nif c {\nreturn 1\n} else {\nreturn 2\n}\n}").unwrap();
    let tast::Stmt::Func(f) = &t.stmts[0] else { panic!("expected a function") };
    assert!(f.body.always_returns());
    assert!(matches!(
        sema_kind("func f(c: Bool): Int {\nif c {\nreturn 1\n}\n}"),
        SemaErrorKind::ReturnTypeMismatch { .. }
    ));
}

// ---- lowering ----

#[test]
fn lower_types() {
    let l = Lower::new();
    assert_eq!(l.lower_ty(&Ty::Int), IrTy::I32);
    assert_eq!(l.lower_ty(&Ty::Bool), IrTy::I32);
    assert_eq!(l.lower_ty(&Ty::Float), IrTy::F32);
    assert_eq!(l.lower_ty(&Ty::Void), IrTy::Void);
}

#[test]
fn lower_example_program() {
    let t = check_src(EXAMPLE).unwrap();
    assert!(lowerable(&t));
    let m = lower(t);
    assert_eq!(m.imports.len(), 1);
    assert_eq!(m.imports[0].item, "print_int");
    assert_eq!(m.imports[0].params, vec![IrTy::I32]);
    assert_eq!(m.funcs.len(), 2);
    assert_eq!(m.funcs[0].locals, vec![IrTy::I32]);
    assert_eq!(m.funcs[1].ret_ty, IrTy::I32);
    assert_eq!(m.entry, Some(FuncId(1)));
}

#[test]
fn lower_refuses_structs() {
    let t = check_src("struct P { x: Int }").unwrap();
    assert!(!lowerable(&t));
}

#[test]
fn lower_float_literal_keeps_spelling() {
    let t = check_src("func f(): Float {\n2.50\n}").unwrap();
    let m = lower(t);
    match &m.funcs[0].body.exprs[0] {
        wazi::lower::ir::Expr::ConstFloat(s) => assert_eq!(s, "2.50"),
        e => panic!("unexpected {:?}", e),
    }
    assert!(!emittable(&m));
}

#[test]
fn lower_elif_chain_nests() {
    let t = check_src("func f(a: Int) {\nif a < 1 {\n} elif a < 2 {\n} else {\n}\n}").unwrap();
    let m = lower(t);
    match &m.funcs[0].body.exprs[0] {
        wazi::lower::ir::Expr::If(i) => {
            assert!(matches!(i.else_block.as_deref(), Some(wazi::lower::ir::Expr::If(_))));
        }
        e => panic!("unexpected {:?}", e),
    }
}

// ---- code generation ----

fn compile(src: &str) -> Vec<u8> {
    let t = check_src(src).unwrap();
    let m = lower(t);
    assert!(emittable(&m));
    emit(m)
}

#[test]
fn emit_example_module_header() {
    let bytes = compile(EXAMPLE);
    assert_eq!(&bytes[0..8], &[0x00, 0x61, 0x73, 0x6D, 0x01, 0x00, 0x00, 0x00]);
    // type section first: (i32) -> () and (i32, i32) -> i32, main's () -> () is a third
    assert_eq!(bytes[8], 0x01);
    assert_eq!(bytes[10], 3);
}

#[test]
fn emit_shares_equal_signatures() {
    let bytes = compile("func a() {}\nfunc b() {}");
    assert_eq!(bytes[8], 0x01);
    assert_eq!(bytes[10], 1);
}

#[test]
fn emit_exports_main() {
    let bytes = compile("func main() {}");
    let name = b"main";
    assert!(bytes.windows(4).any(|w| w == name));
    let none = compile("func other() {}");
    assert!(!none.windows(4).any(|w| w == name));
}

#[test]
fn emit_constant_body() {
    let bytes = compile("func f(): Int {\nreturn 7\n}");
    // i32.const 7, return, end
    assert!(bytes.windows(4).any(|w| w == [0x41, 0x07, 0x0F, 0x0B]));
}

#[test]
fn emit_drops_unused_values() {
    let bytes = compile("func g(): Int {\nreturn 1\n}\nfunc f() {\ng()\nreturn\n}");
    // call 0, drop, return, end
    assert!(bytes.windows(5).any(|w| w == [0x10, 0x00, 0x1A, 0x0F, 0x0B]));
}

#[test]
fn literal_duplicate_keeps_value() {
    let l = Literal::Float("1.25".to_string());
    assert_eq!(l.duplicate(), l);
}

#[test]
fn lex_tokens_in_order_within_text() {
    let src = "func main() {\n    local x = 1 + 22\n}\n";
    let toks = lex(src).unwrap();
    let n = src.chars().count();
    for w in toks.windows(2) {
        assert!(w[0].span.start <= w[0].span.end);
        assert!(w[0].span.end <= w[1].span.start);
    }
    let last = toks.last().unwrap();
    assert_eq!(last.kind, TokenKind::Eof);
    assert_eq!(last.span, Span { start: n, end: n });
}

#[test]
fn lower_counts_functions_and_imports() {
    let t = check_src("extern env/a\nfunc a()\nextern env/b\nfunc b(x: Int)\nfunc main() {}\nfunc c() {}").unwrap();
    let m = lower(t);
    assert_eq!(m.imports.len(), 2);
    assert_eq!(m.funcs.len(), 2);
    assert_eq!(m.funcs[0].id, FuncId(2));
    assert_eq!(m.entry, Some(FuncId(2)));
}

#[test]
fn check_return_in_void_function() {
    assert!(check_src("func f() {\nreturn\n}").is_ok());
    match sema_kind("func f() {\nreturn 1\n}") {
        SemaErrorKind::ReturnValueMismatch { expected, got } => {
            assert!(expected.same(&Ty::Void));
            assert!(got.same(&Ty::Int));
        }
        k => panic!("unexpected {:?}", k),
    }
}

#[test]
fn lower_function_reference() {
    let body = tast::Block {
        stmts: vec![tast::Stmt::Expr(tast::Expr::FuncRef(tast::FuncRef {
            id: tast::FuncId(3),
            ty: Ty::Func { params: vec![], ret: Box::new(Ty::Void) },
        }))],
        ty: Ty::Void,
    };
    let p = tast::Program {
        stmts: vec![tast::Stmt::Func(tast::Func { id: tast::FuncId(0), params: vec![], ret_ty: Ty::Void, body })],
        entry: None,
    };
    assert!(lowerable(&p));
    let m = lower(p);
    assert!(matches!(m.funcs[0].body.exprs[0], wazi::lower::ir::Expr::FuncRef(FuncId(3))));
    assert!(!emittable(&m));
}

// ---- the whole pipeline ----

#[test]
fn compile_source_example_matches_stages() {
    let bytes = compile_source(EXAMPLE).unwrap();
    assert_eq!(bytes, compile(EXAMPLE));
    assert_eq!(&bytes[0..8], &[0x00, 0x61, 0x73, 0x6D, 0x01, 0x00, 0x00, 0x00]);
}

#[test]
fn compile_source_lex_error() {
    match compile_source("func main() {\n  local x = 1 $ 2\n}") {
        Err(CompileError::Lex(errs)) => {
            assert_eq!(errs.len(), 1);
            assert_eq!(errs[0].kind, LexErrorKind::UnexpectedChar('$'));
        }
        other => panic!("unexpected {:?}", other),
    }
}

#[test]
fn compile_source_parse_error() {
    match compile_source("func main( {}") {
        Err(CompileError::Parse(_)) => {}
        other => panic!("unexpected {:?}", other),
    }
}

#[test]
fn compile_source_sema_error() {
    match compile_source("func main() {\n  local x = y\n}") {
        Err(CompileError::Sema(e)) => assert!(matches!(e.kind, SemaErrorKind::UnknownVariable { .. })),
        other => panic!("unexpected {:?}", other),
    }
}

#[test]
fn compile_source_not_lowerable() {
    match compile_source("struct Point {\n  x: Int\n}\nfunc main() {}") {
        Err(CompileError::NotLowerable) => {}
        other => panic!("unexpected {:?}", other),
    }
}

#[test]
fn function_ids_follow_declarations() {
    let t = check_src("func first() {}\nfunc main() {}\nfunc last() {}").unwrap();
    let m = lower(t);
    assert!(m.imports.is_empty());
    let ids: Vec<FuncId> = m.funcs.iter().map(|f| f.id).collect();
    assert_eq!(ids, vec![FuncId(0), FuncId(1), FuncId(2)]);
    assert_eq!(m.entry, Some(FuncId(1)));
    let none = lower(check_src("func first() {}\nfunc second() {}").unwrap());
    assert_eq!(none.entry, None);
}

#[test]
fn compile_source_not_emittable() {
    match compile_source("func half(): Float {\n  return 0.5\n}") {
        Err(CompileError::NotEmittable) => {}
        other => panic!("unexpected {:?}", other),
    }
}

#[test]
fn emit_binary_operator_instructions() {
    let div = compile("func quotient(a: Int, b: Int): Int {\nreturn a / b\n}");
    // local.get 0, local.get 1, i32.div_s, return, end
    assert!(div.windows(7).any(|w| w == [0x20, 0x00, 0x20, 0x01, 0x6D, 0x0F, 0x0B]));
    let lt = compile("func less(a: Float, b: Float): Bool {\nreturn a < b\n}");
    // local.get 0, local.get 1, f32.lt, return, end
    assert!(lt.windows(7).any(|w| w == [0x20, 0x00, 0x20, 0x01, 0x5D, 0x0F, 0x0B]));
    let or = compile("func either(a: Bool, b: Bool): Bool {\nreturn a || b\n}");
    // local.get 0, local.get 1, i32.or, return, end
    assert!(or.windows(7).any(|w| w == [0x20, 0x00, 0x20, 0x01, 0x72, 0x0F, 0x0B]));
}
