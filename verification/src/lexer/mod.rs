//! The lexer: from the characters of a source text to tokens.
pub mod token;
pub mod laws;

use vstd::prelude::*;
use crate::common::span::Span;
use token::{tokens_view, Token, TokenKind, SpecToken, SpecTokenKind};

verus! {

/// What went wrong at one place of the source.
#[derive(Debug, Clone, Copy, PartialEq, Eq, Structural)]
pub enum LexErrorKind {
    /// No token starts with this character.
    UnexpectedChar(char),
    /// An integer literal whose value does not fit in an `i32`.
    IntOutOfRange,
}

/// A lexical error and the characters it covers.
#[derive(Debug, Clone, Copy, PartialEq, Eq, Structural)]
pub struct LexError {
    pub kind: LexErrorKind,
    pub span: Span,
}

// ---------------------------------------------------------------------------
// The grammar of tokens
// ---------------------------------------------------------------------------

pub open spec fn is_digit(c: char) -> bool {
    '0' <= c && c <= '9'
}

pub open spec fn is_ident_start(c: char) -> bool {
    ('a' <= c && c <= 'z') || ('A' <= c && c <= 'Z') || c == '_'
}

pub open spec fn is_ident_char(c: char) -> bool {
    is_ident_start(c) || is_digit(c)
}

/// Characters that separate tokens and are skipped (the newline is a token).
pub open spec fn is_blank(c: char) -> bool {
    c == ' ' || c == '\t' || c == '\r' || c == '\x0C'
}

/// The characters that may follow a backslash in a string literal.
pub open spec fn is_escape(c: char) -> bool {
    c == '"' || c == '\\' || c == 'n' || c == 't'
}

pub open spec fn escaped(c: char) -> char {
    if c == 'n' {
        '\n'
    } else if c == 't' {
        '\t'
    } else {
        c
    }
}

/// The end of the run of digits that starts at `i`.
pub open spec fn digits_end(cs: Seq<char>, i: int) -> int
    decreases cs.len() - i,
{
    if 0 <= i < cs.len() && is_digit(cs[i]) {
        digits_end(cs, i + 1)
    } else {
        i
    }
}

/// The end of the run of identifier characters that starts at `i`.
pub open spec fn ident_end(cs: Seq<char>, i: int) -> int
    decreases cs.len() - i,
{
    if 0 <= i < cs.len() && is_ident_char(cs[i]) {
        ident_end(cs, i + 1)
    } else {
        i
    }
}

/// The end of the line that starts at `i`: the first `\r` or `\n`, or the end of the text.
pub open spec fn line_end(cs: Seq<char>, i: int) -> int
    decreases cs.len() - i,
{
    if 0 <= i < cs.len() && cs[i] != '\n' && cs[i] != '\r' {
        line_end(cs, i + 1)
    } else {
        i
    }
}

/// The index of the quote that closes a string literal whose contents start at `i`,
/// if the contents are well formed (every backslash starts a known escape).
pub open spec fn string_close(cs: Seq<char>, i: int) -> Option<int>
    decreases cs.len() - i,
{
    if i < 0 || i >= cs.len() {
        None
    } else if cs[i] == '"' {
        Some(i)
    } else if cs[i] == '\\' {
        if i + 1 < cs.len() && is_escape(cs[i + 1]) {
            string_close(cs, i + 2)
        } else {
            None
        }
    } else {
        string_close(cs, i + 1)
    }
}

/// The text of a well-formed string literal's contents, with escapes resolved.
pub open spec fn unescape(s: Seq<char>) -> Seq<char>
    decreases s.len(),
{
    if s.len() == 0 {
        Seq::empty()
    } else if s[0] == '\\' && s.len() >= 2 {
        seq![escaped(s[1])] + unescape(s.skip(2))
    } else {
        seq![s[0]] + unescape(s.skip(1))
    }
}

pub open spec fn digit_value(c: char) -> int {
    (c as int) - ('0' as int)
}

/// The value of a sequence of decimal digits.
pub open spec fn digits_value(s: Seq<char>) -> int
    decreases s.len(),
{
    if s.len() == 0 {
        0
    } else {
        digits_value(s.drop_last()) * 10 + digit_value(s.last())
    }
}

/// The keyword spelled by `w`, if it is one.
pub open spec fn keyword(w: Seq<char>) -> Option<SpecTokenKind> {
    if w == seq!['e', 'x', 't', 'e', 'r', 'n'] {
        Some(SpecTokenKind::Extern)
    } else if w == seq!['f', 'u', 'n', 'c'] {
        Some(SpecTokenKind::Func)
    } else if w == seq!['s', 't', 'r', 'u', 'c', 't'] {
        Some(SpecTokenKind::Struct)
    } else if w == seq!['e', 'n', 'u', 'm'] {
        Some(SpecTokenKind::Enum)
    } else if w == seq!['l', 'o', 'c', 'a', 'l'] {
        Some(SpecTokenKind::Local)
    } else if w == seq!['i', 'f'] {
        Some(SpecTokenKind::If)
    } else if w == seq!['e', 'l', 'i', 'f'] {
        Some(SpecTokenKind::Elif)
    } else if w == seq!['e', 'l', 's', 'e'] {
        Some(SpecTokenKind::Else)
    } else if w == seq!['f', 'o', 'r'] {
        Some(SpecTokenKind::For)
    } else if w == seq!['i', 'n'] {
        Some(SpecTokenKind::In)
    } else if w == seq!['w', 'h', 'i', 'l', 'e'] {
        Some(SpecTokenKind::While)
    } else if w == seq!['r', 'e', 't', 'u', 'r', 'n'] {
        Some(SpecTokenKind::Return)
    } else if w == seq!['t', 'r', 'u', 'e'] {
        Some(SpecTokenKind::True)
    } else if w == seq!['f', 'a', 'l', 's', 'e'] {
        Some(SpecTokenKind::False)
    } else {
        None
    }
}

/// The token spelled by the two characters `a b`, if any.
pub open spec fn punct2(a: char, b: char) -> Option<SpecTokenKind> {
    if a == '=' && b == '=' {
        Some(SpecTokenKind::EqEq)
    } else if a == '!' && b == '=' {
        Some(SpecTokenKind::BangEq)
    } else if a == '<' && b == '=' {
        Some(SpecTokenKind::LtEq)
    } else if a == '>' && b == '=' {
        Some(SpecTokenKind::GtEq)
    } else if a == '=' && b == '>' {
        Some(SpecTokenKind::FatArrow)
    } else if a == '-' && b == '>' {
        Some(SpecTokenKind::Arrow)
    } else if a == '&' && b == '&' {
        Some(SpecTokenKind::And)
    } else if a == '|' && b == '|' {
        Some(SpecTokenKind::Or)
    } else {
        None
    }
}

/// The token spelled by the single character `c`, if any.
pub open spec fn punct1(c: char) -> Option<SpecTokenKind> {
    if c == '.' {
        Some(SpecTokenKind::Dot)
    } else if c == '!' {
        Some(SpecTokenKind::Bang)
    } else if c == '+' {
        Some(SpecTokenKind::Plus)
    } else if c == '-' {
        Some(SpecTokenKind::Minus)
    } else if c == '*' {
        Some(SpecTokenKind::Asterisk)
    } else if c == '/' {
        Some(SpecTokenKind::Slash)
    } else if c == '<' {
        Some(SpecTokenKind::Lt)
    } else if c == '>' {
        Some(SpecTokenKind::Gt)
    } else if c == '=' {
        Some(SpecTokenKind::Eq)
    } else if c == '(' {
        Some(SpecTokenKind::LParen)
    } else if c == ')' {
        Some(SpecTokenKind::RParen)
    } else if c == '{' {
        Some(SpecTokenKind::LBrace)
    } else if c == '}' {
        Some(SpecTokenKind::RBrace)
    } else if c == '[' {
        Some(SpecTokenKind::LBracket)
    } else if c == ']' {
        Some(SpecTokenKind::RBracket)
    } else if c == ',' {
        Some(SpecTokenKind::Comma)
    } else if c == ':' {
        Some(SpecTokenKind::Colon)
    } else if c == ';' {
        Some(SpecTokenKind::Semicolon)
    } else if c == '|' {
        Some(SpecTokenKind::VerBar)
    } else if c == '\n' {
        Some(SpecTokenKind::Newline)
    } else {
        None
    }
}

/// What the lexer does at one position: skip characters, read a token, or report an error.
pub enum SpecStep {
    Skip { end: int },
    Tok { kind: SpecTokenKind, end: int },
    Fail { err: LexErrorKind, end: int },
}

/// The longest token that starts at `i` (`0 <= i < cs.len()`); keywords win over identifiers.
pub open spec fn step(cs: Seq<char>, i: int) -> SpecStep {
    let c = cs[i];
    let next = if i + 1 < cs.len() { Some(cs[i + 1]) } else { None };
    if is_blank(c) {
        SpecStep::Skip { end: i + 1 }
    } else if c == '/' && next == Some('/') {
        SpecStep::Skip { end: line_end(cs, i) }
    } else if is_digit(c) {
        let j = digits_end(cs, i);
        if j + 1 < cs.len() && cs[j] == '.' && is_digit(cs[j + 1]) {
            let k = digits_end(cs, j + 1);
            SpecStep::Tok { kind: SpecTokenKind::Float(cs.subrange(i, k)), end: k }
        } else if digits_value(cs.subrange(i, j)) <= i32::MAX {
            SpecStep::Tok { kind: SpecTokenKind::Int(digits_value(cs.subrange(i, j)) as i32), end: j }
        } else {
            SpecStep::Fail { err: LexErrorKind::IntOutOfRange, end: j }
        }
    } else if is_ident_start(c) {
        let j = ident_end(cs, i);
        let w = cs.subrange(i, j);
        match keyword(w) {
            Some(k) => SpecStep::Tok { kind: k, end: j },
            None => SpecStep::Tok { kind: SpecTokenKind::Identifier(w), end: j },
        }
    } else if c == '"' {
        match string_close(cs, i + 1) {
            Some(k) => SpecStep::Tok {
                kind: SpecTokenKind::StringLit(unescape(cs.subrange(i + 1, k))),
                end: k + 1,
            },
            None => SpecStep::Fail { err: LexErrorKind::UnexpectedChar(c), end: i + 1 },
        }
    } else if next.is_some() && punct2(c, next.unwrap()).is_some() {
        SpecStep::Tok { kind: punct2(c, next.unwrap()).unwrap(), end: i + 2 }
    } else if punct1(c).is_some() {
        SpecStep::Tok { kind: punct1(c).unwrap(), end: i + 1 }
    } else {
        SpecStep::Fail { err: LexErrorKind::UnexpectedChar(c), end: i + 1 }
    }
}

pub open spec fn step_end(s: SpecStep) -> int {
    match s {
        SpecStep::Skip { end } => end,
        SpecStep::Tok { end, .. } => end,
        SpecStep::Fail { end, .. } => end,
    }
}

pub proof fn lemma_scans_advance(cs: Seq<char>, i: int)
    requires
        0 <= i <= cs.len(),
    ensures
        i <= digits_end(cs, i) <= cs.len(),
        i <= ident_end(cs, i) <= cs.len(),
        i <= line_end(cs, i) <= cs.len(),
        string_close(cs, i) matches Some(k) ==> i <= k < cs.len(),
    decreases cs.len() - i,
{
    if i < cs.len() {
        lemma_scans_advance(cs, i + 1);
        if i + 2 <= cs.len() {
            lemma_scans_advance(cs, i + 2);
        }
    }
}

/// Every step moves past at least one character and stays within the text.
pub proof fn lemma_step_advances(cs: Seq<char>, i: int)
    requires
        0 <= i < cs.len(),
    ensures
        i < step_end(step(cs, i)) <= cs.len(),
{
    lemma_scans_advance(cs, i);
    lemma_scans_advance(cs, i + 1);
    let j = digits_end(cs, i);
    if j + 1 < cs.len() {
        lemma_scans_advance(cs, j + 1);
    }
}

/// The tokens and errors of `cs` from position `i` on, after `toks` and `errs`
/// were read before `i`. At the end an `Eof` token is added.
pub open spec fn lex_from(cs: Seq<char>, i: int, toks: Seq<SpecToken>, errs: Seq<LexError>) -> (
    Seq<SpecToken>,
    Seq<LexError>,
)
    decreases cs.len() - i,
{
    if i < 0 || i >= cs.len() {
        (toks.push(SpecToken { kind: SpecTokenKind::Eof, span: eof_span(cs) }), errs)
    } else {
        let s = step(cs, i);
        proof {
            lemma_step_advances(cs, i);
        }
        match s {
            SpecStep::Skip { end } => lex_from(cs, end, toks, errs),
            SpecStep::Tok { kind, end } => lex_from(
                cs,
                end,
                toks.push(SpecToken { kind, span: Span { start: i as usize, end: end as usize } }),
                errs,
            ),
            SpecStep::Fail { err, end } => lex_from(
                cs,
                end,
                toks,
                errs.push(LexError { kind: err, span: Span { start: i as usize, end: end as usize } }),
            ),
        }
    }
}

pub open spec fn eof_span(cs: Seq<char>) -> Span {
    Span { start: cs.len() as usize, end: cs.len() as usize }
}

/// The result of lexing a whole text: its tokens (ending with `Eof`) when no
/// character was in error, otherwise every error, in order.
pub open spec fn spec_lex(cs: Seq<char>) -> Result<Seq<SpecToken>, Seq<LexError>> {
    let (toks, errs) = lex_from(cs, 0, Seq::empty(), Seq::empty());
    if errs.len() == 0 {
        Ok(toks)
    } else {
        Err(errs)
    }
}

} // verus!

verus! {

// ---------------------------------------------------------------------------
// The lexer
// ---------------------------------------------------------------------------

/// One step of the lexer, as an executable value.
pub enum Step {
    Skip(usize),
    Tok(TokenKind, usize),
    Fail(LexErrorKind, usize),
}

impl View for Step {
    type V = SpecStep;

    open spec fn view(&self) -> SpecStep {
        match self {
            Step::Skip(end) => SpecStep::Skip { end: *end as int },
            Step::Tok(kind, end) => SpecStep::Tok { kind: kind@, end: *end as int },
            Step::Fail(kind, end) => SpecStep::Fail { err: *kind, end: *end as int },
        }
    }
}

/// A `String` made of the characters `cs[i..j]` (std's `FromIterator<char>` for `String`).
#[verifier::external_body]
fn string_from_chars(cs: &Vec<char>, i: usize, j: usize) -> (s: String)
    requires
        i <= j <= cs.len(),
    ensures
        s@ == cs@.subrange(i as int, j as int),
{
    cs[i..j].iter().collect()
}

/// The characters of a text, in order.
pub(crate) fn chars_of(src: &str) -> (cs: Vec<char>)
    ensures
        cs@ == src@,
{
    let mut cs: Vec<char> = Vec::new();
    for c in it: src.chars()
        invariant
            cs@ == it.seq().take(it.index() as int),
            it.seq() == src@,
    {
        cs.push(c);
        assert(cs@ =~= it.seq().take(it.index() as int + 1));
    }
    cs
}

fn digit(c: char) -> (b: bool)
    ensures
        b == is_digit(c),
{
    '0' <= c && c <= '9'
}

fn ident_start(c: char) -> (b: bool)
    ensures
        b == is_ident_start(c),
{
    ('a' <= c && c <= 'z') || ('A' <= c && c <= 'Z') || c == '_'
}

fn scan_digits(cs: &Vec<char>, i: usize) -> (j: usize)
    requires
        i <= cs.len(),
    ensures
        j == digits_end(cs@, i as int),
{
    let mut j = i;
    while j < cs.len() && digit(cs[j])
        invariant
            i <= j <= cs.len(),
            digits_end(cs@, i as int) == digits_end(cs@, j as int),
        decreases cs.len() - j,
    {
        j = j + 1;
    }
    j
}

fn scan_ident(cs: &Vec<char>, i: usize) -> (j: usize)
    requires
        i <= cs.len(),
    ensures
        j == ident_end(cs@, i as int),
{
    let mut j = i;
    while j < cs.len() && (ident_start(cs[j]) || digit(cs[j]))
        invariant
            i <= j <= cs.len(),
            ident_end(cs@, i as int) == ident_end(cs@, j as int),
        decreases cs.len() - j,
    {
        j = j + 1;
    }
    j
}

fn scan_line(cs: &Vec<char>, i: usize) -> (j: usize)
    requires
        i <= cs.len(),
    ensures
        j == line_end(cs@, i as int),
{
    let mut j = i;
    while j < cs.len() && cs[j] != '\n' && cs[j] != '\r'
        invariant
            i <= j <= cs.len(),
            line_end(cs@, i as int) == line_end(cs@, j as int),
        decreases cs.len() - j,
    {
        j = j + 1;
    }
    j
}

fn scan_string(cs: &Vec<char>, i: usize) -> (res: Option<usize>)
    requires
        i <= cs.len(),
    ensures
        res matches Some(k) ==> string_close(cs@, i as int) == Some(k as int),
        res is None ==> string_close(cs@, i as int) is None,
{
    let mut j = i;
    while j < cs.len()
        invariant
            i <= j <= cs.len() + 1,
            string_close(cs@, i as int) == string_close(cs@, j as int),
        decreases cs.len() + 1 - j,
    {
        let c = cs[j];
        if c == '"' {
            return Some(j);
        } else if c == '\\' {
            if j + 1 < cs.len() && (cs[j + 1] == '"' || cs[j + 1] == '\\' || cs[j + 1] == 'n'
                || cs[j + 1] == 't') {
                j = j + 2;
            } else {
                return None;
            }
        } else {
            j = j + 1;
        }
    }
    None
}

/// The text of the string literal contents `cs[i..k]`, escapes resolved.
fn unescape_range(cs: &Vec<char>, i: usize, k: usize) -> (s: String)
    requires
        i <= k <= cs.len(),
    ensures
        s@ == unescape(cs@.subrange(i as int, k as int)),
{
    let mut out: Vec<char> = Vec::new();
    let mut m = i;
    while m < k
        invariant
            i <= m <= k <= cs.len(),
            out@ + unescape(cs@.subrange(m as int, k as int)) == unescape(
                cs@.subrange(i as int, k as int),
            ),
        decreases k - m,
    {
        let ghost rest = cs@.subrange(m as int, k as int);
        if cs[m] == '\\' && m + 1 < k {
            let c = cs[m + 1];
            let e = if c == 'n' {
                '\n'
            } else if c == 't' {
                '\t'
            } else {
                c
            };
            assert(rest.skip(2) =~= cs@.subrange(m + 2, k as int));
            out.push(e);
            m = m + 2;
        } else {
            assert(rest.skip(1) =~= cs@.subrange(m + 1, k as int));
            out.push(cs[m]);
            m = m + 1;
        }
        assert(out@ + unescape(cs@.subrange(m as int, k as int)) =~= unescape(
            cs@.subrange(i as int, k as int),
        ));
    }
    let ghost empty = cs@.subrange(k as int, k as int);
    assert(unescape(empty) =~= Seq::<char>::empty());
    assert(out@ =~= out@ + unescape(empty));
    assert(out@.subrange(0, out@.len() as int) =~= out@);
    string_from_chars(&out, 0, out.len())
}

/// The value of the digits `cs[i..j]`, if it fits in an `i32`.
fn int_value(cs: &Vec<char>, i: usize, j: usize) -> (res: Option<i32>)
    requires
        i <= j <= cs.len(),
        forall|m: int| i <= m < j ==> is_digit(#[trigger] cs@[m]),
    ensures
        res matches Some(v) ==> digits_value(cs@.subrange(i as int, j as int)) == v,
        res is None ==> digits_value(cs@.subrange(i as int, j as int)) > i32::MAX,
{
    let mut acc: u64 = 0;
    let mut over = false;
    let mut m = i;
    assert(cs@.subrange(i as int, i as int).len() == 0);
    while m < j
        invariant
            i <= m <= j <= cs.len(),
            forall|n: int| i <= n < j ==> is_digit(#[trigger] cs@[n]),
            !over ==> acc == digits_value(cs@.subrange(i as int, m as int)) && acc <= i32::MAX,
            over ==> digits_value(cs@.subrange(i as int, m as int)) > i32::MAX,
        decreases j - m,
    {
        let ghost pre = cs@.subrange(i as int, m as int);
        let ghost next = cs@.subrange(i as int, m + 1);
        assert(next.drop_last() =~= pre);
        assert(next.last() == cs@[m as int]);
        let d = (cs[m] as u32 - '0' as u32) as u64;
        assert(d == digit_value(cs@[m as int]));
        if !over {
            acc = acc * 10 + d;
            if acc > i32::MAX as u64 {
                over = true;
            }
        } else {
            proof {
                assert(digits_value(pre) >= 0) by {
                    lemma_digits_value_nonneg(pre);
                }
            }
        }
        m = m + 1;
    }
    if over {
        None
    } else {
        Some(acc as i32)
    }
}

pub proof fn lemma_digits_value_nonneg(s: Seq<char>)
    requires
        forall|n: int| 0 <= n < s.len() ==> is_digit(#[trigger] s[n]),
    ensures
        digits_value(s) >= 0,
    decreases s.len(),
{
    if s.len() > 0 {
        assert forall|n: int| 0 <= n < s.drop_last().len() implies is_digit(
            #[trigger] s.drop_last()[n],
        ) by {
            assert(s.drop_last()[n] == s[n]);
        }
        lemma_digits_value_nonneg(s.drop_last());
        assert(is_digit(s[s.len() - 1]));
    }
}

} // verus!

verus! {

/// Whether `cs[i..j]` spells `w`.
fn word_is(cs: &Vec<char>, i: usize, j: usize, w: &[char]) -> (b: bool)
    requires
        i <= j <= cs.len(),
    ensures
        b == (cs@.subrange(i as int, j as int) == w@),
{
    if j - i != w.len() {
        return false;
    }
    let mut m: usize = 0;
    while m < w.len()
        invariant
            j - i == w.len(),
            i <= j <= cs.len(),
            m <= w.len(),
            forall|n: int| 0 <= n < m ==> cs@[i + n] == w@[n],
        decreases w.len() - m,
    {
        if cs[i + m] != w[m] {
            assert(cs@.subrange(i as int, j as int)[m as int] != w@[m as int]);
            return false;
        }
        m = m + 1;
    }
    assert(cs@.subrange(i as int, j as int) =~= w@);
    true
}

fn keyword_of(cs: &Vec<char>, i: usize, j: usize) -> (res: Option<TokenKind>)
    requires
        i <= j <= cs.len(),
    ensures
        match res {
            Some(k) => keyword(cs@.subrange(i as int, j as int)) == Some(k@),
            None => keyword(cs@.subrange(i as int, j as int)) is None,
        },
{
    let ghost w = cs@.subrange(i as int, j as int);
    if word_is(cs, i, j, &['e', 'x', 't', 'e', 'r', 'n']) {
        assert(w == seq!['e', 'x', 't', 'e', 'r', 'n']);
        Some(TokenKind::Extern)
    } else if word_is(cs, i, j, &['f', 'u', 'n', 'c']) {
        Some(TokenKind::Func)
    } else if word_is(cs, i, j, &['s', 't', 'r', 'u', 'c', 't']) {
        Some(TokenKind::Struct)
    } else if word_is(cs, i, j, &['e', 'n', 'u', 'm']) {
        Some(TokenKind::Enum)
    } else if word_is(cs, i, j, &['l', 'o', 'c', 'a', 'l']) {
        Some(TokenKind::Local)
    } else if word_is(cs, i, j, &['i', 'f']) {
        Some(TokenKind::If)
    } else if word_is(cs, i, j, &['e', 'l', 'i', 'f']) {
        Some(TokenKind::Elif)
    } else if word_is(cs, i, j, &['e', 'l', 's', 'e']) {
        Some(TokenKind::Else)
    } else if word_is(cs, i, j, &['f', 'o', 'r']) {
        Some(TokenKind::For)
    } else if word_is(cs, i, j, &['i', 'n']) {
        Some(TokenKind::In)
    } else if word_is(cs, i, j, &['w', 'h', 'i', 'l', 'e']) {
        Some(TokenKind::While)
    } else if word_is(cs, i, j, &['r', 'e', 't', 'u', 'r', 'n']) {
        Some(TokenKind::Return)
    } else if word_is(cs, i, j, &['t', 'r', 'u', 'e']) {
        Some(TokenKind::True)
    } else if word_is(cs, i, j, &['f', 'a', 'l', 's', 'e']) {
        Some(TokenKind::False)
    } else {
        None
    }
}

fn punct2_of(a: char, b: char) -> (res: Option<TokenKind>)
    ensures
        match res {
            Some(k) => punct2(a, b) == Some(k@),
            None => punct2(a, b) is None,
        },
{
    if a == '=' && b == '=' {
        Some(TokenKind::EqEq)
    } else if a == '!' && b == '=' {
        Some(TokenKind::BangEq)
    } else if a == '<' && b == '=' {
        Some(TokenKind::LtEq)
    } else if a == '>' && b == '=' {
        Some(TokenKind::GtEq)
    } else if a == '=' && b == '>' {
        Some(TokenKind::FatArrow)
    } else if a == '-' && b == '>' {
        Some(TokenKind::Arrow)
    } else if a == '&' && b == '&' {
        Some(TokenKind::And)
    } else if a == '|' && b == '|' {
        Some(TokenKind::Or)
    } else {
        None
    }
}

fn punct1_of(c: char) -> (res: Option<TokenKind>)
    ensures
        match res {
            Some(k) => punct1(c) == Some(k@),
            None => punct1(c) is None,
        },
{
    if c == '.' {
        Some(TokenKind::Dot)
    } else if c == '!' {
        Some(TokenKind::Bang)
    } else if c == '+' {
        Some(TokenKind::Plus)
    } else if c == '-' {
        Some(TokenKind::Minus)
    } else if c == '*' {
        Some(TokenKind::Asterisk)
    } else if c == '/' {
        Some(TokenKind::Slash)
    } else if c == '<' {
        Some(TokenKind::Lt)
    } else if c == '>' {
        Some(TokenKind::Gt)
    } else if c == '=' {
        Some(TokenKind::Eq)
    } else if c == '(' {
        Some(TokenKind::LParen)
    } else if c == ')' {
        Some(TokenKind::RParen)
    } else if c == '{' {
        Some(TokenKind::LBrace)
    } else if c == '}' {
        Some(TokenKind::RBrace)
    } else if c == '[' {
        Some(TokenKind::LBracket)
    } else if c == ']' {
        Some(TokenKind::RBracket)
    } else if c == ',' {
        Some(TokenKind::Comma)
    } else if c == ':' {
        Some(TokenKind::Colon)
    } else if c == ';' {
        Some(TokenKind::Semicolon)
    } else if c == '|' {
        Some(TokenKind::VerBar)
    } else if c == '\n' {
        Some(TokenKind::Newline)
    } else {
        None
    }
}

/// What the lexer does at position `i`.
pub fn lex_step(cs: &Vec<char>, i: usize) -> (s: Step)
    requires
        i < cs.len(),
    ensures
        s@ == step(cs@, i as int),
{
    proof {
        lemma_scans_advance(cs@, i as int);
        lemma_scans_advance(cs@, i + 1);
    }
    let c = cs[i];
    let has_next = i + 1 < cs.len();
    if c == ' ' || c == '\t' || c == '\r' || c == '\x0C' {
        Step::Skip(i + 1)
    } else if c == '/' && has_next && cs[i + 1] == '/' {
        Step::Skip(scan_line(cs, i))
    } else if digit(c) {
        let j = scan_digits(cs, i);
        if j < cs.len() - 1 && cs[j] == '.' && digit(cs[j + 1]) {
            proof {
                lemma_scans_advance(cs@, j + 1);
            }
            let k = scan_digits(cs, j + 1);
            let text = string_from_chars(&cs, i, k);
            Step::Tok(TokenKind::Float(text), k)
        } else {
            proof {
                lemma_digit_run(cs@, i as int);
            }
            match int_value(cs, i, j) {
                Some(v) => Step::Tok(TokenKind::Int(v), j),
                None => Step::Fail(LexErrorKind::IntOutOfRange, j),
            }
        }
    } else if ident_start(c) {
        let j = scan_ident(cs, i);
        match keyword_of(cs, i, j) {
            Some(k) => Step::Tok(k, j),
            None => Step::Tok(TokenKind::Identifier(string_from_chars(&cs, i, j)), j),
        }
    } else if c == '"' {
        match scan_string(cs, i + 1) {
            Some(k) => Step::Tok(TokenKind::StringLit(unescape_range(cs, i + 1, k)), k + 1),
            None => Step::Fail(LexErrorKind::UnexpectedChar(c), i + 1),
        }
    } else {
        let two = if has_next {
            punct2_of(c, cs[i + 1])
        } else {
            None
        };
        match two {
            Some(k) => Step::Tok(k, i + 2),
            None => match punct1_of(c) {
                Some(k) => Step::Tok(k, i + 1),
                None => Step::Fail(LexErrorKind::UnexpectedChar(c), i + 1),
            },
        }
    }
}

pub proof fn lemma_digit_run(cs: Seq<char>, i: int)
    requires
        0 <= i <= cs.len(),
    ensures
        forall|m: int| i <= m < digits_end(cs, i) ==> is_digit(#[trigger] cs[m]),
    decreases cs.len() - i,
{
    if 0 <= i < cs.len() && is_digit(cs[i]) {
        lemma_digit_run(cs, i + 1);
    }
}

/// Splits a source text into tokens.
///
/// The result is the tokens of `src` in order, ending with `Eof`, when every
/// character belongs to a token, to a comment or to blank space; otherwise it
/// is every error, in order of position.
pub fn lex(src: &str) -> (res: Result<Vec<Token>, Vec<LexError>>)
    ensures
        match res {
            Ok(toks) => spec_lex(src@) == Ok::<Seq<SpecToken>, Seq<LexError>>(
                tokens_view(toks@),
            ),
            Err(errs) => spec_lex(src@) == Err::<Seq<SpecToken>, Seq<LexError>>(errs@),
        },
{
    let cs = chars_of(src);
    let mut toks: Vec<Token> = Vec::new();
    let mut errs: Vec<LexError> = Vec::new();
    let mut i: usize = 0;
    assert(tokens_view(toks@) =~= Seq::<SpecToken>::empty());
    while i < cs.len()
        invariant
            i <= cs.len(),
            cs@ == src@,
            lex_from(cs@, i as int, tokens_view(toks@), errs@) == lex_from(
                cs@,
                0,
                Seq::empty(),
                Seq::empty(),
            ),
        decreases cs.len() - i,
    {
        proof {
            lemma_step_advances(cs@, i as int);
        }
        let ghost before = tokens_view(toks@);
        let s = lex_step(&cs, i);
        match s {
            Step::Skip(end) => {
                i = end;
            },
            Step::Tok(kind, end) => {
                toks.push(Token { kind, span: Span { start: i, end } });
                assert(tokens_view(toks@) =~= before.push(
                    toks@[toks@.len() - 1]@,
                ));
                i = end;
            },
            Step::Fail(kind, end) => {
                errs.push(LexError { kind, span: Span { start: i, end } });
                i = end;
            },
        }
    }
    let ghost before = tokens_view(toks@);
    let n = cs.len();
    toks.push(Token { kind: TokenKind::Eof, span: Span { start: n, end: n } });
    assert(tokens_view(toks@) =~= before.push(toks@[toks@.len() - 1]@));
    if errs.len() == 0 {
        Ok(toks)
    } else {
        Err(errs)
    }
}

} // verus!
