//! Properties of the tokens that lexing produces.
use vstd::prelude::*;
use super::token::{SpecToken, SpecTokenKind};
use super::{lemma_step_advances, lex_from, spec_lex, step, LexError, SpecStep};

verus! {

/// Each token covers characters before `n`, and each one ends where or
/// before the next one starts.
pub open spec fn spans_in_order(toks: Seq<SpecToken>, n: int) -> bool {
    &&& forall|k: int| 0 <= k < toks.len() ==> (#[trigger] toks[k]).span.start <= toks[k].span.end <= n
    &&& forall|k: int, l: int| 0 <= k < l < toks.len() ==> (#[trigger] toks[k]).span.end <= (#[trigger] toks[l]).span.start
}

/// The same for errors.
pub open spec fn errors_in_order(errs: Seq<LexError>, n: int) -> bool {
    &&& forall|k: int| 0 <= k < errs.len() ==> (#[trigger] errs[k]).span.start <= errs[k].span.end <= n
    &&& forall|k: int, l: int| 0 <= k < l < errs.len() ==> (#[trigger] errs[k]).span.end <= (#[trigger] errs[l]).span.start
}

proof fn lemma_lex_from_in_order(cs: Seq<char>, i: int, toks: Seq<SpecToken>, errs: Seq<LexError>)
    requires
        0 <= i <= cs.len(),
        cs.len() <= usize::MAX,
        spans_in_order(toks, i),
        errors_in_order(errs, i),
    ensures
        spans_in_order(lex_from(cs, i, toks, errs).0, cs.len() as int),
        errors_in_order(lex_from(cs, i, toks, errs).1, cs.len() as int),
        lex_from(cs, i, toks, errs).0.len() > 0,
        lex_from(cs, i, toks, errs).0.last().kind is Eof,
        lex_from(cs, i, toks, errs).0.last().span.start == cs.len(),
    decreases cs.len() - i,
{
    if i >= cs.len() {
    } else {
        lemma_step_advances(cs, i);
        match step(cs, i) {
            SpecStep::Skip { end } => {
                lemma_lex_from_in_order(cs, end, toks, errs);
            },
            SpecStep::Tok { kind, end } => {
                let t = SpecToken { kind, span: crate::common::span::Span { start: i as usize, end: end as usize } };
                let toks2 = toks.push(t);
                assert(spans_in_order(toks2, end)) by {
                    assert forall|k: int, l: int| 0 <= k < l < toks2.len() implies (#[trigger] toks2[k]).span.end
                        <= (#[trigger] toks2[l]).span.start by {
                        if l == toks.len() {
                            assert(toks2[k] == toks[k]);
                        } else {
                            assert(toks2[k] == toks[k]);
                            assert(toks2[l] == toks[l]);
                        }
                    }
                    assert forall|k: int| 0 <= k < toks2.len() implies (#[trigger] toks2[k]).span.start
                        <= toks2[k].span.end <= end by {
                        if k < toks.len() {
                            assert(toks2[k] == toks[k]);
                        }
                    }
                }
                lemma_lex_from_in_order(cs, end, toks2, errs);
            },
            SpecStep::Fail { err, end } => {
                let e = LexError { kind: err, span: crate::common::span::Span { start: i as usize, end: end as usize } };
                let errs2 = errs.push(e);
                assert(errors_in_order(errs2, end)) by {
                    assert forall|k: int, l: int| 0 <= k < l < errs2.len() implies (#[trigger] errs2[k]).span.end
                        <= (#[trigger] errs2[l]).span.start by {
                        if l == errs.len() {
                            assert(errs2[k] == errs[k]);
                        } else {
                            assert(errs2[k] == errs[k]);
                            assert(errs2[l] == errs[l]);
                        }
                    }
                    assert forall|k: int| 0 <= k < errs2.len() implies (#[trigger] errs2[k]).span.start
                        <= errs2[k].span.end <= end by {
                        if k < errs.len() {
                            assert(errs2[k] == errs[k]);
                        }
                    }
                }
                lemma_lex_from_in_order(cs, end, toks, errs2);
            },
        }
    }
}

/// Lexing reads the text from left to right: the tokens (or the errors)
/// cover characters of the text in order, without overlapping, and the
/// tokens end with `Eof` at the end of the text.
pub proof fn lemma_lex_in_order(cs: Seq<char>)
    requires
        cs.len() <= usize::MAX,
    ensures
        match spec_lex(cs) {
            Ok(toks) => spans_in_order(toks, cs.len() as int) && toks.len() > 0 && toks.last().kind is Eof
                && toks.last().span.start == cs.len(),
            Err(errs) => errors_in_order(errs, cs.len() as int),
        },
{
    lemma_lex_from_in_order(cs, 0, Seq::empty(), Seq::empty());
}

/// A token that starts on a two-character operator spans both characters
/// and is that operator: `==`, `!=`, `<=`, `>=`, `=>`, `->`, `&&`, `||`.
pub open spec fn two_char_operators_whole(cs: Seq<char>, toks: Seq<SpecToken>) -> bool {
    forall|k: int|
        0 <= k < toks.len() && (#[trigger] toks[k]).span.start + 1 < cs.len() ==> {
            let i = toks[k].span.start as int;
            let t = toks[k];
            &&& (cs[i] == '=' && cs[i + 1] == '=') ==> t.kind is EqEq && t.span.end == i + 2
            &&& (cs[i] == '!' && cs[i + 1] == '=') ==> t.kind is BangEq && t.span.end == i + 2
            &&& (cs[i] == '<' && cs[i + 1] == '=') ==> t.kind is LtEq && t.span.end == i + 2
            &&& (cs[i] == '>' && cs[i + 1] == '=') ==> t.kind is GtEq && t.span.end == i + 2
            &&& (cs[i] == '=' && cs[i + 1] == '>') ==> t.kind is FatArrow && t.span.end == i + 2
            &&& (cs[i] == '-' && cs[i + 1] == '>') ==> t.kind is Arrow && t.span.end == i + 2
            &&& (cs[i] == '&' && cs[i + 1] == '&') ==> t.kind is And && t.span.end == i + 2
            &&& (cs[i] == '|' && cs[i + 1] == '|') ==> t.kind is Or && t.span.end == i + 2
        }
}

proof fn lemma_lex_from_operators(cs: Seq<char>, i: int, toks: Seq<SpecToken>, errs: Seq<LexError>)
    requires
        0 <= i <= cs.len(),
        cs.len() <= usize::MAX,
        two_char_operators_whole(cs, toks),
    ensures
        two_char_operators_whole(cs, lex_from(cs, i, toks, errs).0),
    decreases cs.len() - i,
{
    if i >= cs.len() {
        let toks2 = lex_from(cs, i, toks, errs).0;
        assert forall|k: int| 0 <= k < toks2.len() && (#[trigger] toks2[k]).span.start + 1 < cs.len() implies {
            let i = toks2[k].span.start as int;
            let t = toks2[k];
            &&& (cs[i] == '=' && cs[i + 1] == '=') ==> t.kind is EqEq && t.span.end == i + 2
            &&& (cs[i] == '!' && cs[i + 1] == '=') ==> t.kind is BangEq && t.span.end == i + 2
            &&& (cs[i] == '<' && cs[i + 1] == '=') ==> t.kind is LtEq && t.span.end == i + 2
            &&& (cs[i] == '>' && cs[i + 1] == '=') ==> t.kind is GtEq && t.span.end == i + 2
            &&& (cs[i] == '=' && cs[i + 1] == '>') ==> t.kind is FatArrow && t.span.end == i + 2
            &&& (cs[i] == '-' && cs[i + 1] == '>') ==> t.kind is Arrow && t.span.end == i + 2
            &&& (cs[i] == '&' && cs[i + 1] == '&') ==> t.kind is And && t.span.end == i + 2
            &&& (cs[i] == '|' && cs[i + 1] == '|') ==> t.kind is Or && t.span.end == i + 2
        } by {
            if k < toks.len() {
                assert(toks2[k] == toks[k]);
            }
        }
    } else {
        lemma_step_advances(cs, i);
        match step(cs, i) {
            SpecStep::Skip { end } => {
                lemma_lex_from_operators(cs, end, toks, errs);
            },
            SpecStep::Tok { kind, end } => {
                let t = SpecToken { kind, span: crate::common::span::Span { start: i as usize, end: end as usize } };
                let toks2 = toks.push(t);
                assert(two_char_operators_whole(cs, toks2)) by {
                    assert forall|k: int| 0 <= k < toks2.len() && (#[trigger] toks2[k]).span.start + 1 < cs.len() implies {
                        let i = toks2[k].span.start as int;
                        let t = toks2[k];
                        &&& (cs[i] == '=' && cs[i + 1] == '=') ==> t.kind is EqEq && t.span.end == i + 2
                        &&& (cs[i] == '!' && cs[i + 1] == '=') ==> t.kind is BangEq && t.span.end == i + 2
                        &&& (cs[i] == '<' && cs[i + 1] == '=') ==> t.kind is LtEq && t.span.end == i + 2
                        &&& (cs[i] == '>' && cs[i + 1] == '=') ==> t.kind is GtEq && t.span.end == i + 2
                        &&& (cs[i] == '=' && cs[i + 1] == '>') ==> t.kind is FatArrow && t.span.end == i + 2
                        &&& (cs[i] == '-' && cs[i + 1] == '>') ==> t.kind is Arrow && t.span.end == i + 2
                        &&& (cs[i] == '&' && cs[i + 1] == '&') ==> t.kind is And && t.span.end == i + 2
                        &&& (cs[i] == '|' && cs[i + 1] == '|') ==> t.kind is Or && t.span.end == i + 2
                    } by {
                        if k < toks.len() {
                            assert(toks2[k] == toks[k]);
                        }
                    }
                }
                lemma_lex_from_operators(cs, end, toks2, errs);
            },
            SpecStep::Fail { err, end } => {
                lemma_lex_from_operators(cs, end, toks, errs.push(
                    LexError { kind: err, span: crate::common::span::Span { start: i as usize, end: end as usize } },
                ));
            },
        }
    }
}

/// Two-character operators are read whole: wherever a token starts on the
/// characters of `==`, `!=`, `<=`, `>=`, `=>`, `->`, `&&` or `||`, that token
/// is the operator and ends two characters later (so `a >= b` gives `GtEq`,
/// never `Gt` followed by `Eq`).
pub proof fn lemma_two_char_operators(cs: Seq<char>)
    requires
        cs.len() <= usize::MAX,
    ensures
        spec_lex(cs) matches Ok(toks) ==> two_char_operators_whole(cs, toks),
{
    lemma_lex_from_operators(cs, 0, Seq::empty(), Seq::empty());
}

} // verus!
