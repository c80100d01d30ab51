//! Properties of the grammar: how operators group.
use vstd::prelude::*;
use crate::common::op::BinOpKind;
use crate::lexer::token::{SpecToken, SpecTokenKind};
use super::ast::SpecExpr;
use super::grammar::{bin_op_at, binary, binary_tail, expr, kind, new_binary, operand, unary};

verus! {

/// No binary operator is spelled by the token: it ends an operand.
pub open spec fn ends_operand(k: SpecTokenKind) -> bool {
    !(k is Or || k is And || k is EqEq || k is BangEq || k is Lt || k is Gt || k is LtEq || k is GtEq || k is Plus
        || k is Minus || k is Asterisk || k is Slash)
}

/// An operand read at `p` that no operator of level `lv` or tighter follows
/// is what the levels from `lv` down make of the tokens there.
proof fn lemma_operand_alone(ts: Seq<SpecToken>, lv: int, p: int, x: SpecExpr, q: int)
    requires
        2 <= lv <= 5,
        unary(ts, p) == Ok::<(SpecExpr, int), super::grammar::SpecParseError>((x, q)),
        p < q <= ts.len(),
        ends_operand(kind(ts, q)),
    ensures
        binary(ts, lv, p) == Ok::<(SpecExpr, int), super::grammar::SpecParseError>((x, q)),
    decreases 5 - lv,
{
    if lv < 5 {
        lemma_operand_alone(ts, lv + 1, p, x, q);
        assert(operand(ts, lv, p) == binary(ts, lv + 1, p));
    } else {
        assert(operand(ts, lv, p) == unary(ts, p));
    }
    assert(bin_op_at(lv, kind(ts, q)) is None);
    assert(binary_tail(ts, lv, x, q) == Ok::<(SpecExpr, int), super::grammar::SpecParseError>((x, q)));
}

/// `&&` binds tighter than `||`: the tokens of `x || y && z` (each operand
/// any unary expression, the last one followed by no binary operator) parse
/// as `x || (y && z)`.
pub proof fn lemma_and_binds_tighter_on_right(
    ts: Seq<SpecToken>,
    p: int,
    x: SpecExpr,
    p1: int,
    y: SpecExpr,
    p2: int,
    z: SpecExpr,
    p3: int,
)
    requires
        0 <= p < p1,
        p1 + 1 < p2,
        p2 + 1 < p3 <= ts.len(),
        unary(ts, p) == Ok::<(SpecExpr, int), super::grammar::SpecParseError>((x, p1)),
        kind(ts, p1) is Or,
        unary(ts, p1 + 1) == Ok::<(SpecExpr, int), super::grammar::SpecParseError>((y, p2)),
        kind(ts, p2) is And,
        unary(ts, p2 + 1) == Ok::<(SpecExpr, int), super::grammar::SpecParseError>((z, p3)),
        ends_operand(kind(ts, p3)),
    ensures
        expr(ts, p) == Ok::<(SpecExpr, int), super::grammar::SpecParseError>(
            (new_binary(BinOpKind::Or, x, new_binary(BinOpKind::And, y, z)), p3),
        ),
{
    // the first operand stops at `||` below level 1
    lemma_unary_before(ts, 2, p, x, p1);
    assert(binary_tail(ts, 1, x, p1) == Ok::<(SpecExpr, int), super::grammar::SpecParseError>((x, p1)));
    assert(binary(ts, 1, p) == Ok::<(SpecExpr, int), super::grammar::SpecParseError>((x, p1)));
    // `y && z` at level 1
    lemma_unary_before(ts, 2, p1 + 1, y, p2);
    lemma_operand_alone(ts, 2, p2 + 1, z, p3);
    let yz = new_binary(BinOpKind::And, y, z);
    assert(binary_tail(ts, 1, yz, p3) == Ok::<(SpecExpr, int), super::grammar::SpecParseError>((yz, p3)));
    assert(operand(ts, 1, p2 + 1) == binary(ts, 2, p2 + 1));
    assert(binary_tail(ts, 1, y, p2) == Ok::<(SpecExpr, int), super::grammar::SpecParseError>((yz, p3)));
    assert(binary(ts, 1, p1 + 1) == Ok::<(SpecExpr, int), super::grammar::SpecParseError>((yz, p3)));
    // `x || (y && z)` at level 0
    let e = new_binary(BinOpKind::Or, x, yz);
    assert(binary_tail(ts, 0, e, p3) == Ok::<(SpecExpr, int), super::grammar::SpecParseError>((e, p3)));
    assert(operand(ts, 1, p1 + 1) == binary(ts, 2, p1 + 1));
    assert(operand(ts, 0, p1 + 1) == binary(ts, 1, p1 + 1));
    assert(binary_tail(ts, 0, x, p1) == Ok::<(SpecExpr, int), super::grammar::SpecParseError>((e, p3)));
    assert(binary(ts, 0, p) == Ok::<(SpecExpr, int), super::grammar::SpecParseError>((e, p3)));
}

/// `||` is the loosest level: the tokens of `x && y || z` (operands as
/// above) parse as `(x && y) || z`.
pub proof fn lemma_and_binds_tighter_on_left(
    ts: Seq<SpecToken>,
    p: int,
    x: SpecExpr,
    p1: int,
    y: SpecExpr,
    p2: int,
    z: SpecExpr,
    p3: int,
)
    requires
        0 <= p < p1,
        p1 + 1 < p2,
        p2 + 1 < p3 <= ts.len(),
        unary(ts, p) == Ok::<(SpecExpr, int), super::grammar::SpecParseError>((x, p1)),
        kind(ts, p1) is And,
        unary(ts, p1 + 1) == Ok::<(SpecExpr, int), super::grammar::SpecParseError>((y, p2)),
        kind(ts, p2) is Or,
        unary(ts, p2 + 1) == Ok::<(SpecExpr, int), super::grammar::SpecParseError>((z, p3)),
        ends_operand(kind(ts, p3)),
    ensures
        expr(ts, p) == Ok::<(SpecExpr, int), super::grammar::SpecParseError>(
            (new_binary(BinOpKind::Or, new_binary(BinOpKind::And, x, y), z), p3),
        ),
{
    // `x && y` at level 1, stopping at `||`
    lemma_unary_before(ts, 2, p, x, p1);
    lemma_unary_before(ts, 2, p1 + 1, y, p2);
    let xy = new_binary(BinOpKind::And, x, y);
    assert(binary_tail(ts, 1, xy, p2) == Ok::<(SpecExpr, int), super::grammar::SpecParseError>((xy, p2)));
    assert(operand(ts, 1, p1 + 1) == binary(ts, 2, p1 + 1));
    assert(binary_tail(ts, 1, x, p1) == Ok::<(SpecExpr, int), super::grammar::SpecParseError>((xy, p2)));
    assert(binary(ts, 1, p) == Ok::<(SpecExpr, int), super::grammar::SpecParseError>((xy, p2)));
    // `z` at level 1
    lemma_operand_alone(ts, 2, p2 + 1, z, p3);
    assert(binary_tail(ts, 1, z, p3) == Ok::<(SpecExpr, int), super::grammar::SpecParseError>((z, p3)));
    assert(binary(ts, 1, p2 + 1) == Ok::<(SpecExpr, int), super::grammar::SpecParseError>((z, p3)));
    // `(x && y) || z` at level 0
    let e = new_binary(BinOpKind::Or, xy, z);
    assert(binary_tail(ts, 0, e, p3) == Ok::<(SpecExpr, int), super::grammar::SpecParseError>((e, p3)));
    assert(operand(ts, 0, p2 + 1) == binary(ts, 1, p2 + 1));
    assert(binary_tail(ts, 0, xy, p2) == Ok::<(SpecExpr, int), super::grammar::SpecParseError>((e, p3)));
    assert(binary(ts, 0, p) == Ok::<(SpecExpr, int), super::grammar::SpecParseError>((e, p3)));
}

/// An operand followed by `&&` or `||` is what the levels from `lv` (at
/// least the equality level) down make of its tokens: neither operator
/// belongs to those levels.
proof fn lemma_unary_before(ts: Seq<SpecToken>, lv: int, p: int, x: SpecExpr, q: int)
    requires
        2 <= lv <= 5,
        unary(ts, p) == Ok::<(SpecExpr, int), super::grammar::SpecParseError>((x, q)),
        p < q <= ts.len(),
        kind(ts, q) is And || kind(ts, q) is Or,
    ensures
        binary(ts, lv, p) == Ok::<(SpecExpr, int), super::grammar::SpecParseError>((x, q)),
    decreases 5 - lv,
{
    if lv < 5 {
        lemma_unary_before(ts, lv + 1, p, x, q);
        assert(operand(ts, lv, p) == binary(ts, lv + 1, p));
    } else {
        assert(operand(ts, lv, p) == unary(ts, p));
    }
    assert(bin_op_at(lv, kind(ts, q)) is None);
    assert(binary_tail(ts, lv, x, q) == Ok::<(SpecExpr, int), super::grammar::SpecParseError>((x, q)));
}

} // verus!
