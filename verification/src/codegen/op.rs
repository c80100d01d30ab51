//! The instruction of a binary operator.
use vstd::prelude::*;
use wasm_encoder::Function;
use crate::common::op::BinOpKind;
use crate::lower::ir::IrTy;
use super::rules::{bin_op_code, bin_op_ok};
use super::wasm::{
    function_instrs, function_locals, instr_f32_add, instr_f32_div, instr_f32_eq, instr_f32_ge, instr_f32_gt,
    instr_f32_le, instr_f32_lt, instr_f32_mul, instr_f32_ne, instr_f32_sub, instr_i32_add, instr_i32_and,
    instr_i32_div_s, instr_i32_eq, instr_i32_ge_s, instr_i32_gt_s, instr_i32_le_s, instr_i32_lt_s, instr_i32_mul,
    instr_i32_ne, instr_i32_or, instr_i32_sub,
};

verus! {

/// Emits the instruction of `op` on two operands of type `ty`: the `i32`
/// one for `I32` (division and ordering on signed values), the `f32` one
/// for `F32`.
pub fn bin_op(body: &mut Function, op: BinOpKind, ty: IrTy)
    requires
        bin_op_ok(op, ty),
    ensures
        function_locals(*final(body)) == function_locals(*old(body)),
        function_instrs(*final(body)) == function_instrs(*old(body)).push((bin_op_code(op, ty), 0i64)),
{
    match ty {
        IrTy::F32 => match op {
            BinOpKind::Add => instr_f32_add(body),
            BinOpKind::Sub => instr_f32_sub(body),
            BinOpKind::Mul => instr_f32_mul(body),
            BinOpKind::Div => instr_f32_div(body),
            BinOpKind::Lt => instr_f32_lt(body),
            BinOpKind::Gt => instr_f32_gt(body),
            BinOpKind::LtEq => instr_f32_le(body),
            BinOpKind::GtEq => instr_f32_ge(body),
            BinOpKind::EqEq => instr_f32_eq(body),
            BinOpKind::NotEq => instr_f32_ne(body),
            BinOpKind::And | BinOpKind::Or => {
                assert(false);
            },
        },
        _ => match op {
            BinOpKind::Add => instr_i32_add(body),
            BinOpKind::Sub => instr_i32_sub(body),
            BinOpKind::Mul => instr_i32_mul(body),
            BinOpKind::Div => instr_i32_div_s(body),
            BinOpKind::Lt => instr_i32_lt_s(body),
            BinOpKind::Gt => instr_i32_gt_s(body),
            BinOpKind::LtEq => instr_i32_le_s(body),
            BinOpKind::GtEq => instr_i32_ge_s(body),
            BinOpKind::EqEq => instr_i32_eq(body),
            BinOpKind::NotEq => instr_i32_ne(body),
            BinOpKind::And => instr_i32_and(body),
            BinOpKind::Or => instr_i32_or(body),
        },
    }
}

} // verus!
