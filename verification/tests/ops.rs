//! Operator semantics: native two's-complement 64-bit arithmetic,
//! bitwise operations, shifts and comparisons, including wraparound.

use cfgvm::error::Error;
use cfgvm::interpreter::{eval_binop, eval_constant, eval_unop};
use cfgvm::ir::{BinOp, ConstVal, UnOp};
use cfgvm::value::Value;

#[test]
fn add_basic() {
    assert_eq!(eval_binop(BinOp::Add, 2, 3), Ok(Value::Int(5)));
}

#[test]
fn add_wraps_on_overflow() {
    assert_eq!(eval_binop(BinOp::Add, i64::MAX, 1), Ok(Value::Int(i64::MIN)));
}

#[test]
fn sub_basic() {
    assert_eq!(eval_binop(BinOp::Sub, 2, 5), Ok(Value::Int(-3)));
}

#[test]
fn sub_wraps_on_overflow() {
    assert_eq!(eval_binop(BinOp::Sub, i64::MIN, 1), Ok(Value::Int(i64::MAX)));
}

#[test]
fn mul_basic() {
    assert_eq!(eval_binop(BinOp::Mul, -7, 6), Ok(Value::Int(-42)));
}

#[test]
fn mul_wraps_on_overflow() {
    assert_eq!(
        eval_binop(BinOp::Mul, i64::MAX, 2),
        Ok(Value::Int(i64::MAX.wrapping_mul(2)))
    );
}

#[test]
fn div_truncates_toward_zero() {
    assert_eq!(eval_binop(BinOp::Div, 7, 2), Ok(Value::Int(3)));
    assert_eq!(eval_binop(BinOp::Div, -7, 2), Ok(Value::Int(-3)));
    assert_eq!(eval_binop(BinOp::Div, 7, -2), Ok(Value::Int(-3)));
}

#[test]
fn div_by_zero_is_an_error() {
    assert_eq!(eval_binop(BinOp::Div, 1, 0), Err(Error::DivisionByZero));
}

#[test]
fn div_min_by_minus_one_wraps() {
    assert_eq!(eval_binop(BinOp::Div, i64::MIN, -1), Ok(Value::Int(i64::MIN)));
}

#[test]
fn rem_follows_dividend_sign() {
    assert_eq!(eval_binop(BinOp::Rem, 7, 3), Ok(Value::Int(1)));
    assert_eq!(eval_binop(BinOp::Rem, -7, 3), Ok(Value::Int(-1)));
}

#[test]
fn rem_by_zero_is_an_error() {
    assert_eq!(eval_binop(BinOp::Rem, 1, 0), Err(Error::DivisionByZero));
}

#[test]
fn rem_min_by_minus_one_wraps_to_zero() {
    assert_eq!(eval_binop(BinOp::Rem, i64::MIN, -1), Ok(Value::Int(0)));
}

#[test]
fn bitwise_operators() {
    assert_eq!(eval_binop(BinOp::BitXor, 0b1100, 0b1010), Ok(Value::Int(0b0110)));
    assert_eq!(eval_binop(BinOp::BitAnd, 0b1100, 0b1010), Ok(Value::Int(0b1000)));
    assert_eq!(eval_binop(BinOp::BitOr, 0b1100, 0b1010), Ok(Value::Int(0b1110)));
}

#[test]
fn shift_left() {
    assert_eq!(eval_binop(BinOp::Shl, 1, 4), Ok(Value::Int(16)));
    assert_eq!(eval_binop(BinOp::Shl, 1, 63), Ok(Value::Int(i64::MIN)));
}

#[test]
fn shift_right_is_arithmetic() {
    assert_eq!(eval_binop(BinOp::Shr, -16, 2), Ok(Value::Int(-4)));
    assert_eq!(eval_binop(BinOp::Shr, 16, 2), Ok(Value::Int(4)));
}

#[test]
fn shift_out_of_range_is_an_error() {
    assert_eq!(eval_binop(BinOp::Shl, 1, 64), Err(Error::ShiftOutOfRange));
    assert_eq!(eval_binop(BinOp::Shr, 1, -1), Err(Error::ShiftOutOfRange));
}

#[test]
fn comparisons_yield_booleans() {
    assert_eq!(eval_binop(BinOp::Eq, 3, 3), Ok(Value::Bool(true)));
    assert_eq!(eval_binop(BinOp::Ne, 3, 3), Ok(Value::Bool(false)));
    assert_eq!(eval_binop(BinOp::Lt, 2, 3), Ok(Value::Bool(true)));
    assert_eq!(eval_binop(BinOp::Le, 3, 3), Ok(Value::Bool(true)));
    assert_eq!(eval_binop(BinOp::Ge, 2, 3), Ok(Value::Bool(false)));
    assert_eq!(eval_binop(BinOp::Gt, 3, 2), Ok(Value::Bool(true)));
}

#[test]
fn comparisons_at_extremes() {
    assert_eq!(eval_binop(BinOp::Lt, i64::MIN, i64::MAX), Ok(Value::Bool(true)));
    assert_eq!(eval_binop(BinOp::Gt, i64::MIN, i64::MAX), Ok(Value::Bool(false)));
}

#[test]
fn unary_not_is_bitwise_complement() {
    assert_eq!(eval_unop(UnOp::Not, 5), Value::Int(-6));
    assert_eq!(eval_unop(UnOp::Not, 0), Value::Int(-1));
}

#[test]
fn unary_neg_wraps_at_minimum() {
    assert_eq!(eval_unop(UnOp::Neg, 5), Value::Int(-5));
    assert_eq!(eval_unop(UnOp::Neg, i64::MIN), Value::Int(i64::MIN));
}

#[test]
fn constants_evaluate_by_kind() {
    assert_eq!(eval_constant(&ConstVal::Int(-3)), Ok(Value::Int(-3)));
    assert_eq!(eval_constant(&ConstVal::Bool(true)), Ok(Value::Bool(true)));
    assert_eq!(eval_constant(&ConstVal::Float), Err(Error::UnsupportedConstruct));
    assert_eq!(eval_constant(&ConstVal::Uint(1)), Err(Error::UnsupportedConstruct));
    assert_eq!(eval_constant(&ConstVal::Str), Err(Error::UnsupportedConstruct));
}
