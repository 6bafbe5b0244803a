use vstd::prelude::*;

use crate::datatypes::operator::Operator;
use crate::datatypes::values::ScalarValue;
use crate::logical::expression::binary::BinaryExpr;
use crate::logical::expression::column::Column;
use crate::logical::expression::expr::LogicalExpr;
use std::sync::Arc;

verus! {

/// A column reference by name.
pub fn col(name: String) -> (r: LogicalExpr)
    ensures
        r == LogicalExpr::Column(Column { name }),
{
    LogicalExpr::Column(Column::new(name))
}

/// A typed literal from a primitive value.
pub fn lit<T: LiteralExt>(value: T) -> (r: LogicalExpr)
    ensures
        r == value.lit_spec(),
{
    value.lit()
}

/// Primitive values that can stand as typed literals.
pub trait LiteralExt {
    /// The literal expression this value denotes.
    spec fn lit_spec(&self) -> LogicalExpr;

    /// Wraps the value as a literal expression.
    fn lit(&self) -> (r: LogicalExpr)
        ensures
            r == self.lit_spec(),
    ;
}

impl LiteralExt for i8 {
    open spec fn lit_spec(&self) -> LogicalExpr {
        LogicalExpr::Literal(ScalarValue::Int8(Some(*self)))
    }

    fn lit(&self) -> (r: LogicalExpr) {
        LogicalExpr::Literal(ScalarValue::Int8(Some(*self)))
    }
}

impl LiteralExt for i16 {
    open spec fn lit_spec(&self) -> LogicalExpr {
        LogicalExpr::Literal(ScalarValue::Int16(Some(*self)))
    }

    fn lit(&self) -> (r: LogicalExpr) {
        LogicalExpr::Literal(ScalarValue::Int16(Some(*self)))
    }
}

impl LiteralExt for i32 {
    open spec fn lit_spec(&self) -> LogicalExpr {
        LogicalExpr::Literal(ScalarValue::Int32(Some(*self)))
    }

    fn lit(&self) -> (r: LogicalExpr) {
        LogicalExpr::Literal(ScalarValue::Int32(Some(*self)))
    }
}

impl LiteralExt for i64 {
    open spec fn lit_spec(&self) -> LogicalExpr {
        LogicalExpr::Literal(ScalarValue::Int64(Some(*self)))
    }

    fn lit(&self) -> (r: LogicalExpr) {
        LogicalExpr::Literal(ScalarValue::Int64(Some(*self)))
    }
}

impl LiteralExt for u8 {
    open spec fn lit_spec(&self) -> LogicalExpr {
        LogicalExpr::Literal(ScalarValue::Uint8(Some(*self)))
    }

    fn lit(&self) -> (r: LogicalExpr) {
        LogicalExpr::Literal(ScalarValue::Uint8(Some(*self)))
    }
}

impl LiteralExt for u16 {
    open spec fn lit_spec(&self) -> LogicalExpr {
        LogicalExpr::Literal(ScalarValue::Uint16(Some(*self)))
    }

    fn lit(&self) -> (r: LogicalExpr) {
        LogicalExpr::Literal(ScalarValue::Uint16(Some(*self)))
    }
}

impl LiteralExt for u32 {
    open spec fn lit_spec(&self) -> LogicalExpr {
        LogicalExpr::Literal(ScalarValue::Uint32(Some(*self)))
    }

    fn lit(&self) -> (r: LogicalExpr) {
        LogicalExpr::Literal(ScalarValue::Uint32(Some(*self)))
    }
}

impl LiteralExt for u64 {
    open spec fn lit_spec(&self) -> LogicalExpr {
        LogicalExpr::Literal(ScalarValue::Uint64(Some(*self)))
    }

    fn lit(&self) -> (r: LogicalExpr) {
        LogicalExpr::Literal(ScalarValue::Uint64(Some(*self)))
    }
}

impl LiteralExt for bool {
    open spec fn lit_spec(&self) -> LogicalExpr {
        LogicalExpr::Literal(ScalarValue::Boolean(Some(*self)))
    }

    fn lit(&self) -> (r: LogicalExpr) {
        LogicalExpr::Literal(ScalarValue::Boolean(Some(*self)))
    }
}

impl LiteralExt for String {
    open spec fn lit_spec(&self) -> LogicalExpr {
        LogicalExpr::Literal(ScalarValue::Utf8(Some(*self)))
    }

    fn lit(&self) -> (r: LogicalExpr) {
        LogicalExpr::Literal(ScalarValue::Utf8(Some(self.clone())))
    }
}

/// A binary application of an operator to two expressions.
pub fn binary_expr(lhs: LogicalExpr, op: Operator, rhs: LogicalExpr) -> (r: LogicalExpr)
    ensures
        r matches LogicalExpr::Binary(b) && *b.lhs == lhs && b.op == op && *b.rhs == rhs,
{
    LogicalExpr::Binary(BinaryExpr::new(Arc::new(lhs), op, Arc::new(rhs)))
}

impl LogicalExpr {
    /// `self = other`.
    pub fn eq(self, other: LogicalExpr) -> (r: LogicalExpr)
        ensures
            r matches LogicalExpr::Binary(b) && *b.lhs == self && b.op == Operator::Eq && *b.rhs
                == other,
    {
        binary_expr(self, Operator::Eq, other)
    }

    /// `self != other`.
    pub fn neq(self, other: LogicalExpr) -> (r: LogicalExpr)
        ensures
            r matches LogicalExpr::Binary(b) && *b.lhs == self && b.op == Operator::NotEq && *b.rhs
                == other,
    {
        binary_expr(self, Operator::NotEq, other)
    }

    /// `self < other`.
    pub fn lt(self, other: LogicalExpr) -> (r: LogicalExpr)
        ensures
            r matches LogicalExpr::Binary(b) && *b.lhs == self && b.op == Operator::Lt && *b.rhs
                == other,
    {
        binary_expr(self, Operator::Lt, other)
    }

    /// `self <= other`.
    pub fn lt_eq(self, other: LogicalExpr) -> (r: LogicalExpr)
        ensures
            r matches LogicalExpr::Binary(b) && *b.lhs == self && b.op == Operator::LtEq && *b.rhs
                == other,
    {
        binary_expr(self, Operator::LtEq, other)
    }

    /// `self > other`.
    pub fn gt(self, other: LogicalExpr) -> (r: LogicalExpr)
        ensures
            r matches LogicalExpr::Binary(b) && *b.lhs == self && b.op == Operator::Gt && *b.rhs
                == other,
    {
        binary_expr(self, Operator::Gt, other)
    }

    /// `self >= other`.
    pub fn gt_eq(self, other: LogicalExpr) -> (r: LogicalExpr)
        ensures
            r matches LogicalExpr::Binary(b) && *b.lhs == self && b.op == Operator::GtEq && *b.rhs
                == other,
    {
        binary_expr(self, Operator::GtEq, other)
    }

    /// `self AND other`.
    pub fn and(self, other: LogicalExpr) -> (r: LogicalExpr)
        ensures
            r matches LogicalExpr::Binary(b) && *b.lhs == self && b.op == Operator::And && *b.rhs
                == other,
    {
        binary_expr(self, Operator::And, other)
    }

    /// `self OR other`.
    pub fn or(self, other: LogicalExpr) -> (r: LogicalExpr)
        ensures
            r matches LogicalExpr::Binary(b) && *b.lhs == self && b.op == Operator::Or && *b.rhs
                == other,
    {
        binary_expr(self, Operator::Or, other)
    }

    /// `self + other`.
    pub fn add(self, other: LogicalExpr) -> (r: LogicalExpr)
        ensures
            r matches LogicalExpr::Binary(b) && *b.lhs == self && b.op == Operator::Plus && *b.rhs
                == other,
    {
        binary_expr(self, Operator::Plus, other)
    }

    /// `self - other`.
    pub fn minus(self, other: LogicalExpr) -> (r: LogicalExpr)
        ensures
            r matches LogicalExpr::Binary(b) && *b.lhs == self && b.op == Operator::Minus && *b.rhs
                == other,
    {
        binary_expr(self, Operator::Minus, other)
    }

    /// `self * other`.
    pub fn multiply(self, other: LogicalExpr) -> (r: LogicalExpr)
        ensures
            r matches LogicalExpr::Binary(b) && *b.lhs == self && b.op == Operator::Multiply
                && *b.rhs == other,
    {
        binary_expr(self, Operator::Multiply, other)
    }

    /// `self / other`.
    pub fn divide(self, other: LogicalExpr) -> (r: LogicalExpr)
        ensures
            r matches LogicalExpr::Binary(b) && *b.lhs == self && b.op == Operator::Divide
                && *b.rhs == other,
    {
        binary_expr(self, Operator::Divide, other)
    }
}

} // verus!
