use vstd::prelude::*;

use crate::datatypes::operator::Operator;
use crate::datatypes::values::{
    null_of, scalar_is_null, scalar_kind, DataType, ScalarModel, ScalarValue,
};
use crate::error::DBError;

verus! {

/// Whether an operator is a comparison.
pub open spec fn is_cmp(op: Operator) -> bool {
    ||| op is Eq
    ||| op is NotEq
    ||| op is Lt
    ||| op is LtEq
    ||| op is Gt
    ||| op is GtEq
}

/// Whether an operator is arithmetic.
pub open spec fn is_arith(op: Operator) -> bool {
    ||| op is Plus
    ||| op is Minus
    ||| op is Multiply
    ||| op is Divide
}

/// Whether an operator is a boolean connective.
pub open spec fn is_logic(op: Operator) -> bool {
    op is And || op is Or
}

/// Whether an element type is a signed integer.
pub open spec fn is_signed(k: DataType) -> bool {
    ||| k is Int8
    ||| k is Int16
    ||| k is Int32
    ||| k is Int64
}

/// Whether an element type is an unsigned integer.
pub open spec fn is_unsigned(k: DataType) -> bool {
    ||| k is UInt8
    ||| k is UInt16
    ||| k is UInt32
    ||| k is UInt64
}

/// Whether an element type is numeric.
pub open spec fn is_numeric(k: DataType) -> bool {
    is_signed(k) || is_unsigned(k)
}

/// The bit width of a numeric element type.
pub open spec fn width(k: DataType) -> nat {
    match k {
        DataType::Int8 => 8,
        DataType::Int16 => 16,
        DataType::Int32 => 32,
        DataType::Int64 => 64,
        DataType::UInt8 => 8,
        DataType::UInt16 => 16,
        DataType::UInt32 => 32,
        DataType::UInt64 => 64,
        _ => 0,
    }
}

/// The wider of two numeric element types of the same signedness.
pub open spec fn wider(k1: DataType, k2: DataType) -> DataType {
    if width(k1) >= width(k2) {
        k1
    } else {
        k2
    }
}

/// The result type of arithmetic, when the operands admit it: integers of one
/// signedness widen to the larger width; an untyped null adopts the other
/// operand's type. Mixed signedness or non-numeric operands do not combine.
pub open spec fn arith_kind(k1: DataType, k2: DataType) -> Option<DataType> {
    if k1 is Null && k2 is Null {
        Some(DataType::Null)
    } else if k1 is Null && is_numeric(k2) {
        Some(k2)
    } else if k2 is Null && is_numeric(k1) {
        Some(k1)
    } else if is_signed(k1) && is_signed(k2) {
        Some(wider(k1, k2))
    } else if is_unsigned(k1) && is_unsigned(k2) {
        Some(wider(k1, k2))
    } else {
        None
    }
}

/// Whether two element types are comparable under an operator: integers of
/// one signedness under every comparison; booleans and text under equality
/// and inequality; an untyped null compares with anything (the result is a
/// null boolean).
pub open spec fn cmp_ok(op: Operator, k1: DataType, k2: DataType) -> bool {
    ||| k1 is Null
    ||| k2 is Null
    ||| (is_signed(k1) && is_signed(k2))
    ||| (is_unsigned(k1) && is_unsigned(k2))
    ||| (k1 is Boolean && k2 is Boolean && (op is Eq || op is NotEq))
    ||| (k1 is Utf8 && k2 is Utf8 && (op is Eq || op is NotEq))
}

/// Whether two element types admit a boolean connective.
pub open spec fn logic_ok(k1: DataType, k2: DataType) -> bool {
    (k1 is Boolean || k1 is Null) && (k2 is Boolean || k2 is Null)
}

/// The result type of an operator on two operand types, or `None` when the
/// types do not combine: comparisons and connectives yield boolean,
/// arithmetic yields the widened numeric type.
pub open spec fn combine_kind(op: Operator, k1: DataType, k2: DataType) -> Option<DataType> {
    if is_logic(op) {
        if logic_ok(k1, k2) {
            Some(DataType::Boolean)
        } else {
            None
        }
    } else if is_cmp(op) {
        if cmp_ok(op, k1, k2) {
            Some(DataType::Boolean)
        } else {
            None
        }
    } else {
        arith_kind(k1, k2)
    }
}

/// The signed payload of a scalar, widened to 64 bits (meaningful only for
/// non-null signed scalars).
pub open spec fn s_int64(v: ScalarModel) -> i64 {
    match v {
        ScalarModel::Int8(p) => match p {
            Some(x) => x as i64,
            None => 0,
        },
        ScalarModel::Int16(p) => match p {
            Some(x) => x as i64,
            None => 0,
        },
        ScalarModel::Int32(p) => match p {
            Some(x) => x as i64,
            None => 0,
        },
        ScalarModel::Int64(p) => match p {
            Some(x) => x,
            None => 0,
        },
        _ => 0,
    }
}

/// The unsigned payload of a scalar, widened to 64 bits (meaningful only for
/// non-null unsigned scalars).
pub open spec fn u_int64(v: ScalarModel) -> u64 {
    match v {
        ScalarModel::Uint8(p) => match p {
            Some(x) => x as u64,
            None => 0,
        },
        ScalarModel::Uint16(p) => match p {
            Some(x) => x as u64,
            None => 0,
        },
        ScalarModel::Uint32(p) => match p {
            Some(x) => x as u64,
            None => 0,
        },
        ScalarModel::Uint64(p) => match p {
            Some(x) => x,
            None => 0,
        },
        _ => 0,
    }
}

/// The boolean payload of a scalar: the payload of a boolean, `None` for the
/// untyped null.
pub open spec fn bool_payload(v: ScalarModel) -> Option<bool> {
    match v {
        ScalarModel::Boolean(p) => p,
        _ => None,
    }
}

/// The text payload of a scalar.
pub open spec fn text_payload(v: ScalarModel) -> Seq<char> {
    match v {
        ScalarModel::Utf8(p) => match p {
            Some(s) => s,
            None => Seq::empty(),
        },
        _ => Seq::empty(),
    }
}

/// Three-valued logic: `AND` and `OR` over optional booleans, where `None`
/// stands for the SQL null.
pub open spec fn bool3(op: Operator, pa: Option<bool>, pb: Option<bool>) -> Option<bool> {
    if op is And {
        if pa == Some(false) || pb == Some(false) {
            Some(false)
        } else if pa is Some && pb is Some {
            Some(true)
        } else {
            None
        }
    } else {
        if pa == Some(true) || pb == Some(true) {
            Some(true)
        } else if pa is Some && pb is Some {
            Some(false)
        } else {
            None
        }
    }
}

/// A comparison on integers.
pub open spec fn int_cmp(op: Operator, x: int, y: int) -> bool {
    match op {
        Operator::Eq => x == y,
        Operator::NotEq => x != y,
        Operator::Lt => x < y,
        Operator::LtEq => x <= y,
        Operator::Gt => x > y,
        Operator::GtEq => x >= y,
        _ => false,
    }
}

/// A comparison on two non-null scalars of comparable types.
pub open spec fn cmp_value(op: Operator, a: ScalarModel, b: ScalarModel) -> bool {
    let ka = scalar_kind(a);
    if is_signed(ka) {
        int_cmp(op, s_int64(a) as int, s_int64(b) as int)
    } else if is_unsigned(ka) {
        int_cmp(op, u_int64(a) as int, u_int64(b) as int)
    } else if ka is Boolean {
        if op is Eq {
            bool_payload(a) == bool_payload(b)
        } else {
            bool_payload(a) != bool_payload(b)
        }
    } else {
        if op is Eq {
            text_payload(a) == text_payload(b)
        } else {
            text_payload(a) != text_payload(b)
        }
    }
}

/// Truncated integer division (the rounding of the `/` operator of the
/// machine), written over mathematical integers; meaningful for `d != 0`.
pub open spec fn trunc_div_int(x: int, d: int) -> int {
    if x == 0 {
        0
    } else if x > 0 && d > 0 {
        x / d
    } else if x < 0 && d < 0 {
        (x * -1) / (d * -1)
    } else if x < 0 {
        ((x * -1) / d) * -1
    } else {
        (x / (d * -1)) * -1
    }
}

/// Signed arithmetic at a result type: wrapping addition, subtraction and
/// multiplication; truncated division, wrapping on overflow, `None` on a zero
/// divisor. The operands are the payloads widened to 64 bits.
pub open spec fn signed_arith(op: Operator, k: DataType, x: i64, y: i64) -> Option<ScalarModel> {
    match k {
        DataType::Int8 => {
            let a = x as i8;
            let b = y as i8;
            match op {
                Operator::Plus => Some(
                    ScalarModel::Int8(Some(vstd::wrapping::i8_specs::wrapping_add(a, b))),
                ),
                Operator::Minus => Some(
                    ScalarModel::Int8(Some(vstd::wrapping::i8_specs::wrapping_sub(a, b))),
                ),
                Operator::Multiply => Some(
                    ScalarModel::Int8(Some(vstd::wrapping::i8_specs::wrapping_mul(a, b))),
                ),
                _ => if b == 0 {
                    None
                } else {
                    let q = trunc_div_int(a as int, b as int);
                    Some(
                        ScalarModel::Int8(
                            Some(
                                if q > i8::MAX as int {
                                    i8::MIN
                                } else {
                                    q as i8
                                },
                            ),
                        ),
                    )
                },
            }
        },
        DataType::Int16 => {
            let a = x as i16;
            let b = y as i16;
            match op {
                Operator::Plus => Some(
                    ScalarModel::Int16(Some(vstd::wrapping::i16_specs::wrapping_add(a, b))),
                ),
                Operator::Minus => Some(
                    ScalarModel::Int16(Some(vstd::wrapping::i16_specs::wrapping_sub(a, b))),
                ),
                Operator::Multiply => Some(
                    ScalarModel::Int16(Some(vstd::wrapping::i16_specs::wrapping_mul(a, b))),
                ),
                _ => if b == 0 {
                    None
                } else {
                    let q = trunc_div_int(a as int, b as int);
                    Some(
                        ScalarModel::Int16(
                            Some(
                                if q > i16::MAX as int {
                                    i16::MIN
                                } else {
                                    q as i16
                                },
                            ),
                        ),
                    )
                },
            }
        },
        DataType::Int32 => {
            let a = x as i32;
            let b = y as i32;
            match op {
                Operator::Plus => Some(
                    ScalarModel::Int32(Some(vstd::wrapping::i32_specs::wrapping_add(a, b))),
                ),
                Operator::Minus => Some(
                    ScalarModel::Int32(Some(vstd::wrapping::i32_specs::wrapping_sub(a, b))),
                ),
                Operator::Multiply => Some(
                    ScalarModel::Int32(Some(vstd::wrapping::i32_specs::wrapping_mul(a, b))),
                ),
                _ => if b == 0 {
                    None
                } else {
                    let q = trunc_div_int(a as int, b as int);
                    Some(
                        ScalarModel::Int32(
                            Some(
                                if q > i32::MAX as int {
                                    i32::MIN
                                } else {
                                    q as i32
                                },
                            ),
                        ),
                    )
                },
            }
        },
        _ => {
            let a = x;
            let b = y;
            match op {
                Operator::Plus => Some(
                    ScalarModel::Int64(Some(vstd::wrapping::i64_specs::wrapping_add(a, b))),
                ),
                Operator::Minus => Some(
                    ScalarModel::Int64(Some(vstd::wrapping::i64_specs::wrapping_sub(a, b))),
                ),
                Operator::Multiply => Some(
                    ScalarModel::Int64(Some(vstd::wrapping::i64_specs::wrapping_mul(a, b))),
                ),
                _ => if b == 0 {
                    None
                } else {
                    let q = trunc_div_int(a as int, b as int);
                    Some(
                        ScalarModel::Int64(
                            Some(
                                if q > i64::MAX as int {
                                    i64::MIN
                                } else {
                                    q as i64
                                },
                            ),
                        ),
                    )
                },
            }
        },
    }
}

/// Unsigned arithmetic at a result type: wrapping addition, subtraction and
/// multiplication; truncated division, `None` on a zero divisor.
pub open spec fn unsigned_arith(op: Operator, k: DataType, x: u64, y: u64) -> Option<ScalarModel> {
    match k {
        DataType::UInt8 => {
            let a = x as u8;
            let b = y as u8;
            match op {
                Operator::Plus => Some(
                    ScalarModel::Uint8(Some(vstd::wrapping::u8_specs::wrapping_add(a, b))),
                ),
                Operator::Minus => Some(
                    ScalarModel::Uint8(Some(vstd::wrapping::u8_specs::wrapping_sub(a, b))),
                ),
                Operator::Multiply => Some(
                    ScalarModel::Uint8(Some(vstd::wrapping::u8_specs::wrapping_mul(a, b))),
                ),
                _ => if b == 0 {
                    None
                } else {
                    Some(ScalarModel::Uint8(Some((a / b) as u8)))
                },
            }
        },
        DataType::UInt16 => {
            let a = x as u16;
            let b = y as u16;
            match op {
                Operator::Plus => Some(
                    ScalarModel::Uint16(Some(vstd::wrapping::u16_specs::wrapping_add(a, b))),
                ),
                Operator::Minus => Some(
                    ScalarModel::Uint16(Some(vstd::wrapping::u16_specs::wrapping_sub(a, b))),
                ),
                Operator::Multiply => Some(
                    ScalarModel::Uint16(Some(vstd::wrapping::u16_specs::wrapping_mul(a, b))),
                ),
                _ => if b == 0 {
                    None
                } else {
                    Some(ScalarModel::Uint16(Some((a / b) as u16)))
                },
            }
        },
        DataType::UInt32 => {
            let a = x as u32;
            let b = y as u32;
            match op {
                Operator::Plus => Some(
                    ScalarModel::Uint32(Some(vstd::wrapping::u32_specs::wrapping_add(a, b))),
                ),
                Operator::Minus => Some(
                    ScalarModel::Uint32(Some(vstd::wrapping::u32_specs::wrapping_sub(a, b))),
                ),
                Operator::Multiply => Some(
                    ScalarModel::Uint32(Some(vstd::wrapping::u32_specs::wrapping_mul(a, b))),
                ),
                _ => if b == 0 {
                    None
                } else {
                    Some(ScalarModel::Uint32(Some((a / b) as u32)))
                },
            }
        },
        _ => {
            let a = x;
            let b = y;
            match op {
                Operator::Plus => Some(
                    ScalarModel::Uint64(Some(vstd::wrapping::u64_specs::wrapping_add(a, b))),
                ),
                Operator::Minus => Some(
                    ScalarModel::Uint64(Some(vstd::wrapping::u64_specs::wrapping_sub(a, b))),
                ),
                Operator::Multiply => Some(
                    ScalarModel::Uint64(Some(vstd::wrapping::u64_specs::wrapping_mul(a, b))),
                ),
                _ => if b == 0 {
                    None
                } else {
                    Some(ScalarModel::Uint64(Some((a / b) as u64)))
                },
            }
        },
    }
}

/// What applying an operator to two scalars yields.
pub enum OpOutcome {
    /// The operation succeeds with this value (possibly a typed null).
    Value(ScalarModel),
    /// The operand types do not combine under the operator.
    Mismatch,
    /// Integer division by zero.
    DivideByZero,
}

/// The complete semantics of one operator on two scalars: type combination,
/// null propagation, three-valued logic, comparison, and wrapping integer
/// arithmetic with explicit division by zero.
pub open spec fn scalar_op(op: Operator, a: ScalarModel, b: ScalarModel) -> OpOutcome {
    let ka = scalar_kind(a);
    let kb = scalar_kind(b);
    match combine_kind(op, ka, kb) {
        None => OpOutcome::Mismatch,
        Some(k) => {
            if is_logic(op) {
                OpOutcome::Value(ScalarModel::Boolean(bool3(op, bool_payload(a), bool_payload(b))))
            } else if is_cmp(op) {
                if scalar_is_null(a) || scalar_is_null(b) {
                    OpOutcome::Value(ScalarModel::Boolean(None))
                } else {
                    OpOutcome::Value(ScalarModel::Boolean(Some(cmp_value(op, a, b))))
                }
            } else {
                if scalar_is_null(a) || scalar_is_null(b) {
                    OpOutcome::Value(null_of(k))
                } else if is_signed(k) {
                    match signed_arith(op, k, s_int64(a), s_int64(b)) {
                        Some(v) => OpOutcome::Value(v),
                        None => OpOutcome::DivideByZero,
                    }
                } else {
                    match unsigned_arith(op, k, u_int64(a), u_int64(b)) {
                        Some(v) => OpOutcome::Value(v),
                        None => OpOutcome::DivideByZero,
                    }
                }
            }
        },
    }
}

/// Law of null propagation: for arithmetic and comparison operators on
/// combinable operand types, a null operand yields the null of the result
/// type — never an error.
pub proof fn lemma_null_propagation(op: Operator, a: ScalarModel, b: ScalarModel)
    requires
        is_arith(op) || is_cmp(op),
        combine_kind(op, scalar_kind(a), scalar_kind(b)) is Some,
        scalar_is_null(a) || scalar_is_null(b),
    ensures
        scalar_op(op, a, b) == OpOutcome::Value(
            null_of(combine_kind(op, scalar_kind(a), scalar_kind(b))->Some_0),
        ),
{
}

/// A successful operator application yields a value of exactly the combined
/// type; a type mismatch outcome coincides with the types not combining.
pub proof fn lemma_scalar_op_kind(op: Operator, a: ScalarModel, b: ScalarModel)
    ensures
        (scalar_op(op, a, b) is Mismatch) <==> (combine_kind(
            op,
            scalar_kind(a),
            scalar_kind(b),
        ) is None),
        scalar_op(op, a, b) matches OpOutcome::Value(v) ==> Some(scalar_kind(v)) == combine_kind(
            op,
            scalar_kind(a),
            scalar_kind(b),
        ),
{
}

/// The signed payload of a scalar, widened to 64 bits; `None` for a null or a
/// non-signed scalar.
fn signed_payload(v: &ScalarValue) -> (r: Option<i64>)
    ensures
        r matches Some(x) ==> is_signed(scalar_kind(v@)) && !scalar_is_null(v@) && x == s_int64(v@),
        r is None ==> !is_signed(scalar_kind(v@)) || scalar_is_null(v@),
{
    match v {
        ScalarValue::Int8(p) => match p {
            Some(x) => Some(*x as i64),
            None => None,
        },
        ScalarValue::Int16(p) => match p {
            Some(x) => Some(*x as i64),
            None => None,
        },
        ScalarValue::Int32(p) => match p {
            Some(x) => Some(*x as i64),
            None => None,
        },
        ScalarValue::Int64(p) => match p {
            Some(x) => Some(*x),
            None => None,
        },
        _ => None,
    }
}

/// The unsigned payload of a scalar, widened to 64 bits; `None` for a null or
/// a non-unsigned scalar.
fn unsigned_payload(v: &ScalarValue) -> (r: Option<u64>)
    ensures
        r matches Some(x) ==> is_unsigned(scalar_kind(v@)) && !scalar_is_null(v@) && x == u_int64(
            v@,
        ),
        r is None ==> !is_unsigned(scalar_kind(v@)) || scalar_is_null(v@),
{
    match v {
        ScalarValue::Uint8(p) => match p {
            Some(x) => Some(*x as u64),
            None => None,
        },
        ScalarValue::Uint16(p) => match p {
            Some(x) => Some(*x as u64),
            None => None,
        },
        ScalarValue::Uint32(p) => match p {
            Some(x) => Some(*x as u64),
            None => None,
        },
        ScalarValue::Uint64(p) => match p {
            Some(x) => Some(*x),
            None => None,
        },
        _ => None,
    }
}

/// The typed null of a given element type, as a value.
pub fn null_scalar(k: DataType) -> (r: ScalarValue)
    ensures
        r@ == null_of(k),
{
    match k {
        DataType::Null => ScalarValue::Null,
        DataType::Boolean => ScalarValue::Boolean(None),
        DataType::Int8 => ScalarValue::Int8(None),
        DataType::Int16 => ScalarValue::Int16(None),
        DataType::Int32 => ScalarValue::Int32(None),
        DataType::Int64 => ScalarValue::Int64(None),
        DataType::UInt8 => ScalarValue::Uint8(None),
        DataType::UInt16 => ScalarValue::Uint16(None),
        DataType::UInt32 => ScalarValue::Uint32(None),
        DataType::UInt64 => ScalarValue::Uint64(None),
        DataType::Utf8 => ScalarValue::Utf8(None),
    }
}

/// The result type of an operator on two operand types, mirroring
/// [`combine_kind`].
pub fn combined_type(op: &Operator, k1: DataType, k2: DataType) -> (r: Option<DataType>)
    ensures
        r == combine_kind(*op, k1, k2),
{
    match op {
        Operator::And | Operator::Or => {
            let b1 = k1 == DataType::Boolean || k1 == DataType::Null;
            let b2 = k2 == DataType::Boolean || k2 == DataType::Null;
            if b1 && b2 {
                Some(DataType::Boolean)
            } else {
                None
            }
        },
        Operator::Plus | Operator::Minus | Operator::Multiply | Operator::Divide => arith_type(
            k1,
            k2,
        ),
        _ => {
            if comparable_types(op, k1, k2) {
                Some(DataType::Boolean)
            } else {
                None
            }
        },
    }
}

/// Whether an element type is a signed integer.
fn signed_type(k: DataType) -> (r: bool)
    ensures
        r == is_signed(k),
{
    k == DataType::Int8 || k == DataType::Int16 || k == DataType::Int32 || k == DataType::Int64
}

/// Whether an element type is an unsigned integer.
fn unsigned_type(k: DataType) -> (r: bool)
    ensures
        r == is_unsigned(k),
{
    k == DataType::UInt8 || k == DataType::UInt16 || k == DataType::UInt32 || k == DataType::UInt64
}

/// The bit width of a numeric element type.
fn type_width(k: DataType) -> (r: u32)
    ensures
        r as nat == width(k),
{
    match k {
        DataType::Int8 => 8,
        DataType::Int16 => 16,
        DataType::Int32 => 32,
        DataType::Int64 => 64,
        DataType::UInt8 => 8,
        DataType::UInt16 => 16,
        DataType::UInt32 => 32,
        DataType::UInt64 => 64,
        _ => 0,
    }
}

/// The result type of arithmetic, mirroring [`arith_kind`].
fn arith_type(k1: DataType, k2: DataType) -> (r: Option<DataType>)
    ensures
        r == arith_kind(k1, k2),
{
    if k1 == DataType::Null && k2 == DataType::Null {
        Some(DataType::Null)
    } else if k1 == DataType::Null && (signed_type(k2) || unsigned_type(k2)) {
        Some(k2)
    } else if k2 == DataType::Null && (signed_type(k1) || unsigned_type(k1)) {
        Some(k1)
    } else if (signed_type(k1) && signed_type(k2)) || (unsigned_type(k1) && unsigned_type(k2)) {
        if type_width(k1) >= type_width(k2) {
            Some(k1)
        } else {
            Some(k2)
        }
    } else {
        None
    }
}

/// Whether two element types are comparable under an operator, mirroring
/// [`cmp_ok`].
fn comparable_types(op: &Operator, k1: DataType, k2: DataType) -> (r: bool)
    ensures
        r == cmp_ok(*op, k1, k2),
{
    let eqish = matches!(op, Operator::Eq | Operator::NotEq);
    k1 == DataType::Null || k2 == DataType::Null || (signed_type(k1) && signed_type(k2)) || (
    unsigned_type(k1) && unsigned_type(k2)) || (k1 == DataType::Boolean && k2 == DataType::Boolean
        && eqish) || (k1 == DataType::Utf8 && k2 == DataType::Utf8 && eqish)
}

/// The context text of an operator applied to operand types that do not
/// combine.
fn op_mismatch_text() -> String {
    String::from_str("operator applied to incompatible operand types")
}

/// Applies one operator to two scalars: the complete semantics of
/// [`scalar_op`], surfacing a type mismatch or a division by zero as the
/// corresponding error.
pub fn eval_op(op: &Operator, a: &ScalarValue, b: &ScalarValue) -> (r: Result<ScalarValue, DBError>)
    ensures
        match scalar_op(*op, a@, b@) {
            OpOutcome::Value(v) => r matches Ok(x) && x@ == v,
            OpOutcome::Mismatch => r matches Err(e) && e is TypeMismatch,
            OpOutcome::DivideByZero => r == Err::<ScalarValue, DBError>(DBError::DivideByZero),
        },
{
    let ka = a.data_type();
    let kb = b.data_type();
    let combined = combined_type(op, ka, kb);
    let k = match combined {
        Some(k) => k,
        None => {
            return Err(DBError::TypeMismatch(op_mismatch_text()));
        },
    };
    match op {
        Operator::And | Operator::Or => {
            let pa = match a {
                ScalarValue::Boolean(p) => *p,
                _ => None,
            };
            let pb = match b {
                ScalarValue::Boolean(p) => *p,
                _ => None,
            };
            let and = matches!(op, Operator::And);
            let res: Option<bool> = if and {
                if pa == Some(false) || pb == Some(false) {
                    Some(false)
                } else if pa.is_some() && pb.is_some() {
                    Some(true)
                } else {
                    None
                }
            } else {
                if pa == Some(true) || pb == Some(true) {
                    Some(true)
                } else if pa.is_some() && pb.is_some() {
                    Some(false)
                } else {
                    None
                }
            };
            Ok(ScalarValue::Boolean(res))
        },
        Operator::Plus | Operator::Minus | Operator::Multiply | Operator::Divide => {
            if a.is_null() || b.is_null() {
                return Ok(null_scalar(k));
            }
            if signed_type(k) {
                let x = signed_payload(a).unwrap();
                let y = signed_payload(b).unwrap();
                eval_signed_arith(op, k, x, y)
            } else {
                let x = unsigned_payload(a).unwrap();
                let y = unsigned_payload(b).unwrap();
                eval_unsigned_arith(op, k, x, y)
            }
        },
        _ => {
            if a.is_null() || b.is_null() {
                return Ok(ScalarValue::Boolean(None));
            }
            if signed_type(ka) {
                let x = signed_payload(a).unwrap();
                let y = signed_payload(b).unwrap();
                Ok(ScalarValue::Boolean(Some(int_compare(op, x, y))))
            } else if unsigned_type(ka) {
                let x = unsigned_payload(a).unwrap();
                let y = unsigned_payload(b).unwrap();
                Ok(ScalarValue::Boolean(Some(uint_compare(op, x, y))))
            } else if ka == DataType::Boolean {
                let pa = match a {
                    ScalarValue::Boolean(p) => *p,
                    _ => None,
                };
                let pb = match b {
                    ScalarValue::Boolean(p) => *p,
                    _ => None,
                };
                let same = pa == pb;
                let r = if matches!(op, Operator::Eq) {
                    same
                } else {
                    !same
                };
                Ok(ScalarValue::Boolean(Some(r)))
            } else {
                let sa = match a {
                    ScalarValue::Utf8(p) => match p {
                        Some(s) => s.clone(),
                        None => String::new(),
                    },
                    _ => String::new(),
                };
                let sb = match b {
                    ScalarValue::Utf8(p) => match p {
                        Some(s) => s.clone(),
                        None => String::new(),
                    },
                    _ => String::new(),
                };
                let same = sa == sb;
                proof {
                    assert(same == (text_payload(a@) == text_payload(b@)));
                }
                let r = if matches!(op, Operator::Eq) {
                    same
                } else {
                    !same
                };
                Ok(ScalarValue::Boolean(Some(r)))
            }
        },
    }
}

/// A comparison on signed payloads, mirroring [`int_cmp`].
fn int_compare(op: &Operator, x: i64, y: i64) -> (r: bool)
    ensures
        r == int_cmp(*op, x as int, y as int),
{
    match op {
        Operator::Eq => x == y,
        Operator::NotEq => x != y,
        Operator::Lt => x < y,
        Operator::LtEq => x <= y,
        Operator::Gt => x > y,
        Operator::GtEq => x >= y,
        _ => false,
    }
}

/// A comparison on unsigned payloads, mirroring [`int_cmp`].
fn uint_compare(op: &Operator, x: u64, y: u64) -> (r: bool)
    ensures
        r == int_cmp(*op, x as int, y as int),
{
    match op {
        Operator::Eq => x == y,
        Operator::NotEq => x != y,
        Operator::Lt => x < y,
        Operator::LtEq => x <= y,
        Operator::Gt => x > y,
        Operator::GtEq => x >= y,
        _ => false,
    }
}

/// Signed arithmetic at the result type, mirroring [`signed_arith`].
fn eval_signed_arith(op: &Operator, k: DataType, x: i64, y: i64) -> (r: Result<
    ScalarValue,
    DBError,
>)
    requires
        is_arith(*op),
        is_signed(k),
        k == DataType::Int8 ==> i8::MIN <= x <= i8::MAX && i8::MIN <= y <= i8::MAX,
        k == DataType::Int16 ==> i16::MIN <= x <= i16::MAX && i16::MIN <= y <= i16::MAX,
        k == DataType::Int32 ==> i32::MIN <= x <= i32::MAX && i32::MIN <= y <= i32::MAX,
    ensures
        match signed_arith(*op, k, x, y) {
            Some(v) => r matches Ok(s) && s@ == v,
            None => r == Err::<ScalarValue, DBError>(DBError::DivideByZero),
        },
{
    match k {
        DataType::Int8 => {
            let a = x as i8;
            let b = y as i8;
            match op {
                Operator::Plus => Ok(ScalarValue::Int8(Some(a.wrapping_add(b)))),
                Operator::Minus => Ok(ScalarValue::Int8(Some(a.wrapping_sub(b)))),
                Operator::Multiply => Ok(ScalarValue::Int8(Some(a.wrapping_mul(b)))),
                _ => {
                    if b == 0 {
                        Err(DBError::DivideByZero)
                    } else {
                        match a.checked_div(b) {
                            Some(q) => Ok(ScalarValue::Int8(Some(q))),
                            None => Ok(ScalarValue::Int8(Some(i8::MIN))),
                        }
                    }
                },
            }
        },
        DataType::Int16 => {
            let a = x as i16;
            let b = y as i16;
            match op {
                Operator::Plus => Ok(ScalarValue::Int16(Some(a.wrapping_add(b)))),
                Operator::Minus => Ok(ScalarValue::Int16(Some(a.wrapping_sub(b)))),
                Operator::Multiply => Ok(ScalarValue::Int16(Some(a.wrapping_mul(b)))),
                _ => {
                    if b == 0 {
                        Err(DBError::DivideByZero)
                    } else {
                        match a.checked_div(b) {
                            Some(q) => Ok(ScalarValue::Int16(Some(q))),
                            None => Ok(ScalarValue::Int16(Some(i16::MIN))),
                        }
                    }
                },
            }
        },
        DataType::Int32 => {
            let a = x as i32;
            let b = y as i32;
            match op {
                Operator::Plus => Ok(ScalarValue::Int32(Some(a.wrapping_add(b)))),
                Operator::Minus => Ok(ScalarValue::Int32(Some(a.wrapping_sub(b)))),
                Operator::Multiply => Ok(ScalarValue::Int32(Some(a.wrapping_mul(b)))),
                _ => {
                    if b == 0 {
                        Err(DBError::DivideByZero)
                    } else {
                        match a.checked_div(b) {
                            Some(q) => Ok(ScalarValue::Int32(Some(q))),
                            None => Ok(ScalarValue::Int32(Some(i32::MIN))),
                        }
                    }
                },
            }
        },
        _ => {
            let a = x;
            let b = y;
            match op {
                Operator::Plus => Ok(ScalarValue::Int64(Some(a.wrapping_add(b)))),
                Operator::Minus => Ok(ScalarValue::Int64(Some(a.wrapping_sub(b)))),
                Operator::Multiply => Ok(ScalarValue::Int64(Some(a.wrapping_mul(b)))),
                _ => {
                    if b == 0 {
                        Err(DBError::DivideByZero)
                    } else {
                        match a.checked_div(b) {
                            Some(q) => Ok(ScalarValue::Int64(Some(q))),
                            None => Ok(ScalarValue::Int64(Some(i64::MIN))),
                        }
                    }
                },
            }
        },
    }
}

/// Unsigned arithmetic at the result type, mirroring [`unsigned_arith`].
fn eval_unsigned_arith(op: &Operator, k: DataType, x: u64, y: u64) -> (r: Result<
    ScalarValue,
    DBError,
>)
    requires
        is_arith(*op),
        is_unsigned(k),
        k == DataType::UInt8 ==> x <= u8::MAX && y <= u8::MAX,
        k == DataType::UInt16 ==> x <= u16::MAX && y <= u16::MAX,
        k == DataType::UInt32 ==> x <= u32::MAX && y <= u32::MAX,
    ensures
        match unsigned_arith(*op, k, x, y) {
            Some(v) => r matches Ok(s) && s@ == v,
            None => r == Err::<ScalarValue, DBError>(DBError::DivideByZero),
        },
{
    match k {
        DataType::UInt8 => {
            let a = x as u8;
            let b = y as u8;
            match op {
                Operator::Plus => Ok(ScalarValue::Uint8(Some(a.wrapping_add(b)))),
                Operator::Minus => Ok(ScalarValue::Uint8(Some(a.wrapping_sub(b)))),
                Operator::Multiply => Ok(ScalarValue::Uint8(Some(a.wrapping_mul(b)))),
                _ => {
                    if b == 0 {
                        Err(DBError::DivideByZero)
                    } else {
                        Ok(ScalarValue::Uint8(Some(a / b)))
                    }
                },
            }
        },
        DataType::UInt16 => {
            let a = x as u16;
            let b = y as u16;
            match op {
                Operator::Plus => Ok(ScalarValue::Uint16(Some(a.wrapping_add(b)))),
                Operator::Minus => Ok(ScalarValue::Uint16(Some(a.wrapping_sub(b)))),
                Operator::Multiply => Ok(ScalarValue::Uint16(Some(a.wrapping_mul(b)))),
                _ => {
                    if b == 0 {
                        Err(DBError::DivideByZero)
                    } else {
                        Ok(ScalarValue::Uint16(Some(a / b)))
                    }
                },
            }
        },
        DataType::UInt32 => {
            let a = x as u32;
            let b = y as u32;
            match op {
                Operator::Plus => Ok(ScalarValue::Uint32(Some(a.wrapping_add(b)))),
                Operator::Minus => Ok(ScalarValue::Uint32(Some(a.wrapping_sub(b)))),
                Operator::Multiply => Ok(ScalarValue::Uint32(Some(a.wrapping_mul(b)))),
                _ => {
                    if b == 0 {
                        Err(DBError::DivideByZero)
                    } else {
                        Ok(ScalarValue::Uint32(Some(a / b)))
                    }
                },
            }
        },
        _ => {
            let a = x;
            let b = y;
            match op {
                Operator::Plus => Ok(ScalarValue::Uint64(Some(a.wrapping_add(b)))),
                Operator::Minus => Ok(ScalarValue::Uint64(Some(a.wrapping_sub(b)))),
                Operator::Multiply => Ok(ScalarValue::Uint64(Some(a.wrapping_mul(b)))),
                _ => {
                    if b == 0 {
                        Err(DBError::DivideByZero)
                    } else {
                        Ok(ScalarValue::Uint64(Some(a / b)))
                    }
                },
            }
        },
    }
}

} // verus!
