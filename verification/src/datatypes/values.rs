use vstd::prelude::*;

use crate::datatypes::text::{dec_int, dec_nat, false_text, null_text, true_text};
use crate::datatypes::text::{fmt_i64, fmt_u64};

verus! {

/// The concrete element type of a scalar, an array or a schema field.
#[derive(Debug, Clone, Copy, PartialEq, Eq, Structural)]
pub enum DataType {
    Null,
    Boolean,
    Int8,
    Int16,
    Int32,
    Int64,
    UInt8,
    UInt16,
    UInt32,
    UInt64,
    Utf8,
}

/// A single value of the engine: a tagged union over the primitive kinds.
///
/// Each non-null variant wraps an optional payload; an absent payload is the
/// SQL-style null of that type, while the `Null` variant is the untyped null.
#[derive(Debug, PartialEq, Eq)]
pub enum ScalarValue {
    Null,
    Boolean(Option<bool>),
    Int8(Option<i8>),
    Int16(Option<i16>),
    Int32(Option<i32>),
    Int64(Option<i64>),
    Uint8(Option<u8>),
    Uint16(Option<u16>),
    Uint32(Option<u32>),
    Uint64(Option<u64>),
    Utf8(Option<String>),
}

/// The mathematical model of a [`ScalarValue`]: the same tagged union with
/// text as a sequence of characters.
#[verifier::ext_equal]
pub enum ScalarModel {
    Null,
    Boolean(Option<bool>),
    Int8(Option<i8>),
    Int16(Option<i16>),
    Int32(Option<i32>),
    Int64(Option<i64>),
    Uint8(Option<u8>),
    Uint16(Option<u16>),
    Uint32(Option<u32>),
    Uint64(Option<u64>),
    Utf8(Option<Seq<char>>),
}

impl View for ScalarValue {
    type V = ScalarModel;

    open spec fn view(&self) -> ScalarModel {
        match self {
            ScalarValue::Null => ScalarModel::Null,
            ScalarValue::Boolean(v) => ScalarModel::Boolean(*v),
            ScalarValue::Int8(v) => ScalarModel::Int8(*v),
            ScalarValue::Int16(v) => ScalarModel::Int16(*v),
            ScalarValue::Int32(v) => ScalarModel::Int32(*v),
            ScalarValue::Int64(v) => ScalarModel::Int64(*v),
            ScalarValue::Uint8(v) => ScalarModel::Uint8(*v),
            ScalarValue::Uint16(v) => ScalarModel::Uint16(*v),
            ScalarValue::Uint32(v) => ScalarModel::Uint32(*v),
            ScalarValue::Uint64(v) => ScalarModel::Uint64(*v),
            ScalarValue::Utf8(v) => ScalarModel::Utf8(
                match v {
                    Some(s) => Some(s@),
                    None => None,
                },
            ),
        }
    }
}

/// The element type a scalar model maps to.
pub open spec fn scalar_kind(v: ScalarModel) -> DataType {
    match v {
        ScalarModel::Null => DataType::Null,
        ScalarModel::Boolean(_) => DataType::Boolean,
        ScalarModel::Int8(_) => DataType::Int8,
        ScalarModel::Int16(_) => DataType::Int16,
        ScalarModel::Int32(_) => DataType::Int32,
        ScalarModel::Int64(_) => DataType::Int64,
        ScalarModel::Uint8(_) => DataType::UInt8,
        ScalarModel::Uint16(_) => DataType::UInt16,
        ScalarModel::Uint32(_) => DataType::UInt32,
        ScalarModel::Uint64(_) => DataType::UInt64,
        ScalarModel::Utf8(_) => DataType::Utf8,
    }
}

/// Whether a scalar model is a null: either the untyped null or a typed
/// variant with an absent payload.
pub open spec fn scalar_is_null(v: ScalarModel) -> bool {
    match v {
        ScalarModel::Null => true,
        ScalarModel::Boolean(p) => p is None,
        ScalarModel::Int8(p) => p is None,
        ScalarModel::Int16(p) => p is None,
        ScalarModel::Int32(p) => p is None,
        ScalarModel::Int64(p) => p is None,
        ScalarModel::Uint8(p) => p is None,
        ScalarModel::Uint16(p) => p is None,
        ScalarModel::Uint32(p) => p is None,
        ScalarModel::Uint64(p) => p is None,
        ScalarModel::Utf8(p) => p is None,
    }
}

/// The typed null of a given element type.
pub open spec fn null_of(k: DataType) -> ScalarModel {
    match k {
        DataType::Null => ScalarModel::Null,
        DataType::Boolean => ScalarModel::Boolean(None),
        DataType::Int8 => ScalarModel::Int8(None),
        DataType::Int16 => ScalarModel::Int16(None),
        DataType::Int32 => ScalarModel::Int32(None),
        DataType::Int64 => ScalarModel::Int64(None),
        DataType::UInt8 => ScalarModel::Uint8(None),
        DataType::UInt16 => ScalarModel::Uint16(None),
        DataType::UInt32 => ScalarModel::Uint32(None),
        DataType::UInt64 => ScalarModel::Uint64(None),
        DataType::Utf8 => ScalarModel::Utf8(None),
    }
}

/// The canonical text of a scalar: its payload in conventional notation, or
/// `NULL` when the payload is absent.
pub open spec fn scalar_text(v: ScalarModel) -> Seq<char> {
    match v {
        ScalarModel::Null => null_text(),
        ScalarModel::Boolean(p) => match p {
            Some(b) => if b {
                true_text()
            } else {
                false_text()
            },
            None => null_text(),
        },
        ScalarModel::Int8(p) => match p {
            Some(x) => dec_int(x as int),
            None => null_text(),
        },
        ScalarModel::Int16(p) => match p {
            Some(x) => dec_int(x as int),
            None => null_text(),
        },
        ScalarModel::Int32(p) => match p {
            Some(x) => dec_int(x as int),
            None => null_text(),
        },
        ScalarModel::Int64(p) => match p {
            Some(x) => dec_int(x as int),
            None => null_text(),
        },
        ScalarModel::Uint8(p) => match p {
            Some(x) => dec_nat(x as nat),
            None => null_text(),
        },
        ScalarModel::Uint16(p) => match p {
            Some(x) => dec_nat(x as nat),
            None => null_text(),
        },
        ScalarModel::Uint32(p) => match p {
            Some(x) => dec_nat(x as nat),
            None => null_text(),
        },
        ScalarModel::Uint64(p) => match p {
            Some(x) => dec_nat(x as nat),
            None => null_text(),
        },
        ScalarModel::Utf8(p) => match p {
            Some(s) => s,
            None => null_text(),
        },
    }
}

impl Clone for ScalarValue {
    fn clone(&self) -> (res: Self)
        ensures
            res == *self,
    {
        match self {
            ScalarValue::Null => ScalarValue::Null,
            ScalarValue::Boolean(v) => ScalarValue::Boolean(*v),
            ScalarValue::Int8(v) => ScalarValue::Int8(*v),
            ScalarValue::Int16(v) => ScalarValue::Int16(*v),
            ScalarValue::Int32(v) => ScalarValue::Int32(*v),
            ScalarValue::Int64(v) => ScalarValue::Int64(*v),
            ScalarValue::Uint8(v) => ScalarValue::Uint8(*v),
            ScalarValue::Uint16(v) => ScalarValue::Uint16(*v),
            ScalarValue::Uint32(v) => ScalarValue::Uint32(*v),
            ScalarValue::Uint64(v) => ScalarValue::Uint64(*v),
            ScalarValue::Utf8(v) => ScalarValue::Utf8(
                match v {
                    Some(s) => Some(s.clone()),
                    None => None,
                },
            ),
        }
    }
}

impl ScalarValue {
    /// The concrete element type this scalar maps to.
    pub fn data_type(&self) -> (r: DataType)
        ensures
            r == scalar_kind(self@),
    {
        match self {
            ScalarValue::Null => DataType::Null,
            ScalarValue::Boolean(_) => DataType::Boolean,
            ScalarValue::Int8(_) => DataType::Int8,
            ScalarValue::Int16(_) => DataType::Int16,
            ScalarValue::Int32(_) => DataType::Int32,
            ScalarValue::Int64(_) => DataType::Int64,
            ScalarValue::Uint8(_) => DataType::UInt8,
            ScalarValue::Uint16(_) => DataType::UInt16,
            ScalarValue::Uint32(_) => DataType::UInt32,
            ScalarValue::Uint64(_) => DataType::UInt64,
            ScalarValue::Utf8(_) => DataType::Utf8,
        }
    }

    /// Whether this scalar is a null (untyped, or typed with absent payload).
    pub fn is_null(&self) -> (r: bool)
        ensures
            r == scalar_is_null(self@),
    {
        match self {
            ScalarValue::Null => true,
            ScalarValue::Boolean(p) => p.is_none(),
            ScalarValue::Int8(p) => p.is_none(),
            ScalarValue::Int16(p) => p.is_none(),
            ScalarValue::Int32(p) => p.is_none(),
            ScalarValue::Int64(p) => p.is_none(),
            ScalarValue::Uint8(p) => p.is_none(),
            ScalarValue::Uint16(p) => p.is_none(),
            ScalarValue::Uint32(p) => p.is_none(),
            ScalarValue::Uint64(p) => p.is_none(),
            ScalarValue::Utf8(p) => p.is_none(),
        }
    }

    /// Renders the scalar as text: its payload in the conventional notation,
    /// or `NULL` when the payload is absent.
    pub fn value_text(&self) -> (r: String)
        ensures
            r@ == scalar_text(self@),
    {
        match self {
            ScalarValue::Null => null_string(),
            ScalarValue::Boolean(p) => match p {
                Some(true) => {
                    let s = String::from_str("true");
                    proof {
                        reveal_strlit("true");
                        assert(s@ =~= true_text());
                    }
                    s
                },
                Some(false) => {
                    let s = String::from_str("false");
                    proof {
                        reveal_strlit("false");
                        assert(s@ =~= false_text());
                    }
                    s
                },
                None => null_string(),
            },
            ScalarValue::Int8(p) => match p {
                Some(v) => fmt_i64(*v as i64),
                None => null_string(),
            },
            ScalarValue::Int16(p) => match p {
                Some(v) => fmt_i64(*v as i64),
                None => null_string(),
            },
            ScalarValue::Int32(p) => match p {
                Some(v) => fmt_i64(*v as i64),
                None => null_string(),
            },
            ScalarValue::Int64(p) => match p {
                Some(v) => fmt_i64(*v),
                None => null_string(),
            },
            ScalarValue::Uint8(p) => match p {
                Some(v) => fmt_u64(*v as u64),
                None => null_string(),
            },
            ScalarValue::Uint16(p) => match p {
                Some(v) => fmt_u64(*v as u64),
                None => null_string(),
            },
            ScalarValue::Uint32(p) => match p {
                Some(v) => fmt_u64(*v as u64),
                None => null_string(),
            },
            ScalarValue::Uint64(p) => match p {
                Some(v) => fmt_u64(*v),
                None => null_string(),
            },
            ScalarValue::Utf8(p) => match p {
                Some(s) => s.clone(),
                None => null_string(),
            },
        }
    }
}

/// The string `NULL`.
fn null_string() -> (r: String)
    ensures
        r@ == null_text(),
{
    let s = String::from_str("NULL");
    proof {
        reveal_strlit("NULL");
        assert(s@ =~= null_text());
    }
    s
}

} // verus!
