//! The value model: physical types, columns, scalars, columnar values and
//! record batches, together with the mathematical view of each.
//!
//! A column holds its rows as `Option` elements: `None` is a row masked out
//! by the column's validity, `Some` a valid row. Values of physical type
//! `Float64` are floating point and live outside this library; the tag stands
//! in [`PhysicalType`] so that the closed set of physical types is complete.

use vstd::prelude::*;

use crate::error::{Error, ErrorModel};

verus! {

/// The closed set of physical representations a value can have.
///
/// `Null` is the type of the untyped null scalar (the initial state of an
/// accumulator); it is outside the four supported representations.
#[derive(Clone, Copy, PartialEq, Eq, Structural, Debug)]
pub enum PhysicalType {
    Boolean,
    Int32,
    Float64,
    Utf8,
    Null,
}

/// The mathematical value of a [`ScalarValue`].
pub enum ScalarModel {
    Null,
    Boolean(Option<bool>),
    Int32(Option<i32>),
    Utf8(Option<Seq<char>>),
}

/// The mathematical value of an [`ArrayValue`]: the sequence of rows, a
/// masked-out row being `None`.
pub enum ArrayModel {
    Int32(Seq<Option<i32>>),
    Utf8(Seq<Option<Seq<char>>>),
    Boolean(Seq<Option<bool>>),
}

/// The mathematical value of a [`ColumnarValue`].
pub enum ValueModel {
    Array(ArrayModel),
    Scalar(ScalarModel),
}

impl ScalarModel {
    /// The physical type this scalar carries.
    pub open spec fn physical_type(self) -> PhysicalType {
        match self {
            ScalarModel::Null => PhysicalType::Null,
            ScalarModel::Boolean(_) => PhysicalType::Boolean,
            ScalarModel::Int32(_) => PhysicalType::Int32,
            ScalarModel::Utf8(_) => PhysicalType::Utf8,
        }
    }
}

impl ArrayModel {
    /// The number of rows.
    pub open spec fn len(self) -> nat {
        match self {
            ArrayModel::Int32(s) => s.len(),
            ArrayModel::Utf8(s) => s.len(),
            ArrayModel::Boolean(s) => s.len(),
        }
    }

    /// The physical type of every row.
    pub open spec fn physical_type(self) -> PhysicalType {
        match self {
            ArrayModel::Int32(_) => PhysicalType::Int32,
            ArrayModel::Utf8(_) => PhysicalType::Utf8,
            ArrayModel::Boolean(_) => PhysicalType::Boolean,
        }
    }
}

/// A single typed value, possibly null.
///
/// `Null` is the untyped null: it carries no physical type of the closed set
/// and is the placeholder a fresh accumulator starts from.
#[derive(Debug, PartialEq, Eq)]
pub enum ScalarValue {
    Null,
    Boolean(Option<bool>),
    Int32(Option<i32>),
    Utf8(Option<String>),
}

impl View for ScalarValue {
    type V = ScalarModel;

    open spec fn view(&self) -> ScalarModel {
        match self {
            ScalarValue::Null => ScalarModel::Null,
            ScalarValue::Boolean(b) => ScalarModel::Boolean(*b),
            ScalarValue::Int32(v) => ScalarModel::Int32(*v),
            ScalarValue::Utf8(s) => ScalarModel::Utf8(
                match s {
                    Some(x) => Some(x@),
                    None => None,
                },
            ),
        }
    }
}

/// A full column of rows, all of one physical type.
#[derive(Debug, PartialEq, Eq)]
pub enum ArrayValue {
    Int32(Vec<Option<i32>>),
    Utf8(Vec<Option<String>>),
    Boolean(Vec<Option<bool>>),
}

impl View for ArrayValue {
    type V = ArrayModel;

    open spec fn view(&self) -> ArrayModel {
        match self {
            ArrayValue::Int32(v) => ArrayModel::Int32(v@),
            ArrayValue::Utf8(v) => ArrayModel::Utf8(v.deep_view()),
            ArrayValue::Boolean(v) => ArrayModel::Boolean(v@),
        }
    }
}

impl DeepView for ArrayValue {
    type V = ArrayModel;

    open spec fn deep_view(&self) -> ArrayModel {
        self@
    }
}

/// The uniform result of evaluating any expression: a full column or a
/// single scalar, never a mix.
#[derive(Debug, PartialEq, Eq)]
pub enum ColumnarValue {
    Array(ArrayValue),
    Scalar(ScalarValue),
}

impl View for ColumnarValue {
    type V = ValueModel;

    open spec fn view(&self) -> ValueModel {
        match self {
            ColumnarValue::Array(a) => ValueModel::Array(a@),
            ColumnarValue::Scalar(s) => ValueModel::Scalar(s@),
        }
    }
}

impl DeepView for ColumnarValue {
    type V = ValueModel;

    open spec fn deep_view(&self) -> ValueModel {
        self@
    }
}

impl ScalarValue {
    /// Resolves the physical type this scalar carries.
    pub fn physical_type(&self) -> (r: PhysicalType)
        ensures
            r == self@.physical_type(),
    {
        match self {
            ScalarValue::Null => PhysicalType::Null,
            ScalarValue::Boolean(_) => PhysicalType::Boolean,
            ScalarValue::Int32(_) => PhysicalType::Int32,
            ScalarValue::Utf8(_) => PhysicalType::Utf8,
        }
    }

    /// Checked downcast to the 32-bit integer representation.
    pub fn as_int32(&self) -> (r: Result<Option<i32>, Error>)
        ensures
            match r {
                Ok(v) => self@ == ScalarModel::Int32(v),
                Err(e) => !(self@ is Int32) && e@ == ErrorModel::DowncastError,
            },
    {
        match self {
            ScalarValue::Int32(v) => Ok(*v),
            _ => Err(Error::DowncastError),
        }
    }
}

impl ArrayValue {
    /// The number of rows of the column.
    pub fn len(&self) -> (r: usize)
        ensures
            r == self@.len(),
    {
        match self {
            ArrayValue::Int32(v) => v.len(),
            ArrayValue::Utf8(v) => v.len(),
            ArrayValue::Boolean(v) => v.len(),
        }
    }

    /// Resolves the physical type of the column's rows.
    pub fn physical_type(&self) -> (r: PhysicalType)
        ensures
            r == self@.physical_type(),
    {
        match self {
            ArrayValue::Int32(_) => PhysicalType::Int32,
            ArrayValue::Utf8(_) => PhysicalType::Utf8,
            ArrayValue::Boolean(_) => PhysicalType::Boolean,
        }
    }

    /// Checked downcast to the 32-bit integer representation.
    pub fn as_int32(&self) -> (r: Result<&Vec<Option<i32>>, Error>)
        ensures
            match r {
                Ok(v) => self@ == ArrayModel::Int32(v@),
                Err(e) => !(self@ is Int32) && e@ == ErrorModel::DowncastError,
            },
    {
        match self {
            ArrayValue::Int32(v) => Ok(v),
            _ => Err(Error::DowncastError),
        }
    }

    /// Checked downcast to the UTF-8 text representation.
    pub fn as_utf8(&self) -> (r: Result<&Vec<Option<String>>, Error>)
        ensures
            match r {
                Ok(v) => self@ == ArrayModel::Utf8(v.deep_view()),
                Err(e) => !(self@ is Utf8) && e@ == ErrorModel::DowncastError,
            },
    {
        match self {
            ArrayValue::Utf8(v) => Ok(v),
            _ => Err(Error::DowncastError),
        }
    }

    /// Checked downcast to the boolean representation.
    pub fn as_boolean(&self) -> (r: Result<&Vec<Option<bool>>, Error>)
        ensures
            match r {
                Ok(v) => self@ == ArrayModel::Boolean(v@),
                Err(e) => !(self@ is Boolean) && e@ == ErrorModel::DowncastError,
            },
    {
        match self {
            ArrayValue::Boolean(v) => Ok(v),
            _ => Err(Error::DowncastError),
        }
    }
}

/// A batch: a collection of columns that expressions index into.
pub struct RecordBatch {
    pub columns: Vec<ArrayValue>,
}

impl View for RecordBatch {
    type V = Seq<ArrayModel>;

    open spec fn view(&self) -> Seq<ArrayModel> {
        self.columns.deep_view()
    }
}

impl RecordBatch {
    /// A batch over the given columns.
    pub fn new(columns: Vec<ArrayValue>) -> (r: RecordBatch)
        ensures
            r@ == columns.deep_view(),
    {
        RecordBatch { columns }
    }

    /// The number of columns.
    pub fn column_count(&self) -> (r: usize)
        ensures
            r == self@.len(),
    {
        self.columns.len()
    }

    /// The column at `index`, or a typed failure where the index lies
    /// outside the batch.
    pub fn column(&self, index: usize) -> (r: Result<&ArrayValue, Error>)
        ensures
            match r {
                Ok(a) => index < self@.len() && a@ == self@[index as int],
                Err(e) => index >= self@.len() && e@ == ErrorModel::PrimitiveTypeNotSupported,
            },
    {
        if index < self.columns.len() {
            let a = &self.columns[index];
            proof {
                assert(self@[index as int] == self.columns@[index as int]@);
            }
            Ok(a)
        } else {
            Err(Error::PrimitiveTypeNotSupported("column index out of range".to_owned()))
        }
    }
}

} // verus!
