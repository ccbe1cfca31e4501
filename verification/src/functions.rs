//! Scalar-function building blocks: data types, columns, the always-null
//! function and the array-length function.
//!
//! Column values are modelled by the plain values this logic reads: an
//! array column by its per-row element counts, a null column by its length.

use vstd::prelude::*;
use vstd::string::StringExecFns;

verus! {

/// The data type of a column, reduced to the kinds this logic reads.
#[derive(Clone, Copy, PartialEq, Eq, Structural, Debug)]
pub enum DataTypeImpl {
    Null,
    Boolean,
    UInt64,
    Array,
    Variant,
}

/// The printed name of a data type kind.
pub open spec fn kind_name_text(t: DataTypeImpl) -> Seq<char> {
    match t {
        DataTypeImpl::Null => "Null"@,
        DataTypeImpl::Boolean => "Boolean"@,
        DataTypeImpl::UInt64 => "UInt64"@,
        DataTypeImpl::Array => "Array"@,
        DataTypeImpl::Variant => "Variant"@,
    }
}

impl DataTypeImpl {
    /// Whether this is the array type.
    pub fn is_array(&self) -> (r: bool)
        ensures
            r == (*self is Array),
    {
        match self {
            DataTypeImpl::Array => true,
            _ => false,
        }
    }

    /// The printed name of this data type kind.
    pub fn kind_name(&self) -> (r: &'static str)
        ensures
            r@ == kind_name_text(*self),
    {
        match self {
            DataTypeImpl::Null => "Null",
            DataTypeImpl::Boolean => "Boolean",
            DataTypeImpl::UInt64 => "UInt64",
            DataTypeImpl::Array => "Array",
            DataTypeImpl::Variant => "Variant",
        }
    }
}

/// An error of the scalar-function layer.
#[derive(Clone, PartialEq, Eq, Debug)]
pub enum ErrorCode {
    IllegalDataType(String),
    BadDataValueType(String),
}

/// An array column, held as the element count of the array in each row:
/// all this logic reads of it.
#[derive(Debug)]
pub struct ArrayColumn {
    pub sizes: Vec<usize>,
}

/// A column of values.
#[derive(Debug)]
pub enum ColumnRef {
    Null { len: usize },
    UInt64(Vec<u64>),
    Boolean(Vec<bool>),
    Array(ArrayColumn),
}

/// The evaluation context of a scalar function; it carries the session
/// time zone by name.
pub struct FunctionContext {
    pub tz: String,
}

impl Default for FunctionContext {
    /// The default context, in the UTC time zone.
    fn default() -> (r: FunctionContext)
        ensures
            r.tz@ == "UTC"@,
    {
        let mut tz = String::new();
        tz.append("UTC");
        FunctionContext { tz }
    }
}

/// How a function's output moves as its arguments grow.
#[derive(Clone, Copy, PartialEq, Eq, Structural, Debug)]
pub struct Monotonicity {
    pub is_monotonic: bool,
    pub is_positive: bool,
    pub is_constant: bool,
}

impl Default for Monotonicity {
    /// The default monotonicity: not monotonic, positively oriented, not
    /// constant.
    fn default() -> (r: Monotonicity)
        ensures
            r == (Monotonicity { is_monotonic: false, is_positive: true, is_constant: false }),
    {
        Monotonicity { is_monotonic: false, is_positive: true, is_constant: false }
    }
}

/// The upper-case form of a string of characters.
pub uninterp spec fn upper_of(s: Seq<char>) -> Seq<char>;

/// Relies on str::to_uppercase: the result depends on the characters
/// alone, and an empty string stays empty.
#[verifier::external_body]
fn to_uppercase_string(s: &str) -> (r: String)
    ensures
        r@ == upper_of(s@),
        s@.len() == 0 ==> r@.len() == 0,
{
    s.to_uppercase()
}

/// The scalar function that returns NULL for every row.
pub struct AlwaysNullFunction;

impl AlwaysNullFunction {
    /// The unique name of the function.
    pub fn name(&self) -> (r: &'static str)
        ensures
            r@ == "null"@,
    {
        "null"
    }

    /// The function's return type.
    pub fn return_type(&self) -> (r: DataTypeImpl)
        ensures
            r is Null,
    {
        DataTypeImpl::Null
    }

    /// Evaluate the function: a null column with one entry per input row.
    pub fn eval(
        &self,
        _func_ctx: FunctionContext,
        _columns: &Vec<ColumnRef>,
        input_rows: usize,
    ) -> (r: Result<ColumnRef, ErrorCode>)
        ensures
            match r {
                Ok(c) => c == (ColumnRef::Null { len: input_rows }),
                Err(_) => false,
            },
    {
        Ok(ColumnRef::Null { len: input_rows })
    }
}

/// The message of the error the array-length function raises for a
/// non-array argument type.
pub open spec fn illegal_type_message(display_name: Seq<char>, arg: DataTypeImpl) -> Seq<char> {
    "Invalid argument types for function '"@ + upper_of(display_name) + "': ("@ + kind_name_text(
        arg,
    ) + ")"@
}

/// The scalar function that returns the element count of an array in each
/// row.
#[derive(Debug)]
pub struct ArrayLengthFunction {
    pub display_name: String,
}

impl ArrayLengthFunction {
    /// Validate the argument type and build the function: the single
    /// argument must be an array.
    pub fn try_create(display_name: &str, args: &Vec<DataTypeImpl>) -> (r: Result<
        ArrayLengthFunction,
        ErrorCode,
    >)
        requires
            args@.len() >= 1,
        ensures
            match r {
                Ok(f) => args@[0] is Array && f.display_name@ == display_name@,
                Err(e) => !(args@[0] is Array) && (e matches ErrorCode::IllegalDataType(m) && m@
                    == illegal_type_message(display_name@, args@[0])),
            },
    {
        let data_type = &args[0];
        if !data_type.is_array() {
            let mut message = String::new();
            message.append("Invalid argument types for function '");
            let upper = to_uppercase_string(display_name);
            message.append(upper.as_str());
            message.append("': (");
            message.append(data_type.kind_name());
            message.append(")");
            return Err(ErrorCode::IllegalDataType(message));
        }
        let mut name = String::new();
        name.append(display_name);
        Ok(ArrayLengthFunction { display_name: name })
    }

    /// The function's name, as it was created.
    pub fn name(&self) -> (r: &String)
        ensures
            r@ == self.display_name@,
    {
        &self.display_name
    }

    /// The function's return type.
    pub fn return_type(&self) -> (r: DataTypeImpl)
        ensures
            r is UInt64,
    {
        DataTypeImpl::UInt64
    }

    /// Evaluate the function: for each of the first `input_rows` rows, the
    /// element count of the array in that row. A first column that is not
    /// an array column is a value-type fault.
    pub fn eval(
        &self,
        _func_ctx: FunctionContext,
        columns: &Vec<ColumnRef>,
        input_rows: usize,
    ) -> (r: Result<ColumnRef, ErrorCode>)
        requires
            columns@.len() >= 1,
            (columns@[0] matches ColumnRef::Array(c) ==> input_rows <= c.sizes@.len()),
        ensures
            match r {
                Ok(out) => columns@[0] matches ColumnRef::Array(c) && out matches ColumnRef::UInt64(
                    v,
                ) && v@.len() == input_rows && (forall|i: int|
                    0 <= i < input_rows ==> v@[i] == c.sizes@[i] as u64),
                Err(e) => !(columns@[0] is Array) && (e matches ErrorCode::BadDataValueType(m)
                    && m@ == "Expected an array column as the first argument"@),
            },
    {
        let array_column = match &columns[0] {
            ColumnRef::Array(c) => c,
            _ => {
                let mut message = String::new();
                message.append("Expected an array column as the first argument");
                return Err(ErrorCode::BadDataValueType(message));
            }
        };
        let mut out: Vec<u64> = Vec::new();
        let mut i: usize = 0;
        while i < input_rows
            invariant
                i <= input_rows,
                columns@.len() >= 1,
                columns@[0] matches ColumnRef::Array(c) && array_column == c && input_rows
                    <= c.sizes@.len(),
                out@.len() == i,
                forall|j: int| 0 <= j < i ==> out@[j] == array_column.sizes@[j] as u64,
            decreases input_rows - i,
        {
            out.push(array_column.sizes[i] as u64);
            i = i + 1;
        }
        Ok(ColumnRef::UInt64(out))
    }
}

} // verus!
