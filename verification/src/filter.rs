//! What a ranking query asks for: its filters, its sort keys and its page,
//! and the values that a compiled query binds.

use vstd::prelude::*;
use vstd::string::*;

verus! {

/// An IEEE-754 double held by its bit pattern, so that it can be carried
/// and bound without arithmetic on it.
#[derive(Clone, Copy, Debug, PartialEq, Eq, Structural)]
pub struct Float64 {
    pub bits: u64,
}

/// Strict bounds on a 32-bit column.
#[derive(Clone, Copy, Debug)]
pub struct IntFilter {
    pub gt: Option<i32>,
    pub lt: Option<i32>,
}

/// Strict bounds on a 64-bit column.
#[derive(Clone, Copy, Debug)]
pub struct BigIntFilter {
    pub gt: Option<i64>,
    pub lt: Option<i64>,
}

/// Bounds on a floating-point quantity.
#[derive(Clone, Copy, Debug)]
pub struct FloatFilter {
    pub gt: Option<Float64>,
    pub lt: Option<Float64>,
}

/// A sort key: a field name and a direction.
#[derive(Debug)]
pub struct StoryRankingSort {
    pub sort: String,
    pub asc: bool,
}

/// A case-insensitive regular-expression filter; `not` asks for the rows
/// that do not match.
#[derive(Debug)]
pub struct PgRegex {
    pub regex: String,
    pub not: bool,
}

/// What a ranking query asks for. Every part is optional.
#[derive(Debug)]
pub struct StoryRankingFilter {
    pub timestamp: Option<BigIntFilter>,
    pub page_size: Option<i32>,
    pub page_number: Option<i32>,
    pub title: Option<PgRegex>,
    pub url: Option<PgRegex>,
    pub score: Option<IntFilter>,
    pub z_score: Option<FloatFilter>,
    pub status: Option<i32>,
    pub flags: Option<i32>,
    pub stars: Option<IntFilter>,
    pub comment: Option<PgRegex>,
    pub sort: Option<Vec<StoryRankingSort>>,
}

/// A value bound to a placeholder of a query.
#[derive(Debug)]
pub enum SqlParameter {
    Int(i32),
    BigInt(i64),
    Float(Float64),
    Varchar(String),
}

/// The mathematical content of a bound value.
pub enum SqlValue {
    Int(int),
    BigInt(int),
    Float(Float64),
    Varchar(Seq<char>),
}

impl View for SqlParameter {
    type V = SqlValue;

    open spec fn view(&self) -> SqlValue {
        match *self {
            SqlParameter::Int(i) => SqlValue::Int(i as int),
            SqlParameter::BigInt(i) => SqlValue::BigInt(i as int),
            SqlParameter::Float(f) => SqlValue::Float(f),
            SqlParameter::Varchar(s) => SqlValue::Varchar(s@),
        }
    }
}

/// The contents of a list of bound values.
pub open spec fn values(parameters: Seq<SqlParameter>) -> Seq<SqlValue> {
    Seq::new(parameters.len(), |i: int| parameters[i]@)
}

impl SqlParameter {
    /// A copy of this value.
    pub fn duplicate(&self) -> (r: SqlParameter)
        ensures
            r@ == self@,
    {
        match self {
            SqlParameter::Int(i) => SqlParameter::Int(*i),
            SqlParameter::BigInt(i) => SqlParameter::BigInt(*i),
            SqlParameter::Float(f) => SqlParameter::Float(*f),
            SqlParameter::Varchar(s) => SqlParameter::Varchar(s.clone()),
        }
    }
}

impl From<i32> for SqlParameter {
    fn from(i: i32) -> (r: SqlParameter) {
        SqlParameter::Int(i)
    }
}

impl vstd::std_specs::convert::FromSpecImpl<i32> for SqlParameter {
    open spec fn obeys_from_spec() -> bool {
        true
    }

    open spec fn from_spec(i: i32) -> SqlParameter {
        SqlParameter::Int(i)
    }
}

impl From<i64> for SqlParameter {
    fn from(i: i64) -> (r: SqlParameter) {
        SqlParameter::BigInt(i)
    }
}

impl vstd::std_specs::convert::FromSpecImpl<i64> for SqlParameter {
    open spec fn obeys_from_spec() -> bool {
        true
    }

    open spec fn from_spec(i: i64) -> SqlParameter {
        SqlParameter::BigInt(i)
    }
}

impl From<Float64> for SqlParameter {
    fn from(f: Float64) -> (r: SqlParameter) {
        SqlParameter::Float(f)
    }
}

impl vstd::std_specs::convert::FromSpecImpl<Float64> for SqlParameter {
    open spec fn obeys_from_spec() -> bool {
        true
    }

    open spec fn from_spec(f: Float64) -> SqlParameter {
        SqlParameter::Float(f)
    }
}

impl From<String> for SqlParameter {
    fn from(s: String) -> (r: SqlParameter) {
        SqlParameter::Varchar(s)
    }
}

impl vstd::std_specs::convert::FromSpecImpl<String> for SqlParameter {
    open spec fn obeys_from_spec() -> bool {
        true
    }

    open spec fn from_spec(s: String) -> SqlParameter {
        SqlParameter::Varchar(s)
    }
}

} // verus!
