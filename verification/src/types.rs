//! Column types and cell values of the in-memory table, the mapping of
//! column types to warehouse column types, and the rendering of one cell as
//! a warehouse-SQL literal.

use vstd::prelude::*;
use vstd::string::StringExecFns;

use crate::errors::HiveError;
use crate::text::{dec_digits, escape_quotes, escape_sq, i64_to_dec, int_text, push_char,
    u64_to_dec};

verus! {

/// The semantic type of an in-memory column, as the adapter reads it.
/// Anything the warehouse mapping does not cover (nested, list, binary, ...)
/// is `Other`, carrying a description of the type for error reporting.
#[derive(Clone, Debug)]
pub enum SemanticType {
    Boolean,
    Int8,
    Int16,
    Int32,
    Int64,
    UInt8,
    UInt16,
    UInt32,
    UInt64,
    Float32,
    Float64,
    Text,
    Date,
    Datetime,
    Other(String),
}

/// Warehouse column types: the closed set a Hive-like engine accepts.
#[derive(Clone, Copy, Debug, PartialEq, Eq, Structural)]
pub enum HiveType {
    Boolean,
    Int,
    Bigint,
    Float,
    Double,
    String,
    Date,
    Timestamp,
}

/// Whether the warehouse mapping covers this column type.
pub open spec fn type_supported(t: SemanticType) -> bool {
    !(t is Other)
}

/// The warehouse type a supported column type maps to.
pub open spec fn hive_of(t: SemanticType) -> HiveType
    recommends
        type_supported(t),
{
    match t {
        SemanticType::Boolean => HiveType::Boolean,
        SemanticType::Int8 => HiveType::Int,
        SemanticType::Int16 => HiveType::Int,
        SemanticType::Int32 => HiveType::Int,
        SemanticType::Int64 => HiveType::Bigint,
        SemanticType::UInt8 => HiveType::Int,
        SemanticType::UInt16 => HiveType::Int,
        SemanticType::UInt32 => HiveType::Int,
        SemanticType::UInt64 => HiveType::Bigint,
        SemanticType::Float32 => HiveType::Float,
        SemanticType::Float64 => HiveType::Double,
        SemanticType::Text => HiveType::String,
        SemanticType::Date => HiveType::Date,
        SemanticType::Datetime => HiveType::Timestamp,
        SemanticType::Other(_) => arbitrary(),
    }
}

/// The SQL keyword of a warehouse type.
pub open spec fn type_keyword(t: HiveType) -> Seq<char> {
    match t {
        HiveType::Boolean => "BOOLEAN"@,
        HiveType::Int => "INT"@,
        HiveType::Bigint => "BIGINT"@,
        HiveType::Float => "FLOAT"@,
        HiveType::Double => "DOUBLE"@,
        HiveType::String => "STRING"@,
        HiveType::Date => "DATE"@,
        HiveType::Timestamp => "TIMESTAMP"@,
    }
}

impl HiveType {
    /// The SQL keyword this type prints as in DDL.
    pub fn keyword(&self) -> (r: &'static str)
        ensures
            r@ == type_keyword(*self),
    {
        match self {
            HiveType::Boolean => "BOOLEAN",
            HiveType::Int => "INT",
            HiveType::Bigint => "BIGINT",
            HiveType::Float => "FLOAT",
            HiveType::Double => "DOUBLE",
            HiveType::String => "STRING",
            HiveType::Date => "DATE",
            HiveType::Timestamp => "TIMESTAMP",
        }
    }
}

/// Maps a column type to its warehouse type: boolean to BOOLEAN, integers up
/// to 32 bits to INT, 64-bit integers to BIGINT, floats to FLOAT or DOUBLE,
/// text to STRING, date to DATE, date-time to TIMESTAMP. Every type outside
/// this set is rejected with `UnsupportedType`.
pub fn map_type(t: &SemanticType) -> (r: Result<HiveType, HiveError>)
    ensures
        type_supported(*t) ==> (r matches Ok(h) && h == hive_of(*t)),
        !type_supported(*t) ==> (*t matches SemanticType::Other(d) && (r matches Err(
            HiveError::UnsupportedType(m),
        ) && m@ == d@)),
{
    match t {
        SemanticType::Boolean => Ok(HiveType::Boolean),
        SemanticType::Int8 => Ok(HiveType::Int),
        SemanticType::Int16 => Ok(HiveType::Int),
        SemanticType::Int32 => Ok(HiveType::Int),
        SemanticType::Int64 => Ok(HiveType::Bigint),
        SemanticType::UInt8 => Ok(HiveType::Int),
        SemanticType::UInt16 => Ok(HiveType::Int),
        SemanticType::UInt32 => Ok(HiveType::Int),
        SemanticType::UInt64 => Ok(HiveType::Bigint),
        SemanticType::Float32 => Ok(HiveType::Float),
        SemanticType::Float64 => Ok(HiveType::Double),
        SemanticType::Text => Ok(HiveType::String),
        SemanticType::Date => Ok(HiveType::Date),
        SemanticType::Datetime => Ok(HiveType::Timestamp),
        SemanticType::Other(d) => Err(HiveError::UnsupportedType(d.clone())),
    }
}

/// One cell of the in-memory table, as a plain value. A float cell carries
/// its canonical decimal text, rendered by the shell that owns the columnar
/// engine, and passes through the formatter unquoted.
#[derive(Clone, Debug)]
pub enum CellValue {
    Null,
    Bool(bool),
    Int(i64),
    UInt(u64),
    FloatText(String),
    Text(String),
}

/// How one cell prints as a warehouse-SQL literal: `NULL` unquoted, booleans
/// and numbers in decimal text unquoted, everything else single-quoted with
/// embedded single quotes doubled.
pub open spec fn format_cell(c: CellValue) -> Seq<char> {
    match c {
        CellValue::Null => "NULL"@,
        CellValue::Bool(b) => if b {
            "true"@
        } else {
            "false"@
        },
        CellValue::Int(i) => int_text(i as int),
        CellValue::UInt(u) => dec_digits(u as nat),
        CellValue::FloatText(s) => s@,
        CellValue::Text(s) => seq!['\''] + escape_quotes(s@) + seq!['\''],
    }
}

/// Renders one cell as a warehouse-SQL literal. Total over the cell domain:
/// it never fails for a value whose column type passed `map_type`.
pub fn format_value(c: &CellValue) -> (r: String)
    ensures
        r@ == format_cell(*c),
{
    match c {
        CellValue::Null => {
            let r = String::from_str("NULL");
            r
        },
        CellValue::Bool(b) => {
            if *b {
                String::from_str("true")
            } else {
                String::from_str("false")
            }
        },
        CellValue::Int(i) => i64_to_dec(*i),
        CellValue::UInt(u) => u64_to_dec(*u),
        CellValue::FloatText(s) => s.clone(),
        CellValue::Text(s) => {
            let mut r = String::new();
            push_char(&mut r, '\'');
            let body = escape_sq(s.as_str());
            r.append(body.as_str());
            push_char(&mut r, '\'');
            proof {
                assert(r@ =~= format_cell(*c));
            }
            r
        },
    }
}

} // verus!
