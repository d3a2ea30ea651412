//! Reading typed values out of the cells of a result row.
//!
//! Each getter takes what the database returned for one column, already
//! converted to the requested Rust type (`Ok`) or the text of the conversion
//! error (`Err`), and turns it into the backend's result, naming the column
//! in the diagnostic.

use vstd::prelude::*;
use vstd::string::*;
use crate::error::{ColumnKind, DbStep, ErrorKind, LocalError, LocalResult, failure, failure_view};
use crate::text::{decimal, decimal_string};

verus! {

/// The error of a required text column that holds NULL.
pub open spec fn null_text_view(idx: i32) -> (ErrorKind, Seq<char>) {
    (ErrorKind::Query, "NULL in non-null text col "@ + decimal(idx as int))
}

/// The error reported for a column read that failed with `detail`.
pub open spec fn column_failure(kind: ColumnKind, idx: i32, detail: Seq<char>) -> (ErrorKind, Seq<char>) {
    failure_view(DbStep::ReadColumn { kind, idx }, detail)
}

fn column_error(kind: ColumnKind, idx: i32, detail: &String) -> (e: LocalError)
    ensures
        e@ == column_failure(kind, idx, detail@),
{
    failure(&DbStep::ReadColumn { kind, idx }, detail.as_str())
}

/// A required text column: NULL is an error.
pub fn get_text(idx: i32, cell: Result<Option<String>, String>) -> (r: LocalResult<String>)
    ensures
        match cell {
            Err(d) => r matches Err(e) && e@ == column_failure(ColumnKind::Text, idx, d@),
            Ok(None) => r matches Err(e) && e@ == null_text_view(idx),
            Ok(Some(s)) => r matches Ok(t) && t@ == s@,
        },
{
    match cell {
        Err(d) => Err(column_error(ColumnKind::Text, idx, &d)),
        Ok(None) => {
            let mut m = String::from_str("NULL in non-null text col ");
            let n = decimal_string(idx as i64);
            m.append(n.as_str());
            Err(LocalError::Query(m))
        },
        Ok(Some(s)) => Ok(s),
    }
}

/// An optional text column: NULL reads as `None`.
pub fn get_opt_text(idx: i32, cell: Result<Option<String>, String>) -> (r: LocalResult<Option<String>>)
    ensures
        match cell {
            Err(d) => r matches Err(e) && e@ == column_failure(ColumnKind::OptText, idx, d@),
            Ok(v) => r == Ok::<Option<String>, LocalError>(v),
        },
{
    match cell {
        Err(d) => Err(column_error(ColumnKind::OptText, idx, &d)),
        Ok(v) => Ok(v),
    }
}

/// A required integer column.
pub fn get_i64(idx: i32, cell: Result<i64, String>) -> (r: LocalResult<i64>)
    ensures
        match cell {
            Err(d) => r matches Err(e) && e@ == column_failure(ColumnKind::I64, idx, d@),
            Ok(v) => r == Ok::<i64, LocalError>(v),
        },
{
    match cell {
        Err(d) => Err(column_error(ColumnKind::I64, idx, &d)),
        Ok(v) => Ok(v),
    }
}

/// An optional integer column: NULL reads as `None`.
pub fn get_opt_i64(idx: i32, cell: Result<Option<i64>, String>) -> (r: LocalResult<Option<i64>>)
    ensures
        match cell {
            Err(d) => r matches Err(e) && e@ == column_failure(ColumnKind::OptI64, idx, d@),
            Ok(v) => r == Ok::<Option<i64>, LocalError>(v),
        },
{
    match cell {
        Err(d) => Err(column_error(ColumnKind::OptI64, idx, &d)),
        Ok(v) => Ok(v),
    }
}

/// The boolean that a stored integer flag stands for: any nonzero value is
/// true.
pub open spec fn flag(n: i64) -> bool {
    n != 0
}

/// A boolean column stored as an integer: NULL reads as false, zero as false,
/// any other value as true.
pub fn get_bool(idx: i32, cell: Result<Option<i64>, String>) -> (r: LocalResult<bool>)
    ensures
        match cell {
            Err(d) => r matches Err(e) && e@ == column_failure(ColumnKind::Bool, idx, d@),
            Ok(None) => r == Ok::<bool, LocalError>(false),
            Ok(Some(n)) => r == Ok::<bool, LocalError>(flag(n)) && r == Ok::<bool, LocalError>(n != 0),
        },
{
    match cell {
        Err(d) => Err(column_error(ColumnKind::Bool, idx, &d)),
        Ok(v) => {
            let n = match v {
                Some(n) => n,
                None => 0,
            };
            Ok(n != 0)
        },
    }
}

/// An optional boolean column stored as an integer: NULL reads as `None`,
/// zero as false, any other value as true.
pub fn get_opt_bool(idx: i32, cell: Result<Option<i64>, String>) -> (r: LocalResult<Option<bool>>)
    ensures
        match cell {
            Err(d) => r matches Err(e) && e@ == column_failure(ColumnKind::OptBool, idx, d@),
            Ok(None) => r == Ok::<Option<bool>, LocalError>(None),
            Ok(Some(n)) => r == Ok::<Option<bool>, LocalError>(Some(flag(n))) && r == Ok::<
                Option<bool>,
                LocalError,
            >(Some(n != 0)),
        },
{
    match cell {
        Err(d) => Err(column_error(ColumnKind::OptBool, idx, &d)),
        Ok(None) => Ok(None),
        Ok(Some(n)) => Ok(Some(n != 0)),
    }
}

} // verus!
