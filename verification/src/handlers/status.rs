//! The status codes with which the handlers answer, and the rule by which
//! the outcome of a query becomes one.

use vstd::prelude::*;

verus! {

pub const OK: u16 = 200;

pub const NOT_FOUND: u16 = 404;

pub const INTERNAL_SERVER_ERROR: u16 = 500;

pub const NOT_IMPLEMENTED: u16 = 501;

/// The answer to a query for one record: the record where the query found
/// one, `NOT_FOUND` where it found none, and `INTERNAL_SERVER_ERROR` where
/// the query itself failed, whatever its error.
pub fn one_or_status<T, E>(looked_up: Result<Option<T>, E>) -> (answer: Result<T, u16>)
    ensures
        answer == match looked_up {
            Ok(Some(record)) => Ok::<T, u16>(record),
            Ok(None) => Err::<T, u16>(NOT_FOUND),
            Err(_) => Err::<T, u16>(INTERNAL_SERVER_ERROR),
        },
{
    match looked_up {
        Ok(Some(record)) => Ok(record),
        Ok(None) => Err(NOT_FOUND),
        Err(_) => Err(INTERNAL_SERVER_ERROR),
    }
}

/// The answer to a query for a list of records: the list where the query
/// succeeded, and `INTERNAL_SERVER_ERROR` where it failed, whatever its
/// error.
pub fn all_or_status<T, E>(fetched: Result<Vec<T>, E>) -> (answer: Result<Vec<T>, u16>)
    ensures
        answer == match fetched {
            Ok(records) => Ok::<Vec<T>, u16>(records),
            Err(_) => Err::<Vec<T>, u16>(INTERNAL_SERVER_ERROR),
        },
{
    match fetched {
        Ok(records) => Ok(records),
        Err(_) => Err(INTERNAL_SERVER_ERROR),
    }
}

} // verus!
