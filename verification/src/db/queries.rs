//! What a handler answers after a query.

use crate::error::{AppError, AppResult, ErrorModel};
use vstd::prelude::*;
use vstd::string::*;

verus! {

/// Whether `failure` is `sqlx::Error::RowNotFound`, the driver's report
/// that a query that expected a row found none.
pub uninterp spec fn reports_no_row(failure: sqlx::Error) -> bool;

/// Tells `sqlx::Error::RowNotFound` from the driver's other failures.
#[verifier::external_body]
fn is_no_row(failure: &sqlx::Error) -> (answer: bool)
    ensures
        answer == reports_no_row(*failure),
{
    matches!(failure, sqlx::Error::RowNotFound)
}

/// The answer to a lookup of one record, from what the database returned
/// for it: the record when there is one; a not-found error that names
/// `what` was looked for when there is none, whether the driver returned
/// no record or reported that no row was found; a database error with the
/// driver's message when the query failed in any other way.
pub fn lookup_result<T>(fetched: Result<Option<T>, sqlx::Error>, what: &str) -> (result: AppResult<
    T,
>)
    ensures
        match fetched {
            Ok(Some(record)) => result == Ok::<T, AppError>(record),
            Ok(None) => result is Err && result->Err_0@ == ErrorModel::NotFound(what@),
            Err(failure) => result is Err && if reports_no_row(failure) {
                result->Err_0@ == ErrorModel::NotFound(what@)
            } else {
                result->Err_0 is Database && to_string_from_display_ensures::<sqlx::Error>(
                    &failure,
                    result->Err_0->Database_0,
                )
            },
        },
{
    match fetched {
        Ok(Some(record)) => Ok(record),
        Ok(None) => Err(AppError::NotFound(String::from_str(what))),
        Err(failure) => {
            if is_no_row(&failure) {
                Err(AppError::NotFound(String::from_str(what)))
            } else {
                Err(AppError::from(failure))
            }
        },
    }
}

} // verus!
