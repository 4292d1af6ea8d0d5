//! The errors that the platform's services answer with.

use vstd::prelude::*;
use vstd::string::*;

use crate::text::concat2;

verus! {

/// An error answered by a platform service.
#[derive(Debug, Clone)]
pub enum ApiError {
    /// The named kind of record does not exist.
    NotFound(&'static str),
    /// The platform failed internally; the message says how.
    Internal(String),
}

/// The prefix of the message of every failed database operation.
pub open spec fn database_failure_prefix() -> Seq<char> {
    "database operation failed: "@
}

/// The error answered when a database operation fails with `detail`.
pub fn database_failure(detail: &str) -> (r: ApiError)
    ensures
        r matches ApiError::Internal(m) && m@ == database_failure_prefix() + detail@,
{
    ApiError::Internal(concat2("database operation failed: ", detail))
}

/// The handle itself, or the internal error answered when the database
/// handle is unavailable.
pub fn require_handle<T>(handle: Option<T>) -> (r: Result<T, ApiError>)
    ensures
        match handle {
            Some(h) => r == Ok::<T, ApiError>(h),
            None => r matches Err(ApiError::Internal(m)) && m@
                == "database handle is unavailable"@,
        },
{
    match handle {
        Some(h) => Ok(h),
        None => Err(ApiError::Internal(String::from_str("database handle is unavailable"))),
    }
}

/// The record itself, or the not-found error that names `kind`.
pub fn found_or_not_found<T>(record: Option<T>, kind: &'static str) -> (r: Result<T, ApiError>)
    ensures
        match record {
            Some(v) => r == Ok::<T, ApiError>(v),
            None => r matches Err(ApiError::NotFound(k)) && k == kind,
        },
{
    match record {
        Some(v) => Ok(v),
        None => Err(ApiError::NotFound(kind)),
    }
}

/// The result of a step followed by a clean-up that runs whatever the step
/// did (releasing a lock, shutting telemetry down): the step's error wins,
/// then the clean-up's, otherwise the step's value.
pub fn settle<T, E>(outcome: Result<T, E>, cleanup: Result<(), E>) -> (r: Result<T, E>)
    ensures
        match (outcome, cleanup) {
            (Err(e), _) => r == Err::<T, E>(e),
            (Ok(_), Err(e)) => r == Err::<T, E>(e),
            (Ok(v), Ok(_)) => r == Ok::<T, E>(v),
        },
{
    match outcome {
        Err(e) => Err(e),
        Ok(v) => match cleanup {
            Err(e) => Err(e),
            Ok(()) => Ok(v),
        },
    }
}

} // verus!
