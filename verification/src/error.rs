//! The failures a caller of the worker can be handed.

use bb8_postgres::bb8::RunError;
use bb8_postgres::tokio_postgres::Error;
use vstd::prelude::*;
use vstd::std_specs::convert::FromSpecImpl;

verus! {

/// A failure of the worker or of a task that ran against its pool.
///
/// The two wrapping variants carry the downstream value untouched; `PoolNone`
/// is the sentinel for a task that arrived while the pool slot was empty.
#[derive(Debug)]
pub enum PostgresError {
    /// A failure raised by the database driver.
    PgError(Error),
    /// A failure raised by the connection pool while handing out a connection.
    BB8Error(RunError<Error>),
    /// The worker holds no pool: it has not been built yet or is being rebuilt.
    PoolNone,
    /// A failure raised by the task's own code.
    Other(String),
}

impl PostgresError {
    /// Whether this is the sentinel for an empty pool slot.
    pub fn is_pool_none(&self) -> (b: bool)
        ensures
            b == (*self is PoolNone),
    {
        match self {
            PostgresError::PoolNone => true,
            _ => false,
        }
    }
}

impl From<Error> for PostgresError {
    fn from(err: Error) -> (e: PostgresError) {
        PostgresError::PgError(err)
    }
}

impl FromSpecImpl<Error> for PostgresError {
    open spec fn obeys_from_spec() -> bool {
        true
    }

    open spec fn from_spec(err: Error) -> PostgresError {
        PostgresError::PgError(err)
    }
}

impl From<RunError<Error>> for PostgresError {
    fn from(err: RunError<Error>) -> (e: PostgresError) {
        PostgresError::BB8Error(err)
    }
}

impl FromSpecImpl<RunError<Error>> for PostgresError {
    open spec fn obeys_from_spec() -> bool {
        true
    }

    open spec fn from_spec(err: RunError<Error>) -> PostgresError {
        PostgresError::BB8Error(err)
    }
}

/// A driver result as the caller of the worker sees it: the success value
/// as it is, a driver failure wrapped in `PgError`.
pub open spec fn lifted<T>(out: Result<T, Error>) -> Result<T, PostgresError> {
    match out {
        Ok(value) => Ok(value),
        Err(err) => Err(PostgresError::PgError(err)),
    }
}

/// Carries a result that speaks the driver's error type into the worker's
/// own set of failures, losing nothing on either side.
pub fn lift<T>(out: Result<T, Error>) -> (res: Result<T, PostgresError>)
    ensures
        res == lifted(out),
{
    match out {
        Ok(value) => Ok(value),
        Err(err) => Err(PostgresError::from(err)),
    }
}

} // verus!
