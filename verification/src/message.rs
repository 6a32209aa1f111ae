//! Tasks: single-use units of work that are run against the worker's pool.

use crate::error::PostgresError;
use bb8_postgres::tokio_postgres::{Error, Row};
use std::marker::PhantomData;
use vstd::prelude::*;

verus! {

/// A task with a result type of the caller's choosing.
///
/// It holds one callback from a pool handle to `Result<R, PostgresError>`.
/// The callback is not looked at when the task is made; it is called at most
/// once, by the worker, with a clone of the pool.
#[verifier::reject_recursive_types(P)]
#[verifier::reject_recursive_types(R)]
pub struct PostgresMessage<F, P, R> where F: FnOnce(P) -> Result<R, PostgresError> {
    query: F,
    phantom: PhantomData<P>,
}

impl<F, P, R> PostgresMessage<F, P, R> where F: FnOnce(P) -> Result<R, PostgresError> {
    /// The callback that the task holds.
    pub closed spec fn query(self) -> F {
        self.query
    }

    /// Wraps `query` as a task. Any callback is accepted.
    pub fn new(query: F) -> (msg: Self)
        ensures
            msg.query() == query,
    {
        PostgresMessage { query, phantom: PhantomData }
    }

    /// Takes the task apart again, handing back the callback uncalled.
    pub fn into_query(self) -> (query: F)
        ensures
            query == self.query(),
    {
        self.query
    }
}

/// A task that asks for rows and speaks the driver's own failure type.
///
/// It holds one callback from a pool handle to `Result<Vec<Row>, Error>`.
#[verifier::reject_recursive_types(P)]
pub struct QueryTask<F, P> where F: FnOnce(P) -> Result<Vec<Row>, Error> {
    query: F,
    phantom: PhantomData<P>,
}

impl<F, P> QueryTask<F, P> where F: FnOnce(P) -> Result<Vec<Row>, Error> {
    /// The callback that the task holds.
    pub closed spec fn query(self) -> F {
        self.query
    }

    /// Wraps `query` as a task. Any callback is accepted.
    pub fn new(query: F) -> (task: Self)
        ensures
            task.query() == query,
    {
        QueryTask { query, phantom: PhantomData }
    }

    /// Takes the task apart again, handing back the callback uncalled.
    pub fn into_query(self) -> (query: F)
        ensures
            query == self.query(),
    {
        self.query
    }
}

} // verus!
