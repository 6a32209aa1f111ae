//! A supervised worker that owns a pool of PostgreSQL connections and runs
//! tasks against it.
//!
//! The worker keeps a connection configuration and a pool slot. The slot is
//! empty until a pool has been built and is emptied again by every restart;
//! a task that arrives meanwhile is answered with `PostgresError::PoolNone`
//! instead of being run. `lifecycle` holds the state machine and what is
//! proved of it, `actor` the worker, `message` the tasks, `error` the
//! failures, and `driver` what is taken on trust from the driver crates.

pub mod actor;
pub mod driver;
pub mod error;
pub mod lifecycle;
pub mod message;

pub use actor::{BuildRequest, PostgresActor};
pub use bb8_postgres;
pub use error::PostgresError;
pub use lifecycle::Phase;
pub use message::{PostgresMessage, QueryTask};
