//! What the worker takes from the database driver and the pool crate.
//!
//! Nothing here is verified: the types are opaque and the contracts below
//! are taken on trust from the source of the crates.

use bb8_postgres::tokio_postgres::{Config, Error};
use std::str::FromStr;
use vstd::prelude::*;

verus! {

/// The driver's connection configuration, carried from the parser to the pool
/// builder without being looked into.
#[verifier::external_type_specification]
#[verifier::external_body]
pub struct ExConfig(bb8_postgres::tokio_postgres::Config);

/// The driver's failure value.
#[verifier::external_type_specification]
#[verifier::external_body]
pub struct ExError(bb8_postgres::tokio_postgres::Error);

/// The pool's failure value: a failure of the connection manager, or a
/// time-out while waiting for a connection.
#[verifier::external_type_specification]
#[verifier::external_body]
#[verifier::reject_recursive_types(E)]
pub struct ExRunError<E>(bb8_postgres::bb8::RunError<E>);

/// One row of a query's answer.
#[verifier::external_type_specification]
#[verifier::external_body]
pub struct ExRow(bb8_postgres::tokio_postgres::Row);

/// Whether the driver accepts `text` as a connection configuration, in either
/// of its two notations (a `postgres://` or `postgresql://` URL, or a list of
/// `key=value` pairs). The driver as it is built decides; a few options and
/// the reading of socket paths belong to some targets only.
pub uninterp spec fn config_parses(text: Seq<char>) -> bool;

/// Parses a connection configuration with `Config::from_str` of
/// `tokio_postgres`.
///
/// Trusted: the parser reads nothing but the text it is given (no
/// environment, no file, no clock), so that the same text is always accepted
/// or always refused, and it returns on every text. Nothing is claimed about
/// the configuration or the failure that comes back.
#[verifier::external_body]
pub(crate) fn parse_config(text: &str) -> (parsed: Result<Config, Error>)
    ensures
        parsed is Ok <==> config_parses(text@),
{
    Config::from_str(text)
}

/// `Clone::clone` of the driver's `Config`, which is derived.
///
/// Trusted: a configuration is a record of plain settings, and its clone is
/// the same configuration.
pub assume_specification[ <Config as Clone>::clone ](config: &Config) -> (copy: Config)
    ensures
        copy == *config,
;

} // verus!
