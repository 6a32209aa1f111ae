use actix_postgres::bb8_postgres::bb8::RunError;
use actix_postgres::bb8_postgres::tokio_postgres::{Config, Error};
use actix_postgres::error::lift;
use actix_postgres::PostgresError;

fn parse_failure() -> Error {
    "port=high".parse::<Config>().unwrap_err()
}

#[test]
fn driver_failure_converts_to_pg_error() {
    match PostgresError::from(parse_failure()) {
        PostgresError::PgError(err) => {
            assert_eq!(err.to_string(), "invalid connection string");
            assert_eq!(
                err.into_source().unwrap().to_string(),
                "invalid value for option `port`"
            );
        }
        other => panic!("unexpected variant: {:?}", other),
    }
}

#[test]
fn pool_failure_converts_to_bb8_error() {
    assert!(matches!(
        PostgresError::from(RunError::TimedOut),
        PostgresError::BB8Error(RunError::TimedOut)
    ));
    assert!(matches!(
        PostgresError::from(RunError::User(parse_failure())),
        PostgresError::BB8Error(RunError::User(_))
    ));
}

fn from_driver() -> Result<(), PostgresError> {
    Err(parse_failure())?;
    Ok(())
}

fn from_pool() -> Result<(), PostgresError> {
    Err(RunError::<Error>::TimedOut)?;
    Ok(())
}

#[test]
fn question_mark_converts_both_downstream_failures() {
    assert!(matches!(from_driver(), Err(PostgresError::PgError(_))));
    assert!(matches!(from_pool(), Err(PostgresError::BB8Error(RunError::TimedOut))));
}

#[test]
fn only_pool_none_is_the_sentinel() {
    assert!(PostgresError::PoolNone.is_pool_none());
    assert!(!PostgresError::Other("connection pool not initialized".to_string()).is_pool_none());
    assert!(!PostgresError::BB8Error(RunError::TimedOut).is_pool_none());
    assert!(!PostgresError::PgError(parse_failure()).is_pool_none());
}

#[test]
fn lift_keeps_success_and_wraps_failure() {
    assert!(matches!(lift(Ok(41u8)), Ok(41)));
    assert_eq!(lift(Ok("rows".to_string())).unwrap(), "rows");
    match lift::<u8>(Err(parse_failure())) {
        Err(PostgresError::PgError(err)) => {
            assert_eq!(
                err.into_source().unwrap().to_string(),
                "invalid value for option `port`"
            );
        }
        other => panic!("unexpected answer: {:?}", other),
    }
}
