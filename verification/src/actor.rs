//! The supervised worker: it keeps the connection configuration, owns the
//! pool slot through starts and restarts, and runs tasks against the pool.
//!
//! The worker does not build the pool itself and does not wait for anything.
//! Whoever drives it runs the build that `started` asks for, reports the
//! answer with `build_finished`, and restarts the worker when told to.

use crate::driver::{config_parses, parse_config};
use crate::error::{lift, lifted, PostgresError};
use crate::lifecycle::{Lifecycle, Phase};
use crate::message::{PostgresMessage, QueryTask};
use bb8_postgres::tokio_postgres::{Config, Error, Row};
use vstd::prelude::*;

verus! {

/// What a pool build is to be made from.
pub struct BuildRequest<Tls> {
    pub config: Config,
    pub tls: Tls,
}

/// The pool slot together with the phase: a pool exists only while ready.
enum Slot<P> {
    Uninitialized,
    Building,
    Ready(P),
    Restarting,
}

/// A worker for pools of type `P` that are reached over transport `Tls`.
pub struct PostgresActor<Tls, P> {
    config: Config,
    tls: Tls,
    slot: Slot<P>,
}

/// The pool that a build's answer carries, if it carries one.
pub open spec fn yielded<P>(built: Result<P, Error>) -> Option<P> {
    match built {
        Ok(pool) => Some(pool),
        Err(_) => None,
    }
}

impl<Tls, P> View for PostgresActor<Tls, P> {
    type V = Lifecycle<P>;

    closed spec fn view(&self) -> Lifecycle<P> {
        match self.slot {
            Slot::Uninitialized => Lifecycle { phase: Phase::Uninitialized, pool: None },
            Slot::Building => Lifecycle { phase: Phase::Building, pool: None },
            Slot::Ready(pool) => Lifecycle { phase: Phase::Ready, pool: Some(pool) },
            Slot::Restarting => Lifecycle { phase: Phase::Restarting, pool: None },
        }
    }
}

impl<Tls: Clone, P: Clone> PostgresActor<Tls, P> {
    /// The connection configuration that the worker was made with.
    pub closed spec fn config(self) -> Config {
        self.config
    }

    /// The transport that the worker was made with.
    pub closed spec fn tls(self) -> Tls {
        self.tls
    }

    /// A worker's slot is filled exactly while it is ready.
    pub proof fn lemma_wf(self)
        ensures
            self@.wf(),
    {
    }

    /// Makes a worker from the answer of the configuration parser.
    ///
    /// A parsed configuration gives a worker that has not started yet and
    /// keeps the configuration and the transport; a parse failure is handed
    /// on as it is and no worker is made.
    pub fn configured(parsed: Result<Config, Error>, tls: Tls) -> (res: Result<Self, PostgresError>)
        ensures
            match parsed {
                Ok(config) => res matches Ok(actor) && actor@ == Lifecycle::<P>::initial()
                    && actor.config() == config && actor.tls() == tls,
                Err(err) => res matches Err(e) && e == PostgresError::PgError(err),
            },
    {
        match parsed {
            Ok(config) => Ok(PostgresActor { config, tls, slot: Slot::Uninitialized }),
            Err(err) => Err(PostgresError::from(err)),
        }
    }

    /// Makes a worker from a connection configuration in text form.
    ///
    /// Succeeds exactly on the texts that the driver accepts; the worker has
    /// not started yet and its slot is empty. On any other text the driver's
    /// failure comes back and no worker is made.
    pub fn start(path: &str, tls: Tls) -> (res: Result<Self, PostgresError>)
        ensures
            res is Ok <==> config_parses(path@),
            res matches Ok(actor) ==> actor@ == Lifecycle::<P>::initial() && actor.tls() == tls,
            res matches Err(e) ==> e is PgError,
    {
        Self::configured(parse_config(path), tls)
    }

    /// The phase that the worker is in.
    pub fn phase(&self) -> (phase: Phase)
        ensures
            phase == self@.phase,
            self@.wf(),
    {
        match &self.slot {
            Slot::Uninitialized => Phase::Uninitialized,
            Slot::Building => Phase::Building,
            Slot::Ready(_) => Phase::Ready,
            Slot::Restarting => Phase::Restarting,
        }
    }

    /// Whether a task that arrives now would be run.
    pub fn is_ready(&self) -> (ready: bool)
        ensures
            ready == self@.admits(),
            ready == (self@.phase is Ready),
    {
        match &self.slot {
            Slot::Ready(_) => true,
            _ => false,
        }
    }

    /// The start hook. The slot is emptied, the worker is building, and the
    /// answer says what the pool is to be built from: the worker's own
    /// configuration and a clone of its transport.
    pub fn started(&mut self) -> (req: BuildRequest<Tls>)
        ensures
            final(self)@ == old(self)@.started(),
            final(self).config() == old(self).config(),
            final(self).tls() == old(self).tls(),
            req.config == old(self).config(),
            cloned(old(self).tls(), req.tls),
    {
        self.slot = Slot::Building;
        BuildRequest { config: self.config.clone(), tls: self.tls.clone() }
    }

    /// Takes the answer of a pool build.
    ///
    /// A pool goes into the slot and the worker is ready. A failure leaves
    /// the slot empty and ends this run of the worker: the failure comes back
    /// wrapped, for the supervisor to restart the worker, and reaches no task.
    pub fn build_finished(&mut self, built: Result<P, Error>) -> (res: Result<(), PostgresError>)
        ensures
            final(self)@ == old(self)@.build_finished(yielded(built)),
            final(self).config() == old(self).config(),
            final(self).tls() == old(self).tls(),
            match built {
                Ok(_) => res is Ok,
                Err(err) => res == Err::<(), PostgresError>(PostgresError::PgError(err)),
            },
    {
        match built {
            Ok(pool) => {
                self.slot = Slot::Ready(pool);
                Ok(())
            },
            Err(err) => {
                self.slot = Slot::Restarting;
                Err(PostgresError::from(err))
            },
        }
    }

    /// The restart hook. Whatever the slot held is dropped; configuration and
    /// transport stay.
    pub fn restarting(&mut self)
        ensures
            final(self)@ == old(self)@.restarting(),
            final(self).config() == old(self).config(),
            final(self).tls() == old(self).tls(),
    {
        self.slot = Slot::Restarting;
    }

    /// Hands out the pool for one task: a clone of what the slot holds, or
    /// `PoolNone` while the slot is empty.
    pub fn checkout(&self) -> (res: Result<P, PostgresError>)
        ensures
            match self@.pool {
                Some(held) => res matches Ok(pool) && cloned(held, pool),
                None => res matches Err(e) && e == PostgresError::PoolNone,
            },
    {
        match &self.slot {
            Slot::Ready(pool) => Ok(pool.clone()),
            _ => Err(PostgresError::PoolNone),
        }
    }

    /// Runs one task if the slot is filled, and hands back what its callback
    /// returned, success or failure, as it is. While the slot is empty the
    /// task comes back whole: its callback has not been called, and the task
    /// can be submitted again.
    ///
    /// The callback has to accept every clone of the pool; while the slot is
    /// empty nothing is asked of it. The worker is borrowed for the whole run
    /// of the callback, so that tasks run one at a time, and it is the same
    /// before and after, whatever the task did.
    pub fn try_handle<F, R>(&mut self, msg: PostgresMessage<F, P, R>) -> (res: Result<
        Result<R, PostgresError>,
        PostgresMessage<F, P, R>,
    >)
        where F: FnOnce(P) -> Result<R, PostgresError>,
        requires
            forall|pool: P|
                old(self)@.pool matches Some(held) && cloned(held, pool) ==> call_requires(
                    msg.query(),
                    (pool,),
                ),
        ensures
            *final(self) == *old(self),
            match old(self)@.pool {
                Some(held) => res matches Ok(answer) && exists|pool: P|
                    cloned(held, pool) && call_ensures(msg.query(), (pool,), answer),
                None => res matches Err(unrun) && unrun == msg,
            },
    {
        match self.checkout() {
            Ok(pool) => {
                let query = msg.into_query();
                Ok(query(pool))
            },
            Err(_) => Err(msg),
        }
    }

    /// Runs one task and hands back what its callback returned, success or
    /// failure, as it is. While the slot is empty the answer is `PoolNone`
    /// and the callback is never called.
    ///
    /// The callback has to accept every clone of the pool; while the slot is
    /// empty nothing is asked of it. The worker is borrowed for the whole run
    /// of the callback, so that tasks run one at a time, and it is the same
    /// before and after, whatever the task did.
    pub fn handle<F, R>(&mut self, msg: PostgresMessage<F, P, R>) -> (res: Result<R, PostgresError>)
        where F: FnOnce(P) -> Result<R, PostgresError>,
        requires
            forall|pool: P|
                old(self)@.pool matches Some(held) && cloned(held, pool) ==> call_requires(
                    msg.query(),
                    (pool,),
                ),
        ensures
            *final(self) == *old(self),
            match old(self)@.pool {
                Some(held) => exists|pool: P|
                    cloned(held, pool) && call_ensures(msg.query(), (pool,), res),
                None => res matches Err(e) && e == PostgresError::PoolNone,
            },
    {
        match self.try_handle(msg) {
            Ok(answer) => answer,
            Err(_) => Err(PostgresError::PoolNone),
        }
    }

    /// Runs one row query. Rows come back as they are, a failure of the
    /// driver comes back wrapped in `PgError`. While the slot is empty the
    /// answer is `PoolNone` and the callback is never called.
    ///
    /// The callback has to accept every clone of the pool; while the slot is
    /// empty nothing is asked of it. The worker is the same before and after.
    pub fn handle_query<F>(&mut self, msg: QueryTask<F, P>) -> (res: Result<Vec<Row>, PostgresError>)
        where F: FnOnce(P) -> Result<Vec<Row>, Error>,
        requires
            forall|pool: P|
                old(self)@.pool matches Some(held) && cloned(held, pool) ==> call_requires(
                    msg.query(),
                    (pool,),
                ),
        ensures
            *final(self) == *old(self),
            match old(self)@.pool {
                Some(held) => exists|pool: P, out: Result<Vec<Row>, Error>|
                    cloned(held, pool) && call_ensures(msg.query(), (pool,), out) && res == lifted(
                        out,
                    ),
                None => res matches Err(e) && e == PostgresError::PoolNone,
            },
    {
        match self.checkout() {
            Ok(pool) => {
                let query = msg.into_query();
                lift(query(pool))
            },
            Err(e) => Err(e),
        }
    }
}

} // verus!
