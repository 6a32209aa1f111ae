//! The life of a supervised worker as a state machine over plain values.
//!
//! A worker owns one pool slot. The slot is filled by a successful build and
//! emptied by every restart; tasks are only ever handed what the slot holds.

use vstd::prelude::*;

verus! {

/// Where a worker stands in its life.
#[derive(Clone, Copy, Debug, PartialEq, Eq, Structural)]
pub enum Phase {
    /// Created, the start hook has not run yet.
    Uninitialized,
    /// A pool build has been asked for and has not answered yet.
    Building,
    /// The pool slot is filled; tasks are served.
    Ready,
    /// A fault ended the current run; the next start rebuilds the pool.
    Restarting,
}

/// The state of a worker: its phase and what its pool slot holds.
pub struct Lifecycle<P> {
    pub phase: Phase,
    pub pool: Option<P>,
}

/// What can happen to a worker.
pub enum Event<P> {
    /// The supervisor ran the start hook.
    Started,
    /// The pool builder answered with a pool.
    Built(P),
    /// The pool builder answered with a failure.
    BuildFailed,
    /// The supervisor ran the restart hook.
    Restarted,
    /// A task arrived at the mailbox.
    Submitted,
}

impl<P> Lifecycle<P> {
    /// The slot is filled exactly in the `Ready` phase.
    pub open spec fn wf(self) -> bool {
        self.phase is Ready <==> self.pool is Some
    }

    /// A worker that was just created.
    pub open spec fn initial() -> Self {
        Lifecycle { phase: Phase::Uninitialized, pool: None }
    }

    /// The start hook: a build is under way, the slot is empty until it answers.
    pub open spec fn started(self) -> Self {
        Lifecycle { phase: Phase::Building, pool: None }
    }

    /// The build answered: with a pool the worker is ready and holds it,
    /// without one the run is over and a restart is due.
    pub open spec fn build_finished(self, built: Option<P>) -> Self {
        match built {
            Some(pool) => Lifecycle { phase: Phase::Ready, pool: Some(pool) },
            None => Lifecycle { phase: Phase::Restarting, pool: None },
        }
    }

    /// The restart hook: whatever the slot held is dropped.
    pub open spec fn restarting(self) -> Self {
        Lifecycle { phase: Phase::Restarting, pool: None }
    }

    /// Whether a task that arrives now is run.
    pub open spec fn admits(self) -> bool {
        self.pool is Some
    }

    /// The state after one event. A submission leaves the worker as it was.
    pub open spec fn step(self, event: Event<P>) -> Self {
        match event {
            Event::Started => self.started(),
            Event::Built(pool) => self.build_finished(Some(pool)),
            Event::BuildFailed => self.build_finished(None),
            Event::Restarted => self.restarting(),
            Event::Submitted => self,
        }
    }

    /// The state after a sequence of events, taken in order.
    pub open spec fn run(self, events: Seq<Event<P>>) -> Self
        decreases events.len(),
    {
        if events.len() == 0 {
            self
        } else {
            self.run(events.drop_last()).step(events.last())
        }
    }

    /// What each submitted task of `events` is handed, in the order of
    /// submission: the pool that the slot held when the task arrived, or
    /// nothing where the slot was empty.
    pub open spec fn handed(self, events: Seq<Event<P>>) -> Seq<Option<P>>
        decreases events.len(),
    {
        if events.len() == 0 {
            Seq::empty()
        } else {
            let earlier = self.handed(events.drop_last());
            if events.last() is Submitted {
                earlier.push(self.run(events.drop_last()).pool)
            } else {
                earlier
            }
        }
    }
}

/// The number of submissions among `events`.
pub open spec fn submissions<P>(events: Seq<Event<P>>) -> nat
    decreases events.len(),
{
    if events.len() == 0 {
        0
    } else if events.last() is Submitted {
        submissions(events.drop_last()) + 1
    } else {
        submissions(events.drop_last())
    }
}

/// `events[at]` is a successful build that yields `pool`, and nothing but
/// submissions follows it.
pub open spec fn built_last<P>(events: Seq<Event<P>>, at: int, pool: P) -> bool {
    &&& 0 <= at < events.len()
    &&& events[at] == Event::Built(pool)
    &&& forall|k: int| at < k < events.len() ==> events[k] is Submitted
}

/// Every event leaves a well-formed worker well-formed.
pub proof fn lemma_step_keeps_wf<P>(state: Lifecycle<P>, event: Event<P>)
    requires
        state.wf(),
    ensures
        state.step(event).wf(),
{
}

/// Whatever happens to a well-formed worker, and in whatever order, its slot
/// is filled exactly while it is `Ready`.
pub proof fn lemma_run_keeps_wf<P>(state: Lifecycle<P>, events: Seq<Event<P>>)
    requires
        state.wf(),
    ensures
        state.run(events).wf(),
    decreases events.len(),
{
    if events.len() > 0 {
        lemma_run_keeps_wf(state, events.drop_last());
        lemma_step_keeps_wf(state.run(events.drop_last()), events.last());
    }
}

/// Running two sequences of events one after the other is running their
/// concatenation.
pub proof fn lemma_run_concat<P>(state: Lifecycle<P>, first: Seq<Event<P>>, then: Seq<Event<P>>)
    ensures
        state.run(first + then) == state.run(first).run(then),
    decreases then.len(),
{
    if then.len() == 0 {
        assert(first + then =~= first);
    } else {
        lemma_run_concat(state, first, then.drop_last());
        assert((first + then).drop_last() =~= first + then.drop_last());
    }
}

/// A worker that starts and whose build succeeds is `Ready` and holds
/// exactly the pool that was built, whatever it was before.
pub proof fn lemma_ready_after_build<P>(state: Lifecycle<P>, pool: P)
    ensures
        state.started().build_finished(Some(pool)) == (Lifecycle {
            phase: Phase::Ready,
            pool: Some(pool),
        }),
        state.started().build_finished(Some(pool)).admits(),
        !state.started().admits(),
        !Lifecycle::<P>::initial().admits(),
{
}

/// A pool in the slot comes from a successful build, the latest one, and
/// nothing but submissions has happened since: a task is never handed a pool
/// from before a restart, and a freshly built pool is never lost.
pub proof fn lemma_pool_is_latest_build<P>(state: Lifecycle<P>, events: Seq<Event<P>>, pool: P)
    requires
        state.pool is None,
        state.run(events).pool == Some(pool),
    ensures
        exists|at: int| built_last(events, at, pool),
    decreases events.len(),
{
    if events.len() == 0 {
    } else {
        let before = events.drop_last();
        match events.last() {
            Event::Submitted => {
                lemma_pool_is_latest_build(state, before, pool);
                let at = choose|at: int| built_last(before, at, pool);
                assert(built_last(events, at, pool)) by {
                    assert forall|k: int| at < k < events.len() implies events[k] is Submitted by {
                        if k < before.len() {
                            assert(events[k] == before[k]);
                        }
                    }
                }
            },
            Event::Built(built) => {
                assert(built_last(events, events.len() - 1, pool));
            },
            _ => {},
        }
    }
}

/// A task is handed a pool only by a worker that is `Ready`, and then a
/// build has succeeded before the task arrived: the pool is the one of the
/// latest such build, and no start, failure or restart lies between the two.
pub proof fn lemma_served_after_build<P>(events: Seq<Event<P>>, at: int, pool: P)
    requires
        0 <= at < events.len(),
        events[at] is Submitted,
        Lifecycle::<P>::initial().run(events.take(at)).pool == Some(pool),
    ensures
        Lifecycle::<P>::initial().run(events.take(at)).phase is Ready,
        exists|built: int| built_last(events.take(at), built, pool),
{
    lemma_run_keeps_wf(Lifecycle::<P>::initial(), events.take(at));
    lemma_pool_is_latest_build(Lifecycle::<P>::initial(), events.take(at), pool);
}

/// A build failure ends the run with an empty slot. The restart hook
/// changes nothing more, however often it runs, and the start and successful
/// build that follow leave the worker exactly where a first start and build
/// with the same pool would.
pub proof fn lemma_restart_rebuilds<P>(state: Lifecycle<P>, pool: P)
    ensures
        state.build_finished(None).phase is Restarting,
        state.build_finished(None).pool is None,
        state.build_finished(None).restarting() == state.build_finished(None),
        state.restarting().restarting() == state.restarting(),
        state.build_finished(None).restarting().started().build_finished(Some(pool))
            == Lifecycle::<P>::initial().started().build_finished(Some(pool)),
        state.build_finished(None).restarting().started().build_finished(Some(pool)).pool
            == Some(pool),
{
}

/// One task is handed one value: there are as many as there were submissions.
pub proof fn lemma_handed_len<P>(state: Lifecycle<P>, events: Seq<Event<P>>)
    ensures
        state.handed(events).len() == submissions(events),
    decreases events.len(),
{
    if events.len() > 0 {
        lemma_handed_len(state, events.drop_last());
    }
}

/// Tasks are served in the order of their submission: what the tasks of an
/// earlier stretch of events are handed comes first and does not depend on
/// anything that happens later, and the tasks of the later stretch are served
/// from the state that the earlier stretch left.
pub proof fn lemma_handed_in_order<P>(state: Lifecycle<P>, first: Seq<Event<P>>, then: Seq<Event<P>>)
    ensures
        state.handed(first + then) == state.handed(first) + state.run(first).handed(then),
    decreases then.len(),
{
    if then.len() == 0 {
        assert(first + then =~= first);
        assert(state.handed(first) + Seq::<Option<P>>::empty() =~= state.handed(first));
    } else {
        let shorter = then.drop_last();
        lemma_handed_in_order(state, first, shorter);
        lemma_run_concat(state, first, shorter);
        assert((first + then).drop_last() =~= first + shorter);
        if then.last() is Submitted {
            let slot = state.run(first + shorter).pool;
            assert((state.handed(first) + state.run(first).handed(shorter)).push(slot)
                =~= state.handed(first) + state.run(first).handed(shorter).push(slot));
        }
    }
}

/// While nothing but submissions happens the worker stays as it is, and
/// every task sees the same slot: all are turned away while it is empty, all
/// are handed the pool while it is filled.
pub proof fn lemma_handed_while_unchanged<P>(state: Lifecycle<P>, events: Seq<Event<P>>)
    requires
        forall|k: int| 0 <= k < events.len() ==> events[k] is Submitted,
    ensures
        state.run(events) == state,
        state.handed(events) == Seq::new(events.len(), |i: int| state.pool),
    decreases events.len(),
{
    if events.len() > 0 {
        let before = events.drop_last();
        assert forall|k: int| 0 <= k < before.len() implies before[k] is Submitted by {
            assert(before[k] == events[k]);
        }
        lemma_handed_while_unchanged(state, before);
    }
    assert(state.handed(events) =~= Seq::new(events.len(), |i: int| state.pool));
}

} // verus!
