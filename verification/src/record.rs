//! The record of what was asked of a runtime.

use vstd::prelude::*;
use crate::outcome::Event;
use crate::runtime::{Config, DispatchOrigin, DispatchOutcome};

verus! {

/// One request made to the runtime, with the answer where there is one.
pub enum Step<T: Config> {
    /// The configured authority was asked about `origin`.
    Verified { origin: T::Origin, allowed: bool },
    /// `call` was dispatched under `origin` and the dispatch returned `result`.
    Dispatched { call: T::Call, origin: DispatchOrigin<T::Origin>, result: DispatchOutcome<T> },
    /// `event` was handed to the event log.
    Deposited { event: Event },
}

/// The dispatches among `steps`, oldest first: each call with the origin
/// it ran under.
pub open spec fn dispatches<T: Config>(steps: Seq<Step<T>>) -> Seq<
    (T::Call, DispatchOrigin<T::Origin>),
>
    decreases steps.len(),
{
    if steps.len() == 0 {
        Seq::empty()
    } else {
        let earlier = dispatches(steps.drop_last());
        match steps.last() {
            Step::Dispatched { call, origin, .. } => earlier.push((call, origin)),
            _ => earlier,
        }
    }
}

/// The events among `steps`, oldest first.
pub open spec fn events<T: Config>(steps: Seq<Step<T>>) -> Seq<Event>
    decreases steps.len(),
{
    if steps.len() == 0 {
        Seq::empty()
    } else {
        let earlier = events(steps.drop_last());
        match steps.last() {
            Step::Deposited { event } => earlier.push(event),
            _ => earlier,
        }
    }
}

/// The questions to the configured authority among `steps`, oldest first:
/// each origin with the verdict on it.
pub open spec fn verdicts<T: Config>(steps: Seq<Step<T>>) -> Seq<(T::Origin, bool)>
    decreases steps.len(),
{
    if steps.len() == 0 {
        Seq::empty()
    } else {
        let earlier = verdicts(steps.drop_last());
        match steps.last() {
            Step::Verified { origin, allowed } => earlier.push((origin, allowed)),
            _ => earlier,
        }
    }
}

/// What one more step adds to the dispatches, the events and the verdicts
/// of a record.
pub proof fn lemma_push<T: Config>(steps: Seq<Step<T>>, step: Step<T>)
    ensures
        dispatches(steps.push(step)) == match step {
            Step::Dispatched { call, origin, .. } => dispatches(steps).push((call, origin)),
            _ => dispatches(steps),
        },
        events(steps.push(step)) == match step {
            Step::Deposited { event } => events(steps).push(event),
            _ => events(steps),
        },
        verdicts(steps.push(step)) == match step {
            Step::Verified { origin, allowed } => verdicts(steps).push((origin, allowed)),
            _ => verdicts(steps),
        },
{
    assert(steps.push(step).drop_last() =~= steps);
}

/// A runtime together with the record of every request made to it since it
/// was wrapped. The runtime can be reached for a request only through the
/// three methods below, and each of them adds the request to the record.
pub struct Recorded<T: Config> {
    runtime: T,
    steps: Ghost<Seq<Step<T>>>,
}

impl<T: Config> Recorded<T> {
    /// The requests made so far, oldest first.
    pub closed spec fn steps(&self) -> Seq<Step<T>> {
        self.steps@
    }

    /// The runtime inside.
    pub closed spec fn inner(&self) -> T {
        self.runtime
    }

    /// Wraps `runtime` with an empty record.
    pub fn new(runtime: T) -> (recorded: Self)
        ensures
            recorded.steps() == Seq::<Step<T>>::empty(),
            recorded.inner() == runtime,
    {
        Recorded { runtime, steps: Ghost(Seq::empty()) }
    }

    /// Looks at the runtime inside.
    pub fn runtime(&self) -> (runtime: &T)
        ensures
            *runtime == self.inner(),
    {
        &self.runtime
    }

    /// Gives the runtime back and drops the record.
    pub fn into_runtime(self) -> (runtime: T)
        ensures
            runtime == self.inner(),
    {
        self.runtime
    }

    /// Asks the configured authority about `origin`. The runtime inside
    /// stays as it is.
    pub fn ensure_origin(&mut self, origin: T::Origin) -> (verdict: Result<(), sp_runtime::traits::BadOrigin>)
        ensures
            final(self).steps() == old(self).steps().push(
                Step::Verified { origin, allowed: verdict is Ok },
            ),
            final(self).inner() == old(self).inner(),
    {
        let verdict = self.runtime.ensure_origin(origin);
        proof {
            self.steps@ = self.steps@.push(Step::Verified { origin, allowed: verdict is Ok });
        }
        verdict
    }

    /// Has the runtime dispatch `call` under `origin`.
    pub fn dispatch(&mut self, call: T::Call, origin: DispatchOrigin<T::Origin>) -> (result:
        DispatchOutcome<T>)
        ensures
            final(self).steps() == old(self).steps().push(
                Step::Dispatched { call, origin, result },
            ),
    {
        let result = self.runtime.dispatch(call, origin);
        proof {
            self.steps@ = self.steps@.push(Step::Dispatched { call, origin, result });
        }
        result
    }

    /// Hands `event` to the runtime's event log.
    pub fn deposit_event(&mut self, event: Event)
        ensures
            final(self).steps() == old(self).steps().push(Step::Deposited { event }),
    {
        self.runtime.deposit_event(event);
        proof {
            self.steps@ = self.steps@.push(Step::Deposited { event });
        }
    }
}

} // verus!
