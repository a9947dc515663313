//! The gateway: ask the authority, dispatch as root, report.

use vstd::prelude::*;
use core::marker::PhantomData;
use sp_runtime::traits::BadOrigin;
use vstd::std_specs::convert::FromSpecImpl;
use crate::outcome::{normalize, spec_normalize, Event};
use crate::laws::{
    law_acceptance_dispatches_once_as_root, law_acceptance_reports_once,
    law_rejection_dispatches_and_reports_nothing,
};
use crate::record::{dispatches, events, verdicts, Recorded, Step};
use crate::runtime::{Config, DispatchOrigin, DispatchOutcome};

verus! {

/// Why the gateway turned an invocation down.
#[derive(Clone, Copy, Debug, PartialEq, Eq)]
pub enum GatewayError {
    /// The caller is not the configured authority.
    Unauthorized,
}

impl From<BadOrigin> for GatewayError {
    fn from(verdict: BadOrigin) -> (error: GatewayError) {
        GatewayError::Unauthorized
    }
}

impl FromSpecImpl<BadOrigin> for GatewayError {
    open spec fn obeys_from_spec() -> bool {
        true
    }

    open spec fn from_spec(verdict: BadOrigin) -> GatewayError {
        GatewayError::Unauthorized
    }
}

/// What an invocation asks of the runtime when the authority turns the
/// caller down: the one question, and nothing after it.
pub open spec fn rejected_steps<T: Config>(origin: T::Origin) -> Seq<Step<T>> {
    seq![Step::Verified { origin, allowed: false }]
}

/// What an invocation asks of the runtime when the authority accepts the
/// caller and the dispatch returns `result`: the question, then one
/// dispatch of `call` as root, then one event that carries the result
/// without its post-dispatch information.
pub open spec fn accepted_steps<T: Config>(
    origin: T::Origin,
    call: T::Call,
    result: DispatchOutcome<T>,
) -> Seq<Step<T>> {
    seq![
        Step::Verified { origin, allowed: true },
        Step::Dispatched { call, origin: DispatchOrigin::Root, result },
        Step::Deposited { event: Event::RootOp(spec_normalize(result)) },
    ]
}

/// The gateway of a runtime `T`.
pub struct Pallet<T: Config> {
    _runtime: PhantomData<T>,
}

impl<T: Config> Pallet<T> {
    /// Lets the configured authority dispatch `call` as root.
    ///
    /// The authority is asked first. If it turns `origin` down, the runtime
    /// is left as it was, nothing else is asked of it, and the error is
    /// `Unauthorized`. Otherwise `call` is dispatched once, under the root
    /// origin, then one event reports how the dispatch ended, and the
    /// invocation itself succeeds whether or not the call did.
    pub fn apply(runtime: &mut Recorded<T>, origin: T::Origin, call: Box<T::Call>) -> (r: Result<
        (),
        GatewayError,
    >)
        ensures
            verdicts(final(runtime).steps()) == verdicts(old(runtime).steps()).push(
                (origin, r is Ok),
            ),
            match r {
                Ok(()) => {
                    let asked = old(runtime).steps().len() as int;
                    let result = final(runtime).steps()[asked + 1]->result;
                    &&& final(runtime).steps().len() == asked + 3
                    &&& final(runtime).steps()[asked + 1] is Dispatched
                    &&& final(runtime).steps() == old(runtime).steps() + accepted_steps::<T>(
                        origin,
                        *call,
                        result,
                    )
                    &&& dispatches(final(runtime).steps()) == dispatches(old(runtime).steps()).push(
                        (*call, DispatchOrigin::Root),
                    )
                    &&& events(final(runtime).steps()) == events(old(runtime).steps()).push(
                        Event::RootOp(spec_normalize(result)),
                    )
                },
                Err(e) => {
                    &&& e == GatewayError::Unauthorized
                    &&& final(runtime).inner() == old(runtime).inner()
                    &&& final(runtime).steps() == old(runtime).steps() + rejected_steps::<T>(origin)
                    &&& dispatches(final(runtime).steps()) == dispatches(old(runtime).steps())
                    &&& events(final(runtime).steps()) == events(old(runtime).steps())
                },
            },
    {
        let ghost before = runtime.steps();
        match runtime.ensure_origin(origin) {
            Err(verdict) => {
                proof {
                    assert(runtime.steps() =~= before + rejected_steps::<T>(origin));
                    law_rejection_dispatches_and_reports_nothing::<T>(before, origin);
                }
                Err(GatewayError::from(verdict))
            },
            Ok(()) => {
                let result = runtime.dispatch(*call, DispatchOrigin::Root);
                runtime.deposit_event(Event::RootOp(normalize(result)));
                proof {
                    assert(runtime.steps() =~= before + accepted_steps::<T>(origin, *call, result));
                    law_acceptance_dispatches_once_as_root::<T>(before, origin, *call, result);
                    law_acceptance_reports_once::<T>(before, origin, *call, result);
                }
                Ok(())
            },
        }
    }
}

} // verus!
