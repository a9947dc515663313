//! What holds of every invocation of the gateway, stated over the record of
//! the runtime.

use vstd::prelude::*;
use crate::gateway::{accepted_steps, rejected_steps};
use crate::outcome::{spec_normalize, Event};
use crate::record::{dispatches, events, lemma_push, verdicts, Step};
use crate::runtime::{Config, DispatchOrigin, DispatchOutcome};

verus! {

/// An invocation that the authority turns down asks the authority once and
/// adds no dispatch and no event to the record.
pub proof fn law_rejection_dispatches_and_reports_nothing<T: Config>(
    before: Seq<Step<T>>,
    origin: T::Origin,
)
    ensures
        verdicts(before + rejected_steps::<T>(origin)) == verdicts(before).push((origin, false)),
        dispatches(before + rejected_steps::<T>(origin)) == dispatches(before),
        events(before + rejected_steps::<T>(origin)) == events(before),
{
    let step = Step::<T>::Verified { origin, allowed: false };
    lemma_push(before, step);
    assert(before + rejected_steps::<T>(origin) =~= before.push(step));
}

/// An invocation that the authority accepts asks the authority once and
/// adds one dispatch to the record: that of the call it was given, under
/// the root origin and not under the origin of the caller.
pub proof fn law_acceptance_dispatches_once_as_root<T: Config>(
    before: Seq<Step<T>>,
    origin: T::Origin,
    call: T::Call,
    result: DispatchOutcome<T>,
)
    ensures
        verdicts(before + accepted_steps::<T>(origin, call, result)) == verdicts(before).push(
            (origin, true),
        ),
        dispatches(before + accepted_steps::<T>(origin, call, result)) == dispatches(before).push(
            (call, DispatchOrigin::Root),
        ),
        dispatches(before + accepted_steps::<T>(origin, call, result)).last().1
            != DispatchOrigin::Caller(origin),
{
    lemma_accepted(before, origin, call, result);
}

/// An invocation that the authority accepts adds one event to the record,
/// whether the dispatch succeeded or failed: the result of the dispatch
/// without its post-dispatch information.
pub proof fn law_acceptance_reports_once<T: Config>(
    before: Seq<Step<T>>,
    origin: T::Origin,
    call: T::Call,
    result: DispatchOutcome<T>,
)
    ensures
        events(before + accepted_steps::<T>(origin, call, result)) == events(before).push(
            Event::RootOp(spec_normalize(result)),
        ),
        result is Ok ==> events(before + accepted_steps::<T>(origin, call, result)).last()
            == Event::RootOp(Ok(())),
        result is Err ==> events(before + accepted_steps::<T>(origin, call, result)).last()
            == Event::RootOp(Err(result->Err_0.error)),
{
    lemma_accepted(before, origin, call, result);
}

/// In an accepted invocation the authority is asked before the call is
/// dispatched, and the call is dispatched before the event is handed over.
pub proof fn law_acceptance_asks_then_dispatches_then_reports<T: Config>(
    origin: T::Origin,
    call: T::Call,
    result: DispatchOutcome<T>,
)
    ensures
        accepted_steps::<T>(origin, call, result).len() == 3,
        accepted_steps::<T>(origin, call, result)[0] is Verified,
        accepted_steps::<T>(origin, call, result)[1] is Dispatched,
        accepted_steps::<T>(origin, call, result)[2] is Deposited,
{
}

/// The gateway is not idempotent: two accepted invocations with the same
/// call dispatch it twice and report twice.
pub proof fn law_two_invocations_dispatch_twice<T: Config>(
    before: Seq<Step<T>>,
    first_origin: T::Origin,
    second_origin: T::Origin,
    call: T::Call,
    first_result: DispatchOutcome<T>,
    second_result: DispatchOutcome<T>,
)
    ensures
        dispatches(
            before + accepted_steps::<T>(first_origin, call, first_result) + accepted_steps::<T>(
                second_origin,
                call,
                second_result,
            ),
        ) == dispatches(before).push((call, DispatchOrigin::Root)).push(
            (call, DispatchOrigin::Root),
        ),
        events(
            before + accepted_steps::<T>(first_origin, call, first_result) + accepted_steps::<T>(
                second_origin,
                call,
                second_result,
            ),
        ) == events(before).push(Event::RootOp(spec_normalize(first_result))).push(
            Event::RootOp(spec_normalize(second_result)),
        ),
{
    let after_first = before + accepted_steps::<T>(first_origin, call, first_result);
    lemma_accepted(before, first_origin, call, first_result);
    lemma_accepted(after_first, second_origin, call, second_result);
}

/// What the three steps of an accepted invocation add to a record.
proof fn lemma_accepted<T: Config>(
    before: Seq<Step<T>>,
    origin: T::Origin,
    call: T::Call,
    result: DispatchOutcome<T>,
)
    ensures
        verdicts(before + accepted_steps::<T>(origin, call, result)) == verdicts(before).push(
            (origin, true),
        ),
        dispatches(before + accepted_steps::<T>(origin, call, result)) == dispatches(before).push(
            (call, DispatchOrigin::Root),
        ),
        events(before + accepted_steps::<T>(origin, call, result)) == events(before).push(
            Event::RootOp(spec_normalize(result)),
        ),
{
    let added = accepted_steps::<T>(origin, call, result);
    let one = before.push(added[0]);
    let two = one.push(added[1]);
    lemma_push(before, added[0]);
    lemma_push(one, added[1]);
    lemma_push(two, added[2]);
    assert(before + added =~= two.push(added[2]));
}

} // verus!
