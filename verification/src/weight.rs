//! What an invocation of the gateway costs.

use vstd::prelude::*;

verus! {

/// Cost of one state transition, in the runtime's abstract unit of computation.
pub type Weight = u64;

/// What the indirection through the gateway costs on top of the wrapped call.
pub const APPLY_SURCHARGE: Weight = 10_000;

/// The cost of handing a call of cost `estimate` to the gateway.
pub open spec fn spec_apply_weight(estimate: Weight) -> int {
    estimate + APPLY_SURCHARGE
}

/// Computes the cost of handing a call of cost `estimate` to the gateway.
///
/// The cost depends on the estimate alone, so it is known before the call
/// is dispatched and whatever the dispatch returns.
pub fn apply_weight(estimate: Weight) -> (w: Weight)
    requires
        spec_apply_weight(estimate) <= Weight::MAX,
    ensures
        w == spec_apply_weight(estimate),
{
    estimate + APPLY_SURCHARGE
}

} // verus!
