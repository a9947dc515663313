//! What the gateway asks of the runtime it is part of.

use vstd::prelude::*;
use crate::outcome::{DispatchErrorWithPostInfo, Event};

verus! {

/// `sp_runtime::traits::BadOrigin`: the verdict on an origin that lacks the
/// authority asked for. A unit struct; nothing is read from it.
#[verifier::external_type_specification]
#[verifier::external_body]
pub struct ExBadOrigin(sp_runtime::traits::BadOrigin);

/// Under whose authority a call is dispatched.
pub enum DispatchOrigin<O> {
    /// The runtime itself: no permission check of the call can fail.
    Root,
    /// Whoever `O` stands for, with the permissions of that caller.
    Caller(O),
}

/// What a dispatch returns: what the runtime learned of the call by running
/// it, or the failure.
pub type DispatchOutcome<T> = Result<
    <T as Config>::PostInfo,
    DispatchErrorWithPostInfo<<T as Config>::PostInfo>,
>;

/// The runtime as the gateway needs it. An implementation decides who the
/// configured authority is, carries calls out and keeps the event log; the
/// gateway assumes nothing of how it does so.
pub trait Config: Sized {
    /// Who asks for a state transition.
    type Origin;

    /// A state transition that the runtime can dispatch.
    type Call;

    /// What the runtime learns of a call by running it.
    type PostInfo;

    /// Asks the configured authority whether `origin` may use the gateway.
    fn ensure_origin(&self, origin: Self::Origin) -> Result<(), sp_runtime::traits::BadOrigin>;

    /// Runs `call` under `origin`.
    fn dispatch(&mut self, call: Self::Call, origin: DispatchOrigin<Self::Origin>) -> DispatchOutcome<Self>;

    /// Appends `event` to the event log.
    fn deposit_event(&mut self, event: Event);
}

} // verus!
