//! What a dispatch returns, and what the gateway reports of it.

use vstd::prelude::*;

verus! {

/// `sp_runtime::DispatchError`: why a dispatch failed. The gateway hands the
/// value on and never looks into it.
#[verifier::external_type_specification]
#[verifier::external_body]
pub struct ExDispatchError(sp_runtime::DispatchError);

/// Whether a dispatch succeeded, and why not if it did not.
pub type DispatchResult = Result<(), sp_runtime::DispatchError>;

/// A failed dispatch: why it failed, beside what the runtime learned of the
/// call by running it.
pub struct DispatchErrorWithPostInfo<Info> {
    pub post_info: Info,
    pub error: sp_runtime::DispatchError,
}

/// What the gateway reports of an invocation.
#[derive(Clone, Copy, Debug, PartialEq, Eq)]
pub enum Event {
    /// A call was dispatched as root; this is how it ended.
    RootOp(DispatchResult),
}

/// A dispatch's result without the post-dispatch information: success, or
/// the error of the failure.
pub open spec fn spec_normalize<Info>(
    result: Result<Info, DispatchErrorWithPostInfo<Info>>,
) -> DispatchResult {
    match result {
        Ok(_) => Ok(()),
        Err(e) => Err(e.error),
    }
}

/// Drops the post-dispatch information from a dispatch's result.
pub fn normalize<Info>(result: Result<Info, DispatchErrorWithPostInfo<Info>>) -> (r: DispatchResult)
    ensures
        r == spec_normalize(result),
{
    match result {
        Ok(_) => Ok(()),
        Err(e) => Err(e.error),
    }
}

} // verus!
