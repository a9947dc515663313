//! A gateway through which one configured authority has any call of the
//! runtime dispatched with root privilege.

pub mod gateway;
pub mod laws;
pub mod outcome;
pub mod record;
pub mod runtime;
pub mod weight;

pub use gateway::{GatewayError, Pallet};
pub use outcome::{DispatchErrorWithPostInfo, DispatchResult, Event};
pub use record::{Recorded, Step};
pub use runtime::{Config, DispatchOrigin, DispatchOutcome};
pub use weight::{apply_weight, Weight, APPLY_SURCHARGE};
