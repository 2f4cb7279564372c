//! The two-armed reply that every operation of the gateway returns.
use vstd::prelude::*;

verus! {

/// The outcome of one call: a payload, or a failure reason as text.
pub enum Reply<T> {
    Success(T),
    Failure(String),
}

impl<T> Reply<T> {
    /// The tag that the host inspects first: `true` for the success arm.
    pub fn is_success(&self) -> (r: bool)
        ensures
            r == self is Success,
    {
        match self {
            Reply::Success(_) => true,
            Reply::Failure(_) => false,
        }
    }
}

/// What evaluating one script redeemer produced: the redeemer as the engine
/// encodes it after evaluation, and the log lines emitted while reducing.
pub struct RedeemerOutcome {
    pub redeemer: Vec<u8>,
    pub logs: Vec<String>,
}

} // verus!
