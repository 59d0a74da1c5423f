//! Error kinds surfaced by the environment core.
//!
//! Every fallible operation returns a [`ShikkaResult`]; no error is recovered
//! internally — validation happens up front and the underlying journal or
//! randomness-source failure is surfaced verbatim to the caller.

use vstd::prelude::*;

verus! {

/// Failures of the trajectory journal itself.
#[derive(Clone, Copy, Debug, PartialEq, Eq, Structural)]
pub enum JournalError {
    /// A read was attempted while the journal holds no records.
    NoData,
    /// A write was attempted while the journal is at capacity.
    StorageExhausted,
}

/// Error kinds of the environment core.
#[derive(Clone, Copy, Debug, PartialEq, Eq, Structural)]
pub enum ShikkaError {
    /// The discount factor handed to `Environment::new` lies outside
    /// the closed unit interval.
    DiscountFactorOutofBounds,
    /// The epsilon handed to an epsilon-greedy sampler lies outside
    /// the closed unit interval.
    EpsilonOutofBounds,
    /// Greedy sampling was invoked with an empty candidate list.
    NoValidActionsProvided,
    /// A journal failure, propagated unchanged.
    Journal(JournalError),
    /// The uniform random choice was invoked over an empty collection.
    Fastrand,
}

pub type ShikkaResult<T> = Result<T, ShikkaError>;

impl ShikkaError {
    /// A human-readable description of the error.
    pub fn message(&self) -> (r: &'static str)
        ensures
            r@.len() > 0,
    {
        proof {
            reveal_strlit("Discount factor is set outside of the [0.0, 1.0] interval, cannot proceed!");
            reveal_strlit("epsilon is set outside of the [0.0, 1.0] interval, cannot proceed!");
            reveal_strlit("An empty list of valid actions was provided to the action sampler. The environment is now stuck.");
            reveal_strlit("journal error: no data to read");
            reveal_strlit("journal error: storage exhausted");
            reveal_strlit("sampling error caused by an empty candidate collection.");
        }
        match self {
            ShikkaError::DiscountFactorOutofBounds => {
                "Discount factor is set outside of the [0.0, 1.0] interval, cannot proceed!"
            },
            ShikkaError::EpsilonOutofBounds => {
                "epsilon is set outside of the [0.0, 1.0] interval, cannot proceed!"
            },
            ShikkaError::NoValidActionsProvided => {
                "An empty list of valid actions was provided to the action sampler. The environment is now stuck."
            },
            ShikkaError::Journal(JournalError::NoData) => "journal error: no data to read",
            ShikkaError::Journal(JournalError::StorageExhausted) => "journal error: storage exhausted",
            ShikkaError::Fastrand => "sampling error caused by an empty candidate collection.",
        }
    }
}

} // verus!
