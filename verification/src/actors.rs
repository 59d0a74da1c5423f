//! Externally supplied decision-making capabilities.
//!
//! A policy is a caller-defined object that can draw an action for a state
//! from a list of candidates, and score how likely it is to take a given
//! action in a given state. The environment core only calls into it; it
//! promises nothing about the values a particular policy returns.

use vstd::prelude::*;

verus! {

/// A caller-supplied policy over a state space and an action space.
///
/// `prob` returns a non-negative likelihood-like score in fixed-point
/// millionths; it need not be normalized across candidates.
pub trait Policy<State, Action> {
    /// Draws one action for `state` from the candidate list `actions`.
    fn sample(&self, state: &State, actions: Vec<Action>) -> Action;

    /// The policy's likelihood score for taking `action` in `state`,
    /// in fixed-point millionths.
    fn prob(&self, state: &State, action: &Action) -> i64;
}

} // verus!
