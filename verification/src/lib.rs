//! Runtime core of a reinforcement-learning experimentation library.
//!
//! An [`env::Environment`] advances a Markov-style state through a
//! caller-supplied transition function under a chosen action, records the
//! resulting trajectory in an append-only fixed-capacity journal, and offers
//! a pluggable action-selection strategy (epsilon-greedy over one-step
//! lookahead reward or over policy probability, plus a fully custom
//! policy-driven mode) used both for live stepping and for forward rollouts.
//!
//! Scalar quantities that callers usually think of as real numbers — rewards,
//! policy likelihoods, the discount factor, the exploitation rate epsilon —
//! are carried as signed fixed-point integers with a resolution of one
//! millionth (see [`sampler::UNIT`]), the same resolution at which the random
//! exploitation draw is made.

pub mod actors;
pub mod env;
pub mod error;
pub mod journal;
pub mod sampler;
