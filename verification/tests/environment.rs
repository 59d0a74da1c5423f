//! Behavior of the environment engine: construction, stepping, queries,
//! cleanup, and forward rollouts.

use shikka::actors::Policy;
use shikka::env::{ActionSpace, Environment, StateSpace, JOURNAL_CAPACITY};
use shikka::error::{JournalError, ShikkaError};
use shikka::sampler::{GreedyMode, Strategy, UNIT};

/// Integer line walk: states are integers, actions are +1 and -1.
struct LineStates;

impl StateSpace<i64, i64> for LineStates {
    fn sample(&self) -> i64 {
        0
    }

    fn reachable(&self, actions: &[i64]) -> Vec<i64> {
        actions.to_vec()
    }

    fn contains(&self, _state: &i64) -> bool {
        true
    }
}

struct LineActions;

impl ActionSpace<i64, i64> for LineActions {
    fn sample(&self) -> i64 {
        1
    }

    fn valid(&self, _state: &i64) -> Vec<i64> {
        vec![1, -1]
    }

    fn contains(&self, action: &i64) -> bool {
        *action == 1 || *action == -1
    }
}

/// A policy that always walks upward.
struct AlwaysUp;

impl Policy<i64, i64> for AlwaysUp {
    fn sample(&self, _state: &i64, _actions: Vec<i64>) -> i64 {
        1
    }

    fn prob(&self, _state: &i64, action: &i64) -> i64 {
        if *action == 1 {
            900_000
        } else {
            100_000
        }
    }
}

fn reward(s: i64) -> i64 {
    -s.abs() * UNIT
}

fn transition(s: i64, a: i64) -> i64 {
    s + a
}

fn line_env(
    initial: i64,
    sampler: Strategy,
    discount: i64,
) -> Result<
    Environment<i64, i64, LineStates, LineActions, fn(i64) -> i64, fn(i64, i64) -> i64>,
    ShikkaError,
> {
    Environment::new(LineStates, LineActions, initial, sampler, discount, reward, transition)
}

#[test]
fn discount_out_of_bounds_is_rejected() {
    let r = line_env(0, Strategy::Custom, -1);
    assert!(matches!(r, Err(ShikkaError::DiscountFactorOutofBounds)));
    let r = line_env(0, Strategy::Custom, UNIT + 1);
    assert!(matches!(r, Err(ShikkaError::DiscountFactorOutofBounds)));
    assert!(line_env(0, Strategy::Custom, 0).is_ok());
    assert!(line_env(0, Strategy::Custom, UNIT).is_ok());
}

#[test]
fn initial_record_is_the_supplied_state() {
    let env = line_env(7, Strategy::Custom, 900_000).unwrap();
    assert_eq!(env.state(), Ok(&7));
    assert_eq!(env.get_last_action(), Ok(&None));
    assert_eq!(env.get_last_reward(), Ok(0));
    assert_eq!(env.env_time(), 0);
    assert_eq!(env.trajectory().len(), 1);
}

#[test]
fn env_time_counts_steps_and_trajectory_grows_by_one() {
    let mut env = line_env(0, Strategy::Custom, 900_000).unwrap();
    let n: u64 = 5;
    for k in 0..n {
        env.step(1).unwrap();
        assert_eq!(env.env_time(), k + 1);
        assert_eq!(env.trajectory().len() as u64, k + 2);
    }
    assert_eq!(env.env_time(), n);
    let t = env.trajectory();
    assert_eq!(t.len() as u64, n + 1);
    for (k, rec) in t.iter().enumerate() {
        assert_eq!(rec.new_state, k as i64);
        if k == 0 {
            assert_eq!(rec.action, None);
        } else {
            assert_eq!(rec.action, Some(1));
        }
    }
}

#[test]
fn two_step_walk_matches_the_worked_scenario() {
    // State space: integers; actions +1 and -1; transition s + a; reward
    // -|s|; discount 0.9; initial state 0.
    let mut env = line_env(0, Strategy::EpsilonGreedy(UNIT, GreedyMode::Reward), 900_000).unwrap();

    env.step(1).unwrap();
    assert_eq!(env.state(), Ok(&1));
    assert_eq!(env.get_last_action(), Ok(&Some(1)));
    assert_eq!(env.get_last_reward(), Ok(-UNIT));
    assert_eq!(env.env_time(), 1);

    env.step(-1).unwrap();
    assert_eq!(env.state(), Ok(&0));
    assert_eq!(env.get_last_action(), Ok(&Some(-1)));
    assert_eq!(env.get_last_reward(), Ok(0));
    assert_eq!(env.env_time(), 2);

    let t = env.trajectory();
    assert_eq!(t.len(), 3);
    assert_eq!((t[0].new_state, t[0].action, t[0].reward), (0, None, 0));
    assert_eq!((t[1].new_state, t[1].action, t[1].reward), (1, Some(1), -UNIT));
    assert_eq!((t[2].new_state, t[2].action, t[2].reward), (0, Some(-1), 0));
}

#[test]
fn cleanup_drains_records_but_keeps_the_counter() {
    let mut env = line_env(0, Strategy::Custom, 900_000).unwrap();
    env.step(1).unwrap();
    env.step(1).unwrap();
    let drained = env.cleanup();
    assert_eq!(drained.len(), 3);
    assert_eq!(env.trajectory().len(), 0);
    // The counter is deliberately not reset by a drain.
    assert_eq!(env.env_time(), 2);
    // With nothing retained, reads and further steps surface the journal
    // error rather than restarting a trajectory.
    assert_eq!(env.state(), Err(ShikkaError::Journal(JournalError::NoData)));
    assert_eq!(env.step(1), Err(ShikkaError::Journal(JournalError::NoData)));
}

#[test]
fn step_fails_once_the_journal_is_full() {
    let mut env = line_env(0, Strategy::Custom, 900_000).unwrap();
    // The initial record occupies one slot.
    for _ in 0..JOURNAL_CAPACITY - 1 {
        env.step(1).unwrap();
    }
    assert_eq!(env.step(1), Err(ShikkaError::Journal(JournalError::StorageExhausted)));
    assert_eq!(env.env_time() as usize, JOURNAL_CAPACITY - 1);
}

#[test]
fn rollout_is_sequentially_chained_and_leaves_the_journal_alone() {
    let env = line_env(0, Strategy::Custom, 900_000).unwrap();
    let out = env.sample_forward_trajectory(4, AlwaysUp).unwrap();
    assert_eq!(out.len(), 4);
    // Custom mode delegates to AlwaysUp, so the rollout climbs one step at
    // a time, chaining off the previous synthetic state.
    for (k, rec) in out.iter().enumerate() {
        assert_eq!(rec.new_state, k as i64 + 1);
        assert_eq!(rec.action, Some(1));
        assert_eq!(rec.reward, -(k as i64 + 1) * UNIT);
    }
    // The committed journal and counter are untouched.
    assert_eq!(env.env_time(), 0);
    assert_eq!(env.trajectory().len(), 1);
    assert_eq!(env.state(), Ok(&0));
}

#[test]
fn rollout_with_zero_horizon_is_empty() {
    let env = line_env(3, Strategy::Custom, 900_000).unwrap();
    let out = env.sample_forward_trajectory(0, AlwaysUp).unwrap();
    assert!(out.is_empty());
}

#[test]
fn rollout_under_reward_greedy_seeks_the_origin() {
    let env = line_env(3, Strategy::EpsilonGreedy(UNIT, GreedyMode::Reward), 900_000).unwrap();
    let out = env.sample_forward_trajectory(3, AlwaysUp).unwrap();
    // Greedy lookahead from 3 walks down to 0: rewards improve toward the
    // origin and the strategy exploits on every draw.
    let states: Vec<i64> = out.iter().map(|r| r.new_state).collect();
    assert_eq!(states, vec![2, 1, 0]);
}

#[test]
fn rollout_under_out_of_bounds_epsilon_fails_with_the_epsilon_error() {
    let env = line_env(0, Strategy::EpsilonGreedy(UNIT + 1, GreedyMode::Reward), 900_000).unwrap();
    let r = env.sample_forward_trajectory(2, AlwaysUp);
    assert!(matches!(r, Err(ShikkaError::EpsilonOutofBounds)));
    // A zero-length rollout never consults the sampler, so even an
    // out-of-bounds epsilon yields the empty success.
    let r = env.sample_forward_trajectory(0, AlwaysUp);
    assert!(r.unwrap().is_empty());
}

#[test]
fn rollout_after_cleanup_surfaces_the_journal_error() {
    let mut env = line_env(0, Strategy::Custom, 900_000).unwrap();
    env.cleanup();
    let r = env.sample_forward_trajectory(2, AlwaysUp);
    assert!(matches!(r, Err(ShikkaError::Journal(JournalError::NoData))));
}

#[test]
fn error_messages_name_their_cause() {
    assert!(ShikkaError::DiscountFactorOutofBounds.message().contains("Discount factor"));
    assert!(ShikkaError::EpsilonOutofBounds.message().contains("epsilon"));
    assert!(ShikkaError::NoValidActionsProvided.message().contains("valid actions"));
    assert!(ShikkaError::Journal(JournalError::NoData).message().contains("journal"));
    assert!(ShikkaError::Fastrand.message().contains("sampling"));
}
