//! The environment execution engine.
//!
//! An [`Environment`] owns a trajectory journal, a discount factor, the
//! caller's reward and transition functions, one state-space and one
//! action-space capability, and an action-selection [`Strategy`]. It drives
//! single-step transitions — each appending exactly one trajectory record —
//! and multi-step forward rollouts that never touch the committed journal.

use vstd::prelude::*;

use crate::actors::Policy;
use crate::error::{JournalError, ShikkaError, ShikkaResult};
use crate::journal::Journal;
use crate::sampler::{in_unit_interval, Strategy, UNIT};

verus! {

/// Number of trajectory records an environment's journal can retain.
pub const JOURNAL_CAPACITY: usize = 512;

/// A caller-supplied action space: the moves available in each state.
pub trait ActionSpace<State, Action> {
    /// Draws one random member of the space.
    fn sample(&self) -> Action;

    /// The actions that may be taken from `state`.
    fn valid(&self, state: &State) -> Vec<Action>;

    /// Whether `action` is a member of the space.
    fn contains(&self, action: &Action) -> bool;
}

/// A caller-supplied state space: the configurations the environment can be
/// in.
pub trait StateSpace<State, Action> {
    /// Draws one random member of the space.
    fn sample(&self) -> State;

    /// The states reachable under the given actions.
    fn reachable(&self, actions: &[Action]) -> Vec<State>;

    /// Whether `state` is a member of the space.
    fn contains(&self, state: &State) -> bool;
}

/// One trajectory record: the state reached, the action that produced it —
/// absent only for the record written at environment initialization — and
/// the fixed-point reward of the reached state.
#[derive(Clone, Copy, Debug)]
pub struct EnvLog<State, Action> {
    /// State after the transition.
    pub new_state: State,
    /// Fixed-point reward (millionths) associated with `new_state`.
    pub reward: i64,
    /// Action that produced `new_state`; absent only for the initial record.
    pub action: Option<Action>,
}

impl<State: Copy, Action: Copy> EnvLog<State, Action> {
    fn new(new_state: State, action: Option<Action>, reward: i64) -> (r: Self)
        ensures
            r.new_state == new_state,
            r.action == action,
            r.reward == reward,
    {
        EnvLog { new_state, action, reward }
    }

    /// A record for a taken step: the action is always present.
    pub fn log(new_state: State, action: Action, reward: i64) -> (r: Self)
        ensures
            r.new_state == new_state,
            r.action == Some(action),
            r.reward == reward,
    {
        Self::new(new_state, Some(action), reward)
    }

    /// The record written at initialization: no action, zero reward.
    pub fn init(state: State) -> (r: Self)
        ensures
            r.new_state == state,
            r.action is None,
            r.reward == 0,
    {
        Self::new(state, None, 0)
    }
}

/// The shape every committed trajectory keeps: the record written at
/// initialization carries no action and zero reward, and every record after
/// it carries the action that produced it.
pub open spec fn trajectory_well_formed<State, Action>(recs: Seq<EnvLog<State, Action>>) -> bool {
    &&& recs.len() > 0 ==> recs[0].action is None && recs[0].reward == 0
    &&& forall|i: int| 1 <= i < recs.len() ==> (#[trigger] recs[i]).action is Some
}

/// A forward rollout chained off `root`: every record holds an action, its
/// state is a possible transition from the previous record's state (from
/// `root` for the first), and its reward is a possible reward of that state.
pub open spec fn rollout_chained<State, Action, F: Fn(State) -> i64, T: Fn(State, Action) -> State>(
    root: State,
    recs: Seq<EnvLog<State, Action>>,
    reward_fn: F,
    transition_fn: T,
) -> bool
    decreases recs.len(),
{
    recs.len() == 0 || {
        let prev = if recs.len() == 1 {
            root
        } else {
            recs[recs.len() - 2].new_state
        };
        &&& rollout_chained(root, recs.drop_last(), reward_fn, transition_fn)
        &&& recs.last().action matches Some(a) && call_ensures(
            transition_fn,
            (prev, a),
            recs.last().new_state,
        )
        &&& call_ensures(reward_fn, (recs.last().new_state,), recs.last().reward)
    }
}

/// A history of counter readings and trajectory lengths as construction
/// and successful steps leave them: the counter starts at zero beside one
/// record, and each step raises both by exactly one — the relations
/// `Environment::new` and `Environment::step` ensure.
pub open spec fn step_history(counters: Seq<int>, lens: Seq<int>) -> bool {
    &&& counters.len() == lens.len()
    &&& counters.len() > 0
    &&& counters[0] == 0
    &&& lens[0] == 1
    &&& forall|k: int|
        #![trigger counters[k]]
        #![trigger lens[k]]
        1 <= k < counters.len() ==> counters[k] == counters[k - 1] + 1 && lens[k] == lens[k - 1]
            + 1
}

proof fn lemma_counts_from_steps(counters: Seq<int>, lens: Seq<int>, i: int)
    requires
        step_history(counters, lens),
        0 <= i < counters.len(),
    ensures
        counters[i] == i,
        lens[i] == i + 1,
    decreases i,
{
    if i > 0 {
        lemma_counts_from_steps(counters, lens, i - 1);
        assert(counters[i] == counters[i - 1] + 1 && lens[i] == lens[i - 1] + 1);
    }
}

/// Step-monotonicity law: along any history of counter readings and
/// trajectory lengths that construction and successful steps produce, the
/// counter after the `n`-th step reads `n` and the trajectory holds `n + 1`
/// records.
pub proof fn lemma_step_monotonicity(counters: Seq<int>, lens: Seq<int>)
    requires
        step_history(counters, lens),
    ensures
        forall|i: int| 0 <= i < counters.len() ==> counters[i] == i && #[trigger] lens[i] == i + 1,
{
    assert forall|i: int| 0 <= i < counters.len() implies counters[i] == i && #[trigger] lens[i]
        == i + 1 by {
        lemma_counts_from_steps(counters, lens, i);
    }
}

/// The environment execution engine.
#[verifier::reject_recursive_types(State)]
#[verifier::reject_recursive_types(Action)]
pub struct Environment<State, Action, SSp, ASp, F, T> where
    State: Copy,
    Action: Copy,
    SSp: StateSpace<State, Action>,
    ASp: ActionSpace<State, Action>,
    F: Fn(State) -> i64,
    T: Fn(State, Action) -> State,
 {
    /// The action-space capability, exclusively owned.
    pub action_space: ASp,
    /// The state-space capability, exclusively owned.
    pub state_space: SSp,
    /// The action-selection strategy used for rollouts.
    pub sampler: Strategy,
    /// The trajectory journal, exclusively owned.
    pub logs: Journal<EnvLog<State, Action>>,
    /// Discount factor in fixed-point millionths, within `[0, UNIT]`.
    pub discount: i64,
    /// Pure reward function: fixed-point reward of a state.
    pub reward_fn: F,
    /// Pure transition function: next state under an action.
    pub transition_fn: T,
    /// Number of steps taken so far; not reset by `cleanup`.
    pub step_counter: u64,
}

impl<State, Action, SSp, ASp, F, T> Environment<State, Action, SSp, ASp, F, T> where
    State: Copy,
    Action: Copy,
    SSp: StateSpace<State, Action>,
    ASp: ActionSpace<State, Action>,
    F: Fn(State) -> i64,
    T: Fn(State, Action) -> State,
 {
    /// The retained trajectory records, oldest first.
    pub open spec fn records(&self) -> Seq<EnvLog<State, Action>> {
        self.logs.records()
    }

    /// The most recently written record: the environment's current position.
    pub open spec fn latest(&self) -> EnvLog<State, Action> {
        self.records().last()
    }

    /// Well-formedness: the journal has the constructed capacity, the
    /// discount lies in the unit interval, and the reward and transition
    /// functions accept every state and action.
    pub open spec fn wf(&self) -> bool {
        &&& self.logs.wf()
        &&& self.logs.cap() == JOURNAL_CAPACITY as int
        &&& in_unit_interval(self.discount)
        &&& forall|s: State| #[trigger] call_requires(self.reward_fn, (s,))
        &&& forall|s: State, a: Action| #[trigger] call_requires(self.transition_fn, (s, a))
    }

    /// The step counter matches the journal: one initial record plus one
    /// record per step taken. Construction establishes this and stepping
    /// preserves it; `cleanup` deliberately breaks it, since it empties the
    /// journal without resetting the counter.
    pub open spec fn synced(&self) -> bool {
        self.records().len() == self.step_counter + 1
    }

    /// Builds an environment over the given spaces and dynamics, writing the
    /// initial state as record zero. Refused, with nothing built, when the
    /// discount factor lies outside the unit interval.
    pub fn new(
        states: SSp,
        actions: ASp,
        initial_state: State,
        sampler: Strategy,
        discount: i64,
        reward_fn: F,
        transition_fn: T,
    ) -> (r: ShikkaResult<Self>)
        requires
            forall|s: State| #[trigger] call_requires(reward_fn, (s,)),
            forall|s: State, a: Action| #[trigger] call_requires(transition_fn, (s, a)),
        ensures
            !in_unit_interval(discount) <==> r is Err,
            r matches Err(e) ==> e == ShikkaError::DiscountFactorOutofBounds,
            r matches Ok(env) ==> {
                &&& env.wf()
                &&& env.synced()
                &&& env.step_counter == 0
                &&& env.discount == discount
                &&& env.sampler == sampler
                &&& env.reward_fn == reward_fn
                &&& env.transition_fn == transition_fn
                &&& env.state_space == states
                &&& env.action_space == actions
                &&& env.logs.entries_seq().len() == 1
                &&& env.logs.entries_seq()[0].1 == 0
                &&& env.records().len() == 1
                &&& env.latest().new_state == initial_state
                &&& env.latest().action is None
                &&& env.latest().reward == 0
                &&& trajectory_well_formed(env.records())
            },
    {
        if discount < 0 || discount > UNIT {
            return Err(ShikkaError::DiscountFactorOutofBounds);
        }
        let mut logs: Journal<EnvLog<State, Action>> = Journal::init(JOURNAL_CAPACITY);
        let init_rec = EnvLog::<State, Action>::init(initial_state);
        let _ = logs.write(init_rec, 0);
        proof {
            assert(logs.records() =~= seq![init_rec]);
        }
        Ok(
            Environment {
                state_space: states,
                action_space: actions,
                sampler,
                logs,
                discount,
                reward_fn,
                transition_fn,
                step_counter: 0,
            },
        )
    }

    /// The current state: the state of the latest record. Fails only when
    /// the journal retains nothing, which construction rules out until a
    /// cleanup drains it.
    pub fn state(&self) -> (r: ShikkaResult<&State>)
        ensures
            self.records().len() > 0 <==> r is Ok,
            r matches Ok(s) ==> *s == self.latest().new_state,
            r matches Err(e) ==> e == ShikkaError::Journal(JournalError::NoData),
    {
        match self.logs.read_state() {
            Ok(rec) => Ok(&rec.new_state),
            Err(e) => Err(ShikkaError::Journal(e)),
        }
    }

    /// The action of the latest record; absent only at step zero.
    pub fn get_last_action(&self) -> (r: ShikkaResult<&Option<Action>>)
        ensures
            self.records().len() > 0 <==> r is Ok,
            r matches Ok(a) ==> *a == self.latest().action,
            r matches Err(e) ==> e == ShikkaError::Journal(JournalError::NoData),
    {
        match self.logs.read_state() {
            Ok(rec) => Ok(&rec.action),
            Err(e) => Err(ShikkaError::Journal(e)),
        }
    }

    /// The reward of the latest record.
    pub fn get_last_reward(&self) -> (r: ShikkaResult<i64>)
        ensures
            self.records().len() > 0 <==> r is Ok,
            r matches Ok(x) ==> x == self.latest().reward,
            r matches Err(e) ==> e == ShikkaError::Journal(JournalError::NoData),
    {
        match self.logs.read_state() {
            Ok(rec) => Ok(rec.reward),
            Err(e) => Err(ShikkaError::Journal(e)),
        }
    }

    /// The number of steps taken so far.
    pub fn env_time(&self) -> (r: u64)
        ensures
            r == self.step_counter,
    {
        self.step_counter
    }

    /// Takes one step under `action`: reads the current state, computes the
    /// next state and its reward, appends exactly one record, and increments
    /// the step counter. No membership check is made on `action` — callers
    /// validate it against the action space beforehand.
    pub fn step(&mut self, action: Action) -> (r: ShikkaResult<()>)
        requires
            old(self).wf(),
            old(self).step_counter < u64::MAX,
        ensures
            final(self).wf(),
            final(self).discount == old(self).discount,
            final(self).sampler == old(self).sampler,
            final(self).reward_fn == old(self).reward_fn,
            final(self).transition_fn == old(self).transition_fn,
            final(self).state_space == old(self).state_space,
            final(self).action_space == old(self).action_space,
            old(self).records().len() == 0 ==> r == Err::<(), ShikkaError>(
                ShikkaError::Journal(JournalError::NoData),
            ) && *final(self) == *old(self),
            old(self).records().len() == JOURNAL_CAPACITY as int ==> r == Err::<(), ShikkaError>(
                ShikkaError::Journal(JournalError::StorageExhausted),
            ) && *final(self) == *old(self),
            0 < old(self).records().len() < JOURNAL_CAPACITY as int ==> {
                &&& r is Ok
                &&& final(self).step_counter == old(self).step_counter + 1
                &&& final(self).records() == old(self).records().push(final(self).latest())
                &&& final(self).logs.entries_seq() == old(self).logs.entries_seq().push(
                    (final(self).latest(), old(self).step_counter),
                )
                &&& final(self).latest().action == Some(action)
                &&& call_ensures(
                    old(self).transition_fn,
                    (old(self).latest().new_state, action),
                    final(self).latest().new_state,
                )
                &&& call_ensures(
                    old(self).reward_fn,
                    (final(self).latest().new_state,),
                    final(self).latest().reward,
                )
            },
            old(self).synced() && r is Ok ==> final(self).synced(),
            trajectory_well_formed(old(self).records()) ==> trajectory_well_formed(
                final(self).records(),
            ),
    {
        let current: State = match self.logs.read_state() {
            Ok(rec) => rec.new_state,
            Err(e) => {
                return Err(ShikkaError::Journal(e));
            },
        };
        let new_state = (self.transition_fn)(current, action);
        let reward = (self.reward_fn)(new_state);
        let rec = EnvLog::log(new_state, action, reward);
        match self.logs.write(rec, self.step_counter) {
            Ok(_) => {},
            Err(e) => {
                return Err(ShikkaError::Journal(e));
            },
        }
        proof {
            assert(self.logs.records() =~= old(self).logs.records().push(rec));
        }
        self.step_counter = self.step_counter + 1;
        Ok(())
    }

    /// All records currently retained by the journal, oldest first, without
    /// touching the step counter.
    pub fn trajectory(&self) -> (r: Vec<EnvLog<State, Action>>)
        ensures
            r@ == self.records(),
    {
        let all = self.logs.read_all();
        let mut out: Vec<EnvLog<State, Action>> = Vec::new();
        let mut i: usize = 0;
        while i < all.len()
            invariant
                i <= all@.len(),
                all@ == self.logs.entries_seq(),
                out@.len() == i,
                forall|j: int| 0 <= j < i ==> out@[j] == self.records()[j],
            decreases all@.len() - i,
        {
            let e = all[i];
            out.push(e.0);
            i += 1;
        }
        proof {
            assert(out@ =~= self.records());
        }
        out
    }

    /// Drains and returns all records, oldest first, leaving the journal
    /// empty. The step counter is deliberately not reset, so a later step
    /// fails with the journal's no-data error rather than restarting a
    /// trajectory at a stale index.
    pub fn cleanup(&mut self) -> (r: Vec<EnvLog<State, Action>>)
        ensures
            r@ == old(self).records(),
            final(self).records().len() == 0,
            final(self).step_counter == old(self).step_counter,
            final(self).discount == old(self).discount,
            final(self).sampler == old(self).sampler,
            final(self).reward_fn == old(self).reward_fn,
            final(self).transition_fn == old(self).transition_fn,
            final(self).state_space == old(self).state_space,
            final(self).action_space == old(self).action_space,
            old(self).wf() ==> final(self).wf(),
    {
        let drained = self.logs.cleanup();
        let mut out: Vec<EnvLog<State, Action>> = Vec::new();
        let mut i: usize = 0;
        while i < drained.len()
            invariant
                i <= drained@.len(),
                drained@ == old(self).logs.entries_seq(),
                out@.len() == i,
                forall|j: int| 0 <= j < i ==> out@[j] == old(self).records()[j],
            decreases drained@.len() - i,
        {
            let e = drained[i];
            out.push(e.0);
            i += 1;
        }
        proof {
            assert(out@ =~= old(self).records());
        }
        out
    }

    /// Samples a hypothetical forward trajectory of `horizon` steps under
    /// `policy`, without mutating the journal or the step counter. The
    /// rollout is rooted at the committed current state and chains
    /// sequentially: each later step transitions from the previous synthetic
    /// record's state.
    #[verifier::rlimit(60)]
    pub fn sample_forward_trajectory<P: Policy<State, Action>>(
        &self,
        horizon: usize,
        policy: P,
    ) -> (r: ShikkaResult<Vec<EnvLog<State, Action>>>)
        requires
            self.wf(),
        ensures
            r matches Ok(v) ==> v@.len() == horizon,
            horizon == 0 ==> r is Ok,
            horizon > 0 ==> (self.records().len() > 0 <==> !(r == Err::<
                Vec<EnvLog<State, Action>>,
                ShikkaError,
            >(ShikkaError::Journal(JournalError::NoData)))),
            r is Err ==> r == Err::<Vec<EnvLog<State, Action>>, ShikkaError>(
                ShikkaError::Journal(JournalError::NoData),
            ) || r == Err::<Vec<EnvLog<State, Action>>, ShikkaError>(
                ShikkaError::EpsilonOutofBounds,
            ) || r == Err::<Vec<EnvLog<State, Action>>, ShikkaError>(
                ShikkaError::NoValidActionsProvided,
            ) || r == Err::<Vec<EnvLog<State, Action>>, ShikkaError>(ShikkaError::Fastrand),
            self.sampler matches Strategy::Custom ==> (r is Ok || r == Err::<
                Vec<EnvLog<State, Action>>,
                ShikkaError,
            >(ShikkaError::Journal(JournalError::NoData))),
            self.sampler matches Strategy::Custom && self.records().len() > 0 ==> r is Ok,
            horizon > 0 && self.records().len() > 0 && (self.sampler matches Strategy::EpsilonGreedy(
                eps,
                _,
            ) && !in_unit_interval(eps)) ==> r == Err::<Vec<EnvLog<State, Action>>, ShikkaError>(
                ShikkaError::EpsilonOutofBounds,
            ),
            self.sampler matches Strategy::EpsilonGreedy(eps, _) && in_unit_interval(eps) ==> !(r
                == Err::<Vec<EnvLog<State, Action>>, ShikkaError>(ShikkaError::EpsilonOutofBounds)),
            r matches Ok(v) ==> (horizon > 0 ==> rollout_chained(
                self.latest().new_state,
                v@,
                self.reward_fn,
                self.transition_fn,
            )),
    {
        let mut out: Vec<EnvLog<State, Action>> = Vec::new();
        if horizon == 0 {
            return Ok(out);
        }
        let mut current: State = match self.state() {
            Ok(s) => *s,
            Err(e) => {
                return Err(e);
            },
        };
        let mut i: usize = 0;
        while i < horizon
            invariant
                self.wf(),
                self.records().len() > 0,
                i <= horizon,
                out@.len() == i,
                rollout_chained(
                    self.latest().new_state,
                    out@,
                    self.reward_fn,
                    self.transition_fn,
                ),
                current == if i == 0 {
                    self.latest().new_state
                } else {
                    out@.last().new_state
                },
                self.sampler matches Strategy::EpsilonGreedy(eps, _) && !in_unit_interval(eps)
                    ==> i == 0,
            decreases horizon - i,
        {
            let valid = self.action_space.valid(&current);
            let action = match self.sampler.sample(
                &policy,
                &current,
                valid,
                &self.reward_fn,
                &self.transition_fn,
            ) {
                Ok(a) => a,
                Err(e) => {
                    return Err(e);
                },
            };
            let ghost prefix = out@;
            current = (self.transition_fn)(current, action);
            let reward = (self.reward_fn)(current);
            out.push(EnvLog::new(current, Some(action), reward));
            proof {
                assert(out@.drop_last() =~= prefix);
            }
            i += 1;
        }
        Ok(out)
    }
}

} // verus!
