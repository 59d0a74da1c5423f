//! Action-selection strategies.
//!
//! A [`Strategy`] chooses one action out of a candidate list. In
//! epsilon-greedy mode a uniform random fraction is drawn at millionth
//! resolution; a draw below epsilon takes the exploitation branch, which
//! scans the candidates and keeps the first one achieving the greatest
//! score — either the policy's likelihood ([`GreedyMode::Policy`]) or the
//! one-step lookahead reward ([`GreedyMode::Reward`]). Otherwise one
//! candidate is chosen uniformly at random. The custom mode delegates the
//! whole choice to the policy, bypassing the epsilon apparatus entirely.

use vstd::prelude::*;

use crate::actors::Policy;
use crate::error::{ShikkaError, ShikkaResult};

verus! {

/// Scale of the fixed-point unit interval: `UNIT` stands for 1.0, so one
/// unit is a millionth, the resolution of the random exploitation draw.
pub const UNIT: i64 = 1_000_000;

/// Whether a fixed-point fraction lies in the closed unit interval.
pub open spec fn in_unit_interval(x: i64) -> bool {
    0 <= x <= UNIT
}

/// The exploitation coin flip: a draw below epsilon takes the greedy branch.
pub open spec fn exploits(epsilon: i64, draw: i64) -> bool {
    draw < epsilon
}

/// `i` is the position of the first maximum of `s`: no entry is greater,
/// and every earlier entry is strictly smaller.
pub open spec fn is_first_max(s: Seq<i64>, i: int) -> bool {
    &&& 0 <= i < s.len()
    &&& forall|j: int| 0 <= j < s.len() ==> s[j] <= s[i]
    &&& forall|j: int| 0 <= j < i ==> s[j] < s[i]
}

/// `score` is a possible one-step lookahead score of `action` from `state`:
/// some state reachable by the transition function yields it under the
/// reward function.
pub open spec fn score_witnessed<State, Action, R: Fn(State) -> i64, T: Fn(State, Action) -> State>(
    state: State,
    action: Action,
    score: i64,
    reward_fn: R,
    transition_fn: T,
) -> bool {
    exists|next: State|
        #[trigger] call_ensures(transition_fn, (state, action), next) && call_ensures(
            reward_fn,
            (next,),
            score,
        )
}

/// `scores` assigns every candidate a possible one-step lookahead score.
pub open spec fn lookahead_scores_ok<State, Action, R: Fn(State) -> i64, T: Fn(
    State,
    Action,
) -> State>(
    state: State,
    valid: Seq<Action>,
    scores: Seq<i64>,
    reward_fn: R,
    transition_fn: T,
) -> bool {
    &&& scores.len() == valid.len()
    &&& forall|i: int|
        0 <= i < valid.len() ==> #[trigger] score_witnessed(
            state,
            valid[i],
            scores[i],
            reward_fn,
            transition_fn,
        )
}

/// What every epsilon-greedy sampling call promises about its outcome,
/// whatever the random draw turned out to be.
pub open spec fn epsilon_greedy_outcome_ok<Action>(
    epsilon: i64,
    valid: Seq<Action>,
    r: ShikkaResult<Action>,
) -> bool {
    &&& (!in_unit_interval(epsilon) <==> r == Err::<Action, ShikkaError>(
        ShikkaError::EpsilonOutofBounds,
    ))
    &&& (in_unit_interval(epsilon) ==> (valid.len() > 0 <==> r is Ok))
    &&& (r matches Ok(a) ==> valid.contains(a))
    &&& (in_unit_interval(epsilon) && valid.len() == 0 ==> (r == Err::<Action, ShikkaError>(
        ShikkaError::NoValidActionsProvided,
    ) || r == Err::<Action, ShikkaError>(ShikkaError::Fastrand)))
    &&& (epsilon == 0 && valid.len() == 0 ==> r == Err::<Action, ShikkaError>(
        ShikkaError::Fastrand,
    ))
    &&& (epsilon == UNIT && valid.len() == 0 ==> r == Err::<Action, ShikkaError>(
        ShikkaError::NoValidActionsProvided,
    ))
}

/// The first maximum of a sequence sits at exactly one position.
pub proof fn lemma_first_max_unique(s: Seq<i64>, i: int, j: int)
    requires
        is_first_max(s, i),
        is_first_max(s, j),
    ensures
        i == j,
{
    if i < j {
        assert(s[i] < s[j]);
        assert(s[j] <= s[i]);
    }
    if j < i {
        assert(s[j] < s[i]);
        assert(s[i] <= s[j]);
    }
}

/// Tie-break law: when two candidates score exactly equal and no candidate
/// scores higher, greedy selection never settles past the first of the tied
/// pair — the first-listed maximum wins.
pub proof fn lemma_tie_break_first_listed(s: Seq<i64>, i: int, j: int, k: int)
    requires
        0 <= i < j < s.len(),
        s[i] == s[j],
        forall|m: int| 0 <= m < s.len() ==> s[m] <= s[i],
        is_first_max(s, k),
    ensures
        k <= i,
{
    if k > i {
        assert(s[i] < s[k]);
        assert(s[k] <= s[i]);
    }
}

/// Branch-determinism law: the random draw lies in `[0, UNIT)`, so with
/// epsilon equal to `UNIT` the exploitation branch is always taken, and with
/// epsilon equal to zero it never is.
pub proof fn lemma_exploit_determinism(epsilon: i64, draw: i64)
    requires
        0 <= draw < UNIT,
    ensures
        epsilon == UNIT ==> exploits(epsilon, draw),
        epsilon == 0 ==> !exploits(epsilon, draw),
{
}

/// Relies on `fastrand::i64`: a uniform draw from the half-open range
/// handed to it, panicking only on an empty range; `0..UNIT` never is.
#[verifier::external_body]
fn draw_unit_fraction() -> (r: i64)
    ensures
        0 <= r < UNIT,
{
    fastrand::i64(0..UNIT)
}

/// Relies on `fastrand::usize`: a uniform draw from the half-open range
/// handed to it, panicking only on an empty range, which `n > 0` rules out.
#[verifier::external_body]
fn random_index(n: usize) -> (r: usize)
    requires
        n > 0,
    ensures
        r < n,
{
    fastrand::usize(0..n)
}

/// Position of the first entry holding the maximum of `scores`; nothing
/// when `scores` is empty.
pub fn first_argmax(scores: &Vec<i64>) -> (r: Option<usize>)
    ensures
        scores@.len() == 0 <==> r is None,
        r matches Some(i) ==> is_first_max(scores@, i as int),
{
    if scores.len() == 0 {
        return None;
    }
    let mut best: usize = 0;
    let mut i: usize = 1;
    while i < scores.len()
        invariant
            0 < i <= scores@.len(),
            best < i,
            forall|j: int| 0 <= j < i ==> scores@[j] <= scores@[best as int],
            forall|j: int| 0 <= j < best ==> scores@[j] < scores@[best as int],
        decreases scores@.len() - i,
    {
        if scores[i] > scores[best] {
            best = i;
        }
        i += 1;
    }
    Some(best)
}

/// Greedy selection over precomputed scores: the candidate whose score is
/// the first maximum, or the empty-candidate error.
pub fn greedy_from_scores<Action: Copy>(valid: &Vec<Action>, scores: &Vec<i64>) -> (r:
    ShikkaResult<Action>)
    requires
        valid@.len() == scores@.len(),
    ensures
        valid@.len() == 0 <==> r is Err,
        r is Err ==> r == Err::<Action, ShikkaError>(ShikkaError::NoValidActionsProvided),
        forall|i: int| #[trigger]
            is_first_max(scores@, i) ==> r == Ok::<Action, ShikkaError>(valid@[i]),
        valid@.len() > 0 ==> exists|i: int|
            #[trigger] is_first_max(scores@, i) && r == Ok::<Action, ShikkaError>(valid@[i]),
        r matches Ok(a) ==> valid@.contains(a),
{
    let picked = first_argmax(scores);
    match picked {
        None => Err(ShikkaError::NoValidActionsProvided),
        Some(ix) => {
            let a = valid[ix];
            proof {
                assert forall|i: int| #[trigger] is_first_max(scores@, i) implies i == ix as int by {
                    lemma_first_max_unique(scores@, i, ix as int);
                }
                assert(valid@.contains(valid@[ix as int]));
            }
            Ok(a)
        },
    }
}

/// One uniformly random candidate, or the sampling-source error when the
/// candidate list is empty.
pub fn uniform_choice<Action: Copy>(valid: &Vec<Action>) -> (r: ShikkaResult<Action>)
    ensures
        valid@.len() == 0 <==> r is Err,
        r is Err ==> r == Err::<Action, ShikkaError>(ShikkaError::Fastrand),
        r matches Ok(a) ==> valid@.contains(a),
{
    if valid.len() == 0 {
        return Err(ShikkaError::Fastrand);
    }
    let ix = random_index(valid.len());
    let a = valid[ix];
    proof {
        assert(valid@.contains(valid@[ix as int]));
    }
    Ok(a)
}

/// One-step lookahead scores: for each candidate, the reward of the state
/// the transition function reaches from `state` under it.
pub fn reward_scores<State: Copy, Action: Copy, R: Fn(State) -> i64, T: Fn(State, Action) -> State>(
    state: &State,
    valid: &Vec<Action>,
    reward_fn: &R,
    transition_fn: &T,
) -> (scores: Vec<i64>)
    requires
        forall|s: State| #[trigger] call_requires(*reward_fn, (s,)),
        forall|s: State, a: Action| #[trigger] call_requires(*transition_fn, (s, a)),
    ensures
        lookahead_scores_ok(*state, valid@, scores@, *reward_fn, *transition_fn),
{
    let mut scores: Vec<i64> = Vec::new();
    let mut i: usize = 0;
    while i < valid.len()
        invariant
            forall|s: State| #[trigger] call_requires(*reward_fn, (s,)),
            forall|s: State, a: Action| #[trigger] call_requires(*transition_fn, (s, a)),
            i <= valid@.len(),
            scores@.len() == i,
            forall|j: int|
                0 <= j < i ==> #[trigger] score_witnessed(
                    *state,
                    valid@[j],
                    scores@[j],
                    *reward_fn,
                    *transition_fn,
                ),
        decreases valid@.len() - i,
    {
        let next = (*transition_fn)(*state, valid[i]);
        let rew = (*reward_fn)(next);
        scores.push(rew);
        proof {
            assert(call_ensures(*transition_fn, (*state, valid@[i as int]), next));
            assert(score_witnessed(
                *state,
                valid@[i as int],
                scores@[i as int],
                *reward_fn,
                *transition_fn,
            ));
        }
        i += 1;
    }
    scores
}

/// Epsilon-greedy sampling over the policy's likelihood: below-epsilon
/// draws keep the candidate whose likelihood is the first maximum, other
/// draws pick uniformly at random.
pub fn epsilon_greedy_policy<State: Copy, Action: Copy, P: Policy<State, Action>>(
    p: &P,
    state: &State,
    valid: Vec<Action>,
    epsilon: i64,
) -> (r: ShikkaResult<Action>)
    ensures
        epsilon_greedy_outcome_ok(epsilon, valid@, r),
{
    if epsilon < 0 || epsilon > UNIT {
        return Err(ShikkaError::EpsilonOutofBounds);
    }
    let draw = draw_unit_fraction();
    if draw < epsilon {
        if valid.len() == 0 {
            return Err(ShikkaError::NoValidActionsProvided);
        }
        let mut probs: Vec<i64> = Vec::new();
        let mut i: usize = 0;
        while i < valid.len()
            invariant
                i <= valid@.len(),
                probs@.len() == i,
            decreases valid@.len() - i,
        {
            let prob = p.prob(state, &valid[i]);
            probs.push(prob);
            i += 1;
        }
        greedy_from_scores(&valid, &probs)
    } else {
        uniform_choice(&valid)
    }
}

/// Epsilon-greedy sampling over one-step lookahead reward: below-epsilon
/// draws keep the candidate whose lookahead reward is the first maximum,
/// other draws pick uniformly at random.
pub fn epsilon_greedy_reward<State: Copy, Action: Copy, R: Fn(State) -> i64, T: Fn(
    State,
    Action,
) -> State>(
    state: &State,
    valid: Vec<Action>,
    epsilon: i64,
    reward_fn: &R,
    transition_fn: &T,
) -> (r: ShikkaResult<Action>)
    requires
        forall|s: State| #[trigger] call_requires(*reward_fn, (s,)),
        forall|s: State, a: Action| #[trigger] call_requires(*transition_fn, (s, a)),
    ensures
        epsilon_greedy_outcome_ok(epsilon, valid@, r),
        epsilon == UNIT && valid@.len() > 0 ==> exists|scores: Seq<i64>, i: int|
            lookahead_scores_ok(*state, valid@, scores, *reward_fn, *transition_fn)
                && #[trigger] is_first_max(scores, i) && r == Ok::<Action, ShikkaError>(valid@[i]),
{
    if epsilon < 0 || epsilon > UNIT {
        return Err(ShikkaError::EpsilonOutofBounds);
    }
    let draw = draw_unit_fraction();
    if draw < epsilon {
        if valid.len() == 0 {
            return Err(ShikkaError::NoValidActionsProvided);
        }
        let scores = reward_scores(state, &valid, reward_fn, transition_fn);
        let picked = greedy_from_scores(&valid, &scores);
        proof {
            let i = choose|i: int|
                #[trigger] is_first_max(scores@, i) && picked == Ok::<Action, ShikkaError>(
                    valid@[i],
                );
            assert(lookahead_scores_ok(*state, valid@, scores@, *reward_fn, *transition_fn)
                && is_first_max(scores@, i) && picked == Ok::<Action, ShikkaError>(valid@[i]));
        }
        picked
    } else {
        uniform_choice(&valid)
    }
}

/// Which score the exploitation branch of an epsilon-greedy sampler
/// maximizes.
#[derive(Clone, Copy, Debug, PartialEq, Eq, Structural)]
pub enum GreedyMode {
    /// One-step lookahead reward of each candidate.
    Reward,
    /// The policy's own likelihood of each candidate.
    Policy,
}

/// The action-selection strategy of an environment.
pub enum Strategy {
    /// Epsilon-greedy selection: the fixed-point epsilon in `[0, UNIT]` and
    /// the score the exploitation branch maximizes.
    EpsilonGreedy(i64, GreedyMode),
    /// Delegate the whole choice to the policy's own sampling method.
    Custom,
}

impl Strategy {
    /// Chooses one action out of `valid` for `state`, under this strategy.
    pub fn sample<State: Copy, Action: Copy, P: Policy<State, Action>, R: Fn(State) -> i64, T: Fn(
        State,
        Action,
    ) -> State>(
        &self,
        policy: &P,
        state: &State,
        valid: Vec<Action>,
        reward_fn: &R,
        transition_fn: &T,
    ) -> (r: ShikkaResult<Action>)
        requires
            forall|s: State| #[trigger] call_requires(*reward_fn, (s,)),
            forall|s: State, a: Action| #[trigger] call_requires(*transition_fn, (s, a)),
        ensures
            self matches Strategy::EpsilonGreedy(eps, mode) ==> epsilon_greedy_outcome_ok(
                *eps,
                valid@,
                r,
            ),
            self matches Strategy::EpsilonGreedy(eps, GreedyMode::Reward) && *eps == UNIT
                && valid@.len() > 0 ==> exists|scores: Seq<i64>, i: int|
                lookahead_scores_ok(*state, valid@, scores, *reward_fn, *transition_fn)
                    && #[trigger] is_first_max(scores, i) && r == Ok::<Action, ShikkaError>(
                    valid@[i],
                ),
            self matches Strategy::Custom ==> r is Ok,
    {
        match self {
            Strategy::EpsilonGreedy(epsilon, mode) => match mode {
                GreedyMode::Reward => epsilon_greedy_reward(
                    state,
                    valid,
                    *epsilon,
                    reward_fn,
                    transition_fn,
                ),
                GreedyMode::Policy => epsilon_greedy_policy(policy, state, valid, *epsilon),
            },
            Strategy::Custom => Ok(policy.sample(state, valid)),
        }
    }
}

} // verus!
