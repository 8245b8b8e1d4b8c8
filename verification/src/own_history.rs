//! The full-history information set: every encounter report is retained in
//! chronological order, with an action-pair tally and a cached cumulative
//! payoff kept in lockstep.  Well-formedness ties the three together: each
//! tally cell counts exactly the rounds with the matching action pair and the
//! cache equals the summed table rewards of the whole history.

use vstd::prelude::*;
use crate::domain::{
    AgentNum, AsUsize, ClassicAction, ClassicGameError, ClassicGameUpdate, Cooperate, Defect,
    EncounterReport, IntReward, TensorRepresentationError, UsizeAgentId,
};
use crate::payoff::{ActionCounter, VerboseReward};
use crate::reward_table::AsymmetricRewardTableInt;

verus! {

/// Number of rounds of `s` where the agent played `own` and the opponent
/// played `other`.
pub open spec fn count_pair_rounds<ID: UsizeAgentId>(
    s: Seq<EncounterReport<ID>>,
    own: ClassicAction,
    other: ClassicAction,
) -> int
    decreases s.len(),
{
    if s.len() == 0 {
        0
    } else {
        let rest = count_pair_rounds(s.drop_last(), own, other);
        if s.last().own_action == own && s.last().other_player_action == other {
            rest + 1
        } else {
            rest
        }
    }
}

/// Number of rounds of `s` where the agent itself played `action`.
pub open spec fn count_own_rounds<ID: UsizeAgentId>(
    s: Seq<EncounterReport<ID>>,
    action: ClassicAction,
) -> int
    decreases s.len(),
{
    if s.len() == 0 {
        0
    } else {
        let rest = count_own_rounds(s.drop_last(), action);
        if s.last().own_action == action {
            rest + 1
        } else {
            rest
        }
    }
}

/// Number of rounds of `s` where the opponent played `action`.
pub open spec fn count_other_rounds<ID: UsizeAgentId>(
    s: Seq<EncounterReport<ID>>,
    action: ClassicAction,
) -> int
    decreases s.len(),
{
    if s.len() == 0 {
        0
    } else {
        let rest = count_other_rounds(s.drop_last(), action);
        if s.last().other_player_action == action {
            rest + 1
        } else {
            rest
        }
    }
}

/// The summed table reward of every round of `s`.
pub open spec fn total_reward<ID: UsizeAgentId>(
    s: Seq<EncounterReport<ID>>,
    table: AsymmetricRewardTableInt,
) -> int
    decreases s.len(),
{
    if s.len() == 0 {
        0
    } else {
        total_reward(s.drop_last(), table) + s.last().reward_spec(table)
    }
}

/// A pair count never goes below zero nor above the number of rounds.
pub proof fn lemma_count_pair_rounds_bounds<ID: UsizeAgentId>(
    s: Seq<EncounterReport<ID>>,
    own: ClassicAction,
    other: ClassicAction,
)
    ensures
        0 <= count_pair_rounds(s, own, other) <= s.len(),
    decreases s.len(),
{
    if s.len() > 0 {
        lemma_count_pair_rounds_bounds(s.drop_last(), own, other);
    }
}

/// Appending a report raises exactly the matching pair count by one.
proof fn lemma_count_pair_push<ID: UsizeAgentId>(
    s: Seq<EncounterReport<ID>>,
    x: EncounterReport<ID>,
    own: ClassicAction,
    other: ClassicAction,
)
    ensures
        x.own_action == own && x.other_player_action == other ==> count_pair_rounds(
            s.push(x),
            own,
            other,
        ) == count_pair_rounds(s, own, other) + 1,
        !(x.own_action == own && x.other_player_action == other) ==> count_pair_rounds(
            s.push(x),
            own,
            other,
        ) == count_pair_rounds(s, own, other),
{
    assert(s.push(x).drop_last() =~= s);
    assert(s.push(x).last() == x);
}

/// Appending a report adds exactly its own table reward to the total.
proof fn lemma_total_reward_push<ID: UsizeAgentId>(
    s: Seq<EncounterReport<ID>>,
    x: EncounterReport<ID>,
    table: AsymmetricRewardTableInt,
)
    ensures
        total_reward(s.push(x), table) == total_reward(s, table) + x.reward_spec(table),
{
    assert(s.push(x).drop_last() =~= s);
    assert(s.push(x).last() == x);
}

/// The four pair counts partition the history: over any report sequence they
/// sum to the number of rounds.
pub proof fn lemma_pair_counts_partition<ID: UsizeAgentId>(s: Seq<EncounterReport<ID>>)
    ensures
        count_pair_rounds(s, ClassicAction::Up, ClassicAction::Up) + count_pair_rounds(
            s,
            ClassicAction::Up,
            ClassicAction::Down,
        ) + count_pair_rounds(s, ClassicAction::Down, ClassicAction::Up) + count_pair_rounds(
            s,
            ClassicAction::Down,
            ClassicAction::Down,
        ) == s.len(),
    decreases s.len(),
{
    if s.len() > 0 {
        lemma_pair_counts_partition(s.drop_last());
    }
}

/// The per-action scans are the marginals of the pair counts: summing a
/// pair count over one axis gives the count of the other axis's action.
pub proof fn lemma_pair_counts_marginals<ID: UsizeAgentId>(
    s: Seq<EncounterReport<ID>>,
    action: ClassicAction,
)
    ensures
        count_own_rounds(s, action) == count_pair_rounds(s, action, ClassicAction::Up)
            + count_pair_rounds(s, action, ClassicAction::Down),
        count_other_rounds(s, action) == count_pair_rounds(s, ClassicAction::Up, action)
            + count_pair_rounds(s, ClassicAction::Down, action),
    decreases s.len(),
{
    if s.len() > 0 {
        lemma_pair_counts_marginals(s.drop_last(), action);
    }
}

/// Per-agent state that retains the whole encounter history, an action-pair
/// tally and a cached cumulative payoff, the latter two always consistent
/// with the former (`wf`).
#[derive(Clone, Debug)]
pub struct OwnHistoryInfoSet<ID: UsizeAgentId> {
    id: ID,
    previous_encounters: Vec<EncounterReport<ID>>,
    reward_table: AsymmetricRewardTableInt,
    count_actions: ActionCounter,
    cache_table_payoff: IntReward,
}

/// The full-history information set of an agent in a numbered population.
pub type OwnHistoryInfoSetNumbered = OwnHistoryInfoSet<AgentNum>;

impl<ID: UsizeAgentId> OwnHistoryInfoSet<ID> {
    /// The fixed agent id.
    pub closed spec fn id_spec(self) -> ID {
        self.id
    }

    /// The chronological sequence of reports received so far.
    pub closed spec fn history(self) -> Seq<EncounterReport<ID>> {
        self.previous_encounters@
    }

    /// The shared reward table.
    pub closed spec fn table_spec(self) -> AsymmetricRewardTableInt {
        self.reward_table
    }

    /// The action-pair tally kept in lockstep with the history.
    pub closed spec fn counter_spec(self) -> ActionCounter {
        self.count_actions
    }

    /// The cached cumulative table payoff.
    pub closed spec fn cached_payoff_spec(self) -> IntReward {
        self.cache_table_payoff
    }

    /// Well-formedness: every tally cell counts exactly the rounds with the
    /// matching `(own, other)` pair, and the cache equals the summed reward
    /// of the whole history.  Constructors establish it and `update`
    /// preserves it.
    pub open spec fn wf(self) -> bool {
        &&& forall|own: ClassicAction, other: ClassicAction|
            #[trigger] self.counter_spec().cell(own, other) == count_pair_rounds(
                self.history(),
                own,
                other,
            )
        &&& self.cached_payoff_spec() == total_reward(self.history(), self.table_spec())
    }

    /// The index this agent looks its own report up at.
    pub open spec fn index_spec(self) -> int {
        self.id_spec().as_usize_spec() as int
    }

    /// This agent's entry of `update` (meaningful when its index is in
    /// range).
    pub open spec fn update_report_spec(self, update: ClassicGameUpdate<ID>) -> EncounterReport<
        ID,
    > {
        update.encounters@[self.index_spec()]
    }

    /// The reward this agent's entry of `update` would add, if present.
    pub open spec fn update_reward_spec(self, update: ClassicGameUpdate<ID>) -> IntReward {
        self.update_report_spec(update).reward_spec(self.table_spec())
    }

    /// Fresh state for an agent: empty history, zero tally, zero cache.
    pub fn new(id: ID, reward_table: AsymmetricRewardTableInt) -> (r: Self)
        ensures
            r.id_spec() == id,
            r.table_spec() == reward_table,
            r.history() =~= Seq::<EncounterReport<ID>>::empty(),
            r.counter_spec() == ActionCounter::zero_spec(),
            r.cached_payoff_spec() == 0,
            r.wf(),
    {
        Self {
            id,
            reward_table,
            previous_encounters: Vec::new(),
            count_actions: ActionCounter::zero(),
            cache_table_payoff: 0,
        }
    }

    /// Clears history, tally and cache back to the initial zero state; the
    /// agent id and the reward table survive.
    pub fn reset(&mut self)
        ensures
            final(self).id_spec() == old(self).id_spec(),
            final(self).table_spec() == old(self).table_spec(),
            final(self).history() =~= Seq::<EncounterReport<ID>>::empty(),
            final(self).counter_spec() == ActionCounter::zero_spec(),
            final(self).cached_payoff_spec() == 0,
            final(self).wf(),
    {
        self.previous_encounters = Vec::new();
        self.count_actions = ActionCounter::zero();
        self.cache_table_payoff = 0;
    }

    /// Episode-boundary renewal behaves exactly like `reset`.
    pub fn renew_from(&mut self, _base: ())
        ensures
            final(self).id_spec() == old(self).id_spec(),
            final(self).table_spec() == old(self).table_spec(),
            final(self).history() =~= Seq::<EncounterReport<ID>>::empty(),
            final(self).counter_spec() == ActionCounter::zero_spec(),
            final(self).cached_payoff_spec() == 0,
            final(self).wf(),
    {
        self.reset();
    }

    /// The reports received so far, oldest first.
    pub fn previous_encounters(&self) -> (r: &Vec<EncounterReport<ID>>)
        ensures
            r@ == self.history(),
    {
        &self.previous_encounters
    }

    /// Counts the agent's own plays of `action` by scanning the raw history
    /// (independent of the cached tally).
    pub fn count_actions_self_calculate(&self, action: ClassicAction) -> (r: usize)
        ensures
            r == count_own_rounds(self.history(), action),
    {
        let n = self.previous_encounters.len();
        let mut count: usize = 0;
        let mut i: usize = 0;
        while i < n
            invariant
                i <= n,
                n == self.history().len(),
                count <= i,
                count == count_own_rounds(self.history().take(i as int), action),
            decreases n - i,
        {
            proof {
                assert(self.history().take(i + 1).drop_last() =~= self.history().take(i as int));
                assert(self.history().take(i + 1).last() == self.history()[i as int]);
            }
            if self.previous_encounters[i].own_action == action {
                count = count + 1;
            }
            i = i + 1;
        }
        proof {
            assert(self.history().take(n as int) =~= self.history());
        }
        count
    }

    /// Counts the opponent's plays of `action` by scanning the raw history.
    pub fn count_actions_other(&self, action: ClassicAction) -> (r: usize)
        ensures
            r == count_other_rounds(self.history(), action),
    {
        let n = self.previous_encounters.len();
        let mut count: usize = 0;
        let mut i: usize = 0;
        while i < n
            invariant
                i <= n,
                n == self.history().len(),
                count <= i,
                count == count_other_rounds(self.history().take(i as int), action),
            decreases n - i,
        {
            proof {
                assert(self.history().take(i + 1).drop_last() =~= self.history().take(i as int));
                assert(self.history().take(i + 1).last() == self.history()[i as int]);
            }
            if self.previous_encounters[i].other_player_action == action {
                count = count + 1;
            }
            i = i + 1;
        }
        proof {
            assert(self.history().take(n as int) =~= self.history());
        }
        count
    }

    /// The shared reward table the history is scored against.
    pub fn reward_table(&self) -> (r: &AsymmetricRewardTableInt)
        ensures
            *r == self.table_spec(),
    {
        &self.reward_table
    }

    /// The cached action-pair tally.
    pub fn action_counter(&self) -> (r: &ActionCounter)
        ensures
            *r == self.counter_spec(),
    {
        &self.count_actions
    }

    pub fn agent_id(&self) -> (r: &ID)
        ensures
            *r == self.id_spec(),
    {
        &self.id
    }

    /// Both actions are legal every round; no masking happens at this layer.
    pub fn is_action_valid(&self, _action: &ClassicAction) -> (r: bool)
        ensures
            r,
    {
        true
    }

    /// Folds this round's report into the state: appends it to the history,
    /// routes its action pair into the tally, and adds its table reward to
    /// the cached payoff — all or nothing.  If the update carries no entry
    /// for this agent's index, the state is left exactly as it was and the
    /// missing-data error is returned.
    pub fn update(&mut self, update: ClassicGameUpdate<ID>) -> (r: Result<
        (),
        ClassicGameError<ID>,
    >)
        requires
            old(self).wf(),
            old(self).history().len() < i64::MAX,
            old(self).index_spec() < update.encounters@.len() ==> i64::MIN <= old(
                self,
            ).cached_payoff_spec() + old(self).update_reward_spec(update) <= i64::MAX,
        ensures
            final(self).id_spec() == old(self).id_spec(),
            final(self).table_spec() == old(self).table_spec(),
            final(self).wf(),
            old(self).index_spec() < update.encounters@.len() ==> {
                &&& r == Ok::<(), ClassicGameError<ID>>(())
                &&& final(self).history() =~= old(self).history().push(
                    old(self).update_report_spec(update),
                )
                &&& final(self).cached_payoff_spec() == old(self).cached_payoff_spec() + old(
                    self,
                ).update_reward_spec(update)
            },
            old(self).index_spec() >= update.encounters@.len() ==> {
                &&& r == Err::<(), ClassicGameError<ID>>(
                    ClassicGameError::EncounterNotReported(
                        old(self).id_spec().as_usize_spec() as u32,
                    ),
                )
                &&& *final(self) == *old(self)
            },
    {
        let idx = self.id.as_usize();
        if idx < update.encounters.len() {
            let report = update.encounters[idx];
            proof {
                lemma_count_pair_rounds_bounds(
                    self.previous_encounters@,
                    report.own_action,
                    report.other_player_action,
                );
                assert(self.counter_spec().cell(report.own_action, report.other_player_action)
                    == count_pair_rounds(
                    self.history(),
                    report.own_action,
                    report.other_player_action,
                ));
            }
            self.count_actions.record(report.own_action, report.other_player_action);
            let reward = report.calculate_reward(&self.reward_table);
            self.cache_table_payoff = self.cache_table_payoff + reward;
            self.previous_encounters.push(report);
            proof {
                let s0 = old(self).history();
                let c0 = old(self).count_actions;
                let c1 = self.count_actions;
                assert forall|own: ClassicAction, other: ClassicAction|
                    #[trigger] self.counter_spec().cell(own, other) == count_pair_rounds(
                        self.history(),
                        own,
                        other,
                    ) by {
                    assert(old(self).counter_spec().cell(own, other) == count_pair_rounds(
                        s0,
                        own,
                        other,
                    ));
                    if own == report.own_action && other == report.other_player_action {
                        assert(c1.cell(own, other) == c0.cell(own, other) + 1);
                    } else {
                        assert(c1.cell(own, other) == c0.cell(own, other));
                    }
                    lemma_count_pair_push(s0, report, own, other);
                    assert(self.history() =~= s0.push(report));
                }
                lemma_total_reward_push(s0, report, old(self).table_spec());
            }
            Ok(())
        } else {
            Err(ClassicGameError::EncounterNotReported(#[verifier::truncate] (idx as u32)))
        }
    }

    /// The subjective score of the full-history variant: the cached payoff
    /// together with the full action-pair breakdown, so a learner can read
    /// both without re-scanning the history.
    pub fn current_subjective_score(&self) -> (r: VerboseReward)
        ensures
            r.table_payoff == self.cached_payoff_spec(),
            r.action_counts == self.counter_spec(),
    {
        VerboseReward::new(self.cache_table_payoff, self.count_actions)
    }

    /// The fixed penalty signal substituted for a score when the environment
    /// judges an action illegal.
    pub fn penalty_for_illegal(&self) -> (r: VerboseReward)
        ensures
            r.table_payoff == -100,
            r.action_counts == ActionCounter::zero_spec(),
    {
        VerboseReward::with_only_table_payoff(-100)
    }

    /// The full two-element action set; nothing is ever masked.
    pub fn available_actions(&self) -> (r: [ClassicAction; 2])
        ensures
            r@ == seq![Cooperate, Defect],
    {
        [Cooperate, Defect]
    }
}

/// The small discrete code an action is encoded as in the numeric buffer:
/// `Up` is `0`, `Down` is `1`.  The padding sentinel `-1` is reserved and
/// never produced by a real action.
pub open spec fn action_code(action: ClassicAction) -> i64 {
    match action {
        ClassicAction::Up => 0,
        ClassicAction::Down => 1,
    }
}

/// The fixed shape a history is encoded into: two rows (own actions, then
/// opponent actions) of a configured maximum round count each.
#[derive(Copy, Clone, Debug)]
pub struct OwnHistoryTensorRepr {
    shape: [i64; 2],
}

impl OwnHistoryTensorRepr {
    /// The stored shape, as a sequence `[2, rounds]`.
    pub closed spec fn shape_spec(self) -> Seq<i64> {
        self.shape@
    }

    /// The configured maximum round count.
    pub open spec fn rounds_spec(self) -> int {
        self.shape_spec()[1] as int
    }

    /// The shape is the two-row one and its round count fits the machine.
    pub open spec fn wf(self) -> bool {
        &&& self.shape_spec().len() == 2
        &&& self.shape_spec()[0] == 2
        &&& 0 <= self.rounds_spec() <= usize::MAX
    }

    pub fn new(number_of_rounds: usize) -> (r: Self)
        requires
            number_of_rounds <= i64::MAX,
        ensures
            r.wf(),
            r.rounds_spec() == number_of_rounds,
            r.shape_spec() =~= seq![2i64, number_of_rounds as i64],
    {
        Self { shape: [2, number_of_rounds as i64] }
    }

    pub fn shape(&self) -> (r: &[i64])
        ensures
            r@ == self.shape_spec(),
    {
        self.shape.as_slice()
    }
}

impl<ID: UsizeAgentId> OwnHistoryInfoSet<ID> {
    /// Projects the history into a buffer of exactly `2 * M` entries, where
    /// `M` is the round count `way` was built with: the first `M` entries
    /// are the own-action codes round by round, the next `M` the opponent
    /// ones, and rounds beyond the actual history length hold the sentinel
    /// `-1`.  A history longer than `M` is rejected, never truncated.
    pub fn try_encode(&self, way: &OwnHistoryTensorRepr) -> (r: Result<
        Vec<i64>,
        TensorRepresentationError,
    >)
        requires
            way.wf(),
        ensures
            self.history().len() > way.rounds_spec() ==> r == Err::<
                Vec<i64>,
                TensorRepresentationError,
            >(
                TensorRepresentationError::InfoSetNotFit {
                    history_len: self.history().len() as usize,
                    max_rounds: way.rounds_spec() as usize,
                },
            ),
            self.history().len() <= way.rounds_spec() ==> (r matches Ok(v) && {
                let n = self.history().len() as int;
                let m = way.rounds_spec();
                &&& v@.len() == 2 * m
                &&& forall|i: int| 0 <= i < n ==> v@[i] == action_code(
                    #[trigger] self.history()[i].own_action,
                )
                &&& forall|i: int| n <= i < m ==> v@[i] == -1
                &&& forall|i: int| 0 <= i < n ==> v@[m + i] == action_code(
                    #[trigger] self.history()[i].other_player_action,
                )
                &&& forall|i: int| m + n <= i < 2 * m ==> v@[i] == -1
            }),
    {
        let max_rounds: usize = way.shape[1] as usize;
        let n = self.previous_encounters.len();
        if n > max_rounds {
            return Err(
                TensorRepresentationError::InfoSetNotFit { history_len: n, max_rounds },
            );
        }
        let mut buffer: Vec<i64> = Vec::new();
        let mut i: usize = 0;
        while i < n
            invariant
                i <= n,
                n == self.history().len(),
                buffer@.len() == i,
                forall|j: int| 0 <= j < i ==> buffer@[j] == action_code(
                    #[trigger] self.history()[j].own_action,
                ),
            decreases n - i,
        {
            let code: i64 = if self.previous_encounters[i].own_action == ClassicAction::Up {
                0
            } else {
                1
            };
            buffer.push(code);
            i = i + 1;
        }
        while i < max_rounds
            invariant
                n <= i <= max_rounds,
                n == self.history().len(),
                buffer@.len() == i,
                forall|j: int| 0 <= j < n ==> buffer@[j] == action_code(
                    #[trigger] self.history()[j].own_action,
                ),
                forall|j: int| n <= j < i ==> buffer@[j] == -1,
            decreases max_rounds - i,
        {
            buffer.push(-1);
            i = i + 1;
        }
        let mut k: usize = 0;
        while k < n
            invariant
                k <= n,
                n <= max_rounds,
                n == self.history().len(),
                buffer@.len() == max_rounds + k,
                forall|j: int| 0 <= j < n ==> buffer@[j] == action_code(
                    #[trigger] self.history()[j].own_action,
                ),
                forall|j: int| n <= j < max_rounds ==> buffer@[j] == -1,
                forall|j: int| 0 <= j < k ==> buffer@[max_rounds + j] == action_code(
                    #[trigger] self.history()[j].other_player_action,
                ),
            decreases n - k,
        {
            let code: i64 = if self.previous_encounters[k].other_player_action
                == ClassicAction::Up {
                0
            } else {
                1
            };
            buffer.push(code);
            k = k + 1;
        }
        while k < max_rounds
            invariant
                n <= k <= max_rounds,
                n == self.history().len(),
                buffer@.len() == max_rounds + k,
                forall|j: int| 0 <= j < n ==> buffer@[j] == action_code(
                    #[trigger] self.history()[j].own_action,
                ),
                forall|j: int| n <= j < max_rounds ==> buffer@[j] == -1,
                forall|j: int| 0 <= j < n ==> buffer@[max_rounds + j] == action_code(
                    #[trigger] self.history()[j].other_player_action,
                ),
                forall|j: int| max_rounds + n <= j < max_rounds + k ==> buffer@[j] == -1,
            decreases max_rounds - k,
        {
            buffer.push(-1);
            k = k + 1;
        }
        Ok(buffer)
    }

}

/// For every well-formed full-history information set, each tally cell
/// counts exactly the rounds where the matching `(own, other)` pair
/// occurred, and the four cells together account for every round: their sum
/// is the length of the history.
pub proof fn lemma_counter_partitions_history<ID: UsizeAgentId>(info: OwnHistoryInfoSet<ID>)
    requires
        info.wf(),
    ensures
        forall|own: ClassicAction, other: ClassicAction|
            #[trigger] info.counter_spec().cell(own, other) == count_pair_rounds(
                info.history(),
                own,
                other,
            ),
        info.counter_spec().cell(ClassicAction::Up, ClassicAction::Up) + info.counter_spec().cell(
            ClassicAction::Up,
            ClassicAction::Down,
        ) + info.counter_spec().cell(ClassicAction::Down, ClassicAction::Up)
            + info.counter_spec().cell(ClassicAction::Down, ClassicAction::Down)
            == info.history().len(),
{
    lemma_pair_counts_partition(info.history());
}

} // verus!
