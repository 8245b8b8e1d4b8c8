//! The classic two-prisoner setting: an information set over the fixed
//! two-player roster that keeps the raw encounter history and scores it
//! against a symmetric table, the policies written for it, and its
//! fixed-shape numeric encoding.

use vstd::prelude::*;
use crate::domain::{
    AgentNum, AsUsize, ClassicAction, ClassicGameError, ClassicGameUpdate, Cooperate, Defect,
    EncounterReportNamed, IntReward, PrisonerId, TensorRepresentationError,
};
use crate::own_history::{count_other_rounds, count_own_rounds};
use crate::reward_table::SymmetricRewardTableInt;

verus! {

/// The summed symmetric-table reward of every round of `s`: each round pays
/// `reward(own, other)` with no seat indirection.
pub open spec fn total_sym_reward(s: Seq<EncounterReportNamed>, table: SymmetricRewardTableInt) -> int
    decreases s.len(),
{
    if s.len() == 0 {
        0
    } else {
        total_sym_reward(s.drop_last(), table) + table.reward_spec(
            s.last().own_action,
            s.last().other_player_action,
        )
    }
}

/// Per-agent state of the two-prisoner setting: the raw history of reports
/// and the shared symmetric reward table.
#[derive(Clone, Debug)]
pub struct PrisonerInfoSet {
    id: PrisonerId,
    previous_actions: Vec<EncounterReportNamed>,
    reward_table: SymmetricRewardTableInt,
}

impl PrisonerInfoSet {
    /// The fixed agent id.
    pub closed spec fn id_spec(self) -> PrisonerId {
        self.id
    }

    /// The chronological sequence of reports received so far.
    pub closed spec fn history(self) -> Seq<EncounterReportNamed> {
        self.previous_actions@
    }

    /// The shared symmetric reward table.
    pub closed spec fn table_spec(self) -> SymmetricRewardTableInt {
        self.reward_table
    }

    /// The index this agent looks its own report up at.
    pub open spec fn index_spec(self) -> int {
        self.id_spec().as_usize_spec() as int
    }

    /// Fresh state for a roster member: empty history.
    pub fn new(player_id: PrisonerId, reward_table: SymmetricRewardTableInt) -> (r: Self)
        ensures
            r.id_spec() == player_id,
            r.table_spec() == reward_table,
            r.history() =~= Seq::<EncounterReportNamed>::empty(),
    {
        Self { id: player_id, reward_table, previous_actions: Vec::new() }
    }

    /// The reports received so far, oldest first.
    pub fn previous_actions(&self) -> (r: &Vec<EncounterReportNamed>)
        ensures
            r@ == self.history(),
    {
        &self.previous_actions
    }

    /// Counts the agent's own plays of `action` over the whole history.
    pub fn count_actions(&self, action: ClassicAction) -> (r: usize)
        ensures
            r == count_own_rounds(self.history(), action),
    {
        let n = self.previous_actions.len();
        let mut count: usize = 0;
        let mut i: usize = 0;
        while i < n
            invariant
                i <= n,
                n == self.history().len(),
                count <= i,
                count == count_own_rounds(self.history().take(i as int), action),
            decreases n - i,
        {
            proof {
                assert(self.history().take(i + 1).drop_last() =~= self.history().take(i as int));
                assert(self.history().take(i + 1).last() == self.history()[i as int]);
            }
            if self.previous_actions[i].own_action == action {
                count = count + 1;
            }
            i = i + 1;
        }
        proof {
            assert(self.history().take(n as int) =~= self.history());
        }
        count
    }

    pub fn agent_id(&self) -> (r: &PrisonerId)
        ensures
            *r == self.id_spec(),
    {
        &self.id
    }

    /// Both actions are legal every round; no masking happens at this layer.
    pub fn is_action_valid(&self, _action: &ClassicAction) -> (r: bool)
        ensures
            r,
    {
        true
    }

    /// Appends this round's report for this agent to the history.  If the
    /// update carries no entry for this agent's index, the state is left
    /// exactly as it was and the missing-data error is returned.
    pub fn update(&mut self, update: ClassicGameUpdate<PrisonerId>) -> (r: Result<
        (),
        ClassicGameError<PrisonerId>,
    >)
        ensures
            final(self).id_spec() == old(self).id_spec(),
            final(self).table_spec() == old(self).table_spec(),
            old(self).index_spec() < update.encounters@.len() ==> {
                &&& r == Ok::<(), ClassicGameError<PrisonerId>>(())
                &&& final(self).history() =~= old(self).history().push(
                    update.encounters@[old(self).index_spec()],
                )
            },
            old(self).index_spec() >= update.encounters@.len() ==> {
                &&& r == Err::<(), ClassicGameError<PrisonerId>>(
                    ClassicGameError::EncounterNotReported(
                        old(self).id_spec().as_usize_spec() as u32,
                    ),
                )
                &&& *final(self) == *old(self)
            },
    {
        let idx = self.id.as_usize();
        if idx < update.encounters.len() {
            let encounter = update.encounters[idx];
            self.previous_actions.push(encounter);
            Ok(())
        } else {
            Err(ClassicGameError::EncounterNotReported(#[verifier::truncate] (idx as u32)))
        }
    }

    /// The full two-element action set; nothing is ever masked.
    pub fn available_actions(&self) -> (r: [ClassicAction; 2])
        ensures
            r@ == seq![Defect, Cooperate],
    {
        [Defect, Cooperate]
    }

    /// The summed table payoff of the whole history, or `None` exactly when
    /// that mathematical sum falls outside the reward type.  (The subjective
    /// score of this variant is the mean payoff per round, a fractional
    /// quantity computed by the caller from this sum and the round count.)
    pub fn total_table_payoff(&self) -> (r: Option<IntReward>)
        ensures
            i64::MIN <= total_sym_reward(self.history(), self.table_spec()) <= i64::MAX ==> r
                == Some(total_sym_reward(self.history(), self.table_spec()) as i64),
            !(i64::MIN <= total_sym_reward(self.history(), self.table_spec()) <= i64::MAX) ==> r
                is None,
    {
        let n = self.previous_actions.len();
        let mut acc: i128 = 0;
        let mut i: usize = 0;
        while i < n
            invariant
                i <= n,
                n == self.history().len(),
                acc == total_sym_reward(self.history().take(i as int), self.table_spec()),
                -(i as int) * 0x8000_0000_0000_0000 <= acc <= (i as int) * 0x7fff_ffff_ffff_ffff,
            decreases n - i,
        {
            proof {
                assert(self.history().take(i + 1).drop_last() =~= self.history().take(i as int));
                assert(self.history().take(i + 1).last() == self.history()[i as int]);
            }
            let report = self.previous_actions[i];
            let reward = self.reward_table.reward(report.own_action, report.other_player_action);
            acc = acc + reward as i128;
            i = i + 1;
        }
        proof {
            assert(self.history().take(n as int) =~= self.history());
        }
        if acc >= i64::MIN as i128 && acc <= i64::MAX as i128 {
            Some(acc as i64)
        } else {
            None
        }
    }

    /// The fixed penalty signal substituted for a score when the environment
    /// judges an action illegal.
    pub fn penalty_for_illegal(&self) -> (r: IntReward)
        ensures
            r == -100,
    {
        -100
    }
}

/// Counts the opponent's plays of `action` in a report vector.
fn count_other_in(reports: &Vec<EncounterReportNamed>, action: ClassicAction) -> (r: usize)
    ensures
        r == count_other_rounds(reports@, action),
{
    let n = reports.len();
    let mut count: usize = 0;
    let mut i: usize = 0;
    while i < n
        invariant
            i <= n,
            n == reports@.len(),
            count <= i,
            count == count_other_rounds(reports@.take(i as int), action),
        decreases n - i,
    {
        proof {
            assert(reports@.take(i + 1).drop_last() =~= reports@.take(i as int));
            assert(reports@.take(i + 1).last() == reports@[i as int]);
        }
        if reports[i].other_player_action == action {
            count = count + 1;
        }
        i = i + 1;
    }
    proof {
        assert(reports@.take(n as int) =~= reports@);
    }
    count
}

/// Forgives a single betrayal, no more: defects as soon as the opponent has
/// defected more than once over the whole history.
pub struct Forgive1Policy {
}

impl Forgive1Policy {
    pub fn select_action(&self, state: &PrisonerInfoSet) -> (r: Option<ClassicAction>)
        ensures
            r == Some(
                if count_other_rounds(state.history(), Defect) > 1 {
                    Defect
                } else {
                    Cooperate
                },
            ),
    {
        let enemy_betrayals = count_other_in(state.previous_actions(), Defect);
        if enemy_betrayals > 1 {
            Some(Defect)
        } else {
            Some(Cooperate)
        }
    }
}

/// Ratio-based retaliation: defects while the opponent's defections
/// outnumber its cooperations.
pub struct BetrayRatioPolicy {
}

impl BetrayRatioPolicy {
    pub fn select_action(&self, state: &PrisonerInfoSet) -> (r: Option<ClassicAction>)
        ensures
            r == Some(
                if count_other_rounds(state.history(), Defect) > count_other_rounds(
                    state.history(),
                    Cooperate,
                ) {
                    Defect
                } else {
                    Cooperate
                },
            ),
    {
        let betrayed = count_other_in(state.previous_actions(), Defect);
        let covered = count_other_in(state.previous_actions(), Cooperate);
        if betrayed > covered {
            Some(Defect)
        } else {
            Some(Cooperate)
        }
    }
}

/// Relies on `rand::Rng::gen_range` on the thread-local generator
/// (`rand::thread_rng`): a value drawn uniformly from the non-empty range
/// `0..bound`; the call panics only on an empty range, which the
/// precondition rules out.
#[verifier::external_body]
fn random_index(bound: usize) -> (r: usize)
    requires
        bound > 0,
    ensures
        r < bound,
{
    rand::Rng::gen_range(&mut rand::thread_rng(), 0..bound)
}

/// Uniform-random choice between the two available actions, drawn from a
/// fresh thread-local source at every call.  Nothing can be promised of
/// which action comes back, only that it is one of the two.
pub struct RandomPrisonerPolicy {
}

impl RandomPrisonerPolicy {
    pub fn select_action(&self, state: &PrisonerInfoSet) -> (r: Option<ClassicAction>)
        ensures
            r == Some(Defect) || r == Some(Cooperate),
    {
        let actions = state.available_actions();
        let choice = random_index(2);
        proof {
            assert(actions@[choice as int] == Defect || actions@[choice as int] == Cooperate);
        }
        Some(actions[choice])
    }
}

/// The opponent action heading the most recent run of two-or-more identical
/// opponent actions, `Cooperate` when no such run exists.  The scan works on
/// adjacent pairs from the newest round backwards.
pub open spec fn latest_repeated_other(s: Seq<EncounterReportNamed>) -> ClassicAction
    decreases s.len(),
{
    if s.len() < 2 {
        Cooperate
    } else if s[s.len() - 1].other_player_action == s[s.len() - 2].other_player_action {
        s[s.len() - 1].other_player_action
    } else {
        latest_repeated_other(s.drop_last())
    }
}

/// Tit-for-tat with an exclusive repeat-detection window: scans backward for
/// the most recent pair of consecutive identical opponent actions and, if
/// one exists, repeats that action; otherwise cooperates.  Unlike the
/// inclusive `SwitchAfterTwo` scan, the very last round alone never counts
/// as a run.
pub struct SwitchOnTwoSubsequent {
}

impl SwitchOnTwoSubsequent {
    pub fn select_action(&self, state: &PrisonerInfoSet) -> (r: Option<ClassicAction>)
        ensures
            r == Some(latest_repeated_other(state.history())),
    {
        let n = state.previous_actions().len();
        if n == 0 {
            return Some(Cooperate);
        }
        let mut other_action = state.previous_actions()[n - 1].other_player_action;
        let mut i: usize = n - 1;
        proof {
            assert(state.history().take(n as int) =~= state.history());
        }
        while i >= 1
            invariant
                i <= n - 1,
                n >= 1,
                n == state.history().len(),
                other_action == state.history()[i as int].other_player_action,
                latest_repeated_other(state.history()) == latest_repeated_other(
                    state.history().take(i + 1),
                ),
            decreases i,
        {
            proof {
                let t = state.history().take(i + 1);
                assert(t.len() == i + 1);
                assert(t[t.len() - 1] == state.history()[i as int]);
                assert(t[t.len() - 2] == state.history()[i - 1]);
                assert(t.drop_last() =~= state.history().take(i as int));
            }
            if state.previous_actions()[i - 1].other_player_action == other_action {
                return Some(other_action);
            }
            other_action = state.previous_actions()[i - 1].other_player_action;
            i = i - 1;
        }
        proof {
            assert(state.history().take(1) =~= state.history().take(1));
            assert(latest_repeated_other(state.history().take(1)) == Cooperate);
        }
        Some(Cooperate)
    }
}

/// Marker for the translation of prisoner states into the numeric
/// representation consumed by an external learner.
pub struct PrisonerStateTranslate {
}

/// Number of rounds the fixed prisoner encoding has room for.
pub const PRISONER_ENCODING_ROUNDS: usize = 256;

/// The small discrete code an action is encoded as in the prisoner buffer:
/// `Up` is `1`, `Down` is `2`, and `0` is the padding sentinel, never
/// produced by a real action.  (This convention is offset by one from the
/// full-history encoding; the two layouts are historical and must not be
/// mixed.)
pub open spec fn prisoner_action_code(action: ClassicAction) -> i64 {
    match action {
        ClassicAction::Up => 1,
        ClassicAction::Down => 2,
    }
}

/// The fixed one-row shape of the prisoner encoding: `2 * 256` interleaved
/// entries.
#[derive(Default)]
pub struct PrisonerInfoSetWay {
}

impl PrisonerInfoSetWay {
    pub fn desired_shape(&self) -> (r: [i64; 1])
        ensures
            r@ == seq![512i64],
    {
        [512]
    }
}

impl PrisonerInfoSet {
    /// Projects the history into the fixed interleaved buffer: entry `2 * i`
    /// holds the own-action code of round `i`, entry `2 * i + 1` the
    /// opponent one, and rounds beyond the actual history length hold the
    /// sentinel `0`.  A history longer than the configured room is rejected,
    /// never truncated.
    pub fn try_encode(&self, _way: &PrisonerInfoSetWay) -> (r: Result<
        Vec<i64>,
        TensorRepresentationError,
    >)
        ensures
            self.history().len() > PRISONER_ENCODING_ROUNDS ==> r == Err::<
                Vec<i64>,
                TensorRepresentationError,
            >(
                TensorRepresentationError::InfoSetNotFit {
                    history_len: self.history().len() as usize,
                    max_rounds: PRISONER_ENCODING_ROUNDS,
                },
            ),
            self.history().len() <= PRISONER_ENCODING_ROUNDS ==> (r matches Ok(v) && {
                let n = self.history().len() as int;
                &&& v@.len() == 2 * PRISONER_ENCODING_ROUNDS
                &&& forall|i: int| 0 <= i < n ==> v@[2 * i] == prisoner_action_code(
                    #[trigger] self.history()[i].own_action,
                ) && v@[2 * i + 1] == prisoner_action_code(self.history()[i].other_player_action)
                &&& forall|j: int| 2 * n <= j < 2 * PRISONER_ENCODING_ROUNDS ==> v@[j] == 0
            }),
    {
        let n = self.previous_actions.len();
        if n > PRISONER_ENCODING_ROUNDS {
            return Err(
                TensorRepresentationError::InfoSetNotFit {
                    history_len: n,
                    max_rounds: PRISONER_ENCODING_ROUNDS,
                },
            );
        }
        let mut buffer: Vec<i64> = Vec::new();
        let mut i: usize = 0;
        while i < n
            invariant
                i <= n,
                n == self.history().len(),
                buffer@.len() == 2 * i,
                forall|j: int| 0 <= j < i ==> buffer@[2 * j] == prisoner_action_code(
                    #[trigger] self.history()[j].own_action,
                ) && buffer@[2 * j + 1] == prisoner_action_code(
                    self.history()[j].other_player_action,
                ),
            decreases n - i,
        {
            let report = self.previous_actions[i];
            let own_code: i64 = if report.own_action == ClassicAction::Up {
                1
            } else {
                2
            };
            let other_code: i64 = if report.other_player_action == ClassicAction::Up {
                1
            } else {
                2
            };
            buffer.push(own_code);
            buffer.push(other_code);
            i = i + 1;
        }
        let mut j: usize = 2 * i;
        while j < 2 * PRISONER_ENCODING_ROUNDS
            invariant
                2 * n <= j <= 2 * PRISONER_ENCODING_ROUNDS,
                n == self.history().len(),
                buffer@.len() == j,
                forall|k: int| 0 <= k < n ==> buffer@[2 * k] == prisoner_action_code(
                    #[trigger] self.history()[k].own_action,
                ) && buffer@[2 * k + 1] == prisoner_action_code(
                    self.history()[k].other_player_action,
                ),
                forall|k: int| 2 * n <= k < j ==> buffer@[k] == 0,
            decreases 2 * PRISONER_ENCODING_ROUNDS - j,
        {
            buffer.push(0);
            j = j + 1;
        }
        Ok(buffer)
    }
}

} // verus!
