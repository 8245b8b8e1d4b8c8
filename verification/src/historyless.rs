//! The summary-only information set: it keeps a running payoff and nothing
//! else.  No per-round record survives an update.

use vstd::prelude::*;
use crate::domain::{
    AgentNum, AsUsize, ClassicAction, ClassicGameError, ClassicGameUpdate, Cooperate, Defect,
    IntReward,
};
use crate::reward_table::AsymmetricRewardTableInt;

verus! {

/// Per-agent state that retains only the cumulative table payoff.  The agent
/// id and the shared reward table are fixed at construction.
#[derive(Copy, Clone, Debug)]
pub struct HistorylessInfoSet {
    id: AgentNum,
    reward_table: AsymmetricRewardTableInt,
    payoff: IntReward,
}

impl HistorylessInfoSet {
    /// The fixed agent id.
    pub closed spec fn id_spec(self) -> AgentNum {
        self.id
    }

    /// The shared reward table.
    pub closed spec fn table_spec(self) -> AsymmetricRewardTableInt {
        self.reward_table
    }

    /// The running payoff accumulated so far.
    pub closed spec fn payoff_spec(self) -> IntReward {
        self.payoff
    }

    /// The reward this agent's entry of `update` would add, if present.
    pub open spec fn update_reward_spec(self, update: ClassicGameUpdate<AgentNum>) -> IntReward {
        self.update_report_spec(update).reward_spec(self.table_spec())
    }

    /// This agent's entry of `update` (meaningful when its index is in
    /// range).
    pub open spec fn update_report_spec(
        self,
        update: ClassicGameUpdate<AgentNum>,
    ) -> crate::domain::EncounterReport<AgentNum> {
        update.encounters@[self.id_spec() as int]
    }

    /// Fresh state for an agent: zero payoff, the given id and table.
    pub fn new(id: AgentNum, reward_table: AsymmetricRewardTableInt) -> (r: Self)
        ensures
            r.id_spec() == id,
            r.table_spec() == reward_table,
            r.payoff_spec() == 0,
    {
        Self { id, reward_table, payoff: 0 }
    }

    pub fn agent_id(&self) -> (r: &AgentNum)
        ensures
            *r == self.id_spec(),
    {
        &self.id
    }

    /// Both actions are legal every round; no masking happens at this layer.
    pub fn is_action_valid(&self, _action: &ClassicAction) -> (r: bool)
        ensures
            r,
    {
        true
    }

    /// Folds this round's reward into the running payoff.  If the update
    /// carries no entry for this agent's index, the state is left exactly as
    /// it was and the missing-data error is returned.
    pub fn update(&mut self, update: ClassicGameUpdate<AgentNum>) -> (r: Result<
        (),
        ClassicGameError<AgentNum>,
    >)
        requires
            (old(self).id_spec() as int) < update.encounters@.len() ==> i64::MIN <= old(
                self,
            ).payoff_spec() + old(self).update_reward_spec(update) <= i64::MAX,
        ensures
            final(self).id_spec() == old(self).id_spec(),
            final(self).table_spec() == old(self).table_spec(),
            (old(self).id_spec() as int) < update.encounters@.len() ==> {
                &&& r == Ok::<(), ClassicGameError<AgentNum>>(())
                &&& final(self).payoff_spec() == old(self).payoff_spec() + old(
                    self,
                ).update_reward_spec(update)
            },
            (old(self).id_spec() as int) >= update.encounters@.len() ==> {
                &&& r == Err::<(), ClassicGameError<AgentNum>>(
                    ClassicGameError::EncounterNotReported(old(self).id_spec()),
                )
                &&& *final(self) == *old(self)
            },
    {
        let idx = self.id.as_usize();
        if idx < update.encounters.len() {
            let report = update.encounters[idx];
            let reward = self.reward_table.reward_for_side(
                report.side,
                report.left_action(),
                report.right_action(),
            );
            self.payoff = self.payoff + reward;
            Ok(())
        } else {
            Err(ClassicGameError::EncounterNotReported(self.id))
        }
    }

    /// The subjective score of the summary-only variant is the running
    /// scalar payoff.
    pub fn current_subjective_score(&self) -> (r: IntReward)
        ensures
            r == self.payoff_spec(),
    {
        self.payoff
    }

    /// The fixed penalty signal substituted for a score when the environment
    /// judges an action illegal.
    pub fn penalty_for_illegal(&self) -> (r: IntReward)
        ensures
            r == -10,
    {
        -10
    }

    /// The full two-element action set; nothing is ever masked.
    pub fn available_actions(&self) -> (r: [ClassicAction; 2])
        ensures
            r@ == seq![Cooperate, Defect],
    {
        [Cooperate, Defect]
    }
}

} // verus!
