//! Payoff tables: pure, total mappings from an action pair (and, for the
//! asymmetric table, the seat an agent occupies) to an integer reward.  A
//! table is immutable once constructed and is shared read-only by every agent
//! playing under the same ruleset.

use vstd::prelude::*;
use crate::domain::{ClassicAction, IntReward};

verus! {

/// Which seat (column of the payoff table) an agent occupies in an encounter.
/// Asymmetric tables pay the two seats differently.
#[derive(Copy, Clone, Debug, PartialEq, Eq, Structural)]
pub enum Side {
    Left,
    Right,
}

/// Payoff table of a symmetric game: the reward depends only on the agent's
/// own action and the opponent's action, not on the seat.
#[derive(Copy, Clone, Debug, PartialEq, Eq, Structural)]
pub struct SymmetricRewardTableInt {
    up_up: IntReward,
    up_down: IntReward,
    down_up: IntReward,
    down_down: IntReward,
}

impl SymmetricRewardTableInt {
    /// The reward paid to an agent that played `own` against `other`.
    pub closed spec fn reward_spec(self, own: ClassicAction, other: ClassicAction) -> IntReward {
        match (own, other) {
            (ClassicAction::Up, ClassicAction::Up) => self.up_up,
            (ClassicAction::Up, ClassicAction::Down) => self.up_down,
            (ClassicAction::Down, ClassicAction::Up) => self.down_up,
            (ClassicAction::Down, ClassicAction::Down) => self.down_down,
        }
    }

    /// Builds the table from its four entries, one per ordered action pair
    /// `(own, other)`; the table is total by construction.
    pub fn new(up_up: IntReward, up_down: IntReward, down_up: IntReward, down_down: IntReward) -> (r: Self)
        ensures
            r.reward_spec(ClassicAction::Up, ClassicAction::Up) == up_up,
            r.reward_spec(ClassicAction::Up, ClassicAction::Down) == up_down,
            r.reward_spec(ClassicAction::Down, ClassicAction::Up) == down_up,
            r.reward_spec(ClassicAction::Down, ClassicAction::Down) == down_down,
    {
        Self { up_up, up_down, down_up, down_down }
    }

    /// Looks the reward up for an ordered action pair `(own, other)`.
    pub fn reward(&self, own: ClassicAction, other: ClassicAction) -> (r: IntReward)
        ensures
            r == self.reward_spec(own, other),
    {
        match (own, other) {
            (ClassicAction::Up, ClassicAction::Up) => self.up_up,
            (ClassicAction::Up, ClassicAction::Down) => self.up_down,
            (ClassicAction::Down, ClassicAction::Up) => self.down_up,
            (ClassicAction::Down, ClassicAction::Down) => self.down_down,
        }
    }
}

/// Payoff table of a possibly asymmetric game: the reward depends on the seat
/// as well as on the two actions, eight entries in all.
#[derive(Copy, Clone, Debug, PartialEq, Eq, Structural)]
pub struct AsymmetricRewardTableInt {
    left_up_up: IntReward,
    left_up_down: IntReward,
    left_down_up: IntReward,
    left_down_down: IntReward,
    right_up_up: IntReward,
    right_up_down: IntReward,
    right_down_up: IntReward,
    right_down_down: IntReward,
}

impl AsymmetricRewardTableInt {
    /// The reward paid to the agent in seat `side` when the left seat played
    /// `left_action` and the right seat played `right_action`.
    pub closed spec fn reward_for_side_spec(
        self,
        side: Side,
        left_action: ClassicAction,
        right_action: ClassicAction,
    ) -> IntReward {
        match (side, left_action, right_action) {
            (Side::Left, ClassicAction::Up, ClassicAction::Up) => self.left_up_up,
            (Side::Left, ClassicAction::Up, ClassicAction::Down) => self.left_up_down,
            (Side::Left, ClassicAction::Down, ClassicAction::Up) => self.left_down_up,
            (Side::Left, ClassicAction::Down, ClassicAction::Down) => self.left_down_down,
            (Side::Right, ClassicAction::Up, ClassicAction::Up) => self.right_up_up,
            (Side::Right, ClassicAction::Up, ClassicAction::Down) => self.right_up_down,
            (Side::Right, ClassicAction::Down, ClassicAction::Up) => self.right_down_up,
            (Side::Right, ClassicAction::Down, ClassicAction::Down) => self.right_down_down,
        }
    }

    /// Builds the table from its eight entries.  Each argument names the seat
    /// it pays and the ordered `(left, right)` action pair it applies to.
    pub fn new(
        left_up_up: IntReward,
        left_up_down: IntReward,
        left_down_up: IntReward,
        left_down_down: IntReward,
        right_up_up: IntReward,
        right_up_down: IntReward,
        right_down_up: IntReward,
        right_down_down: IntReward,
    ) -> (r: Self)
        ensures
            r.reward_for_side_spec(Side::Left, ClassicAction::Up, ClassicAction::Up) == left_up_up,
            r.reward_for_side_spec(Side::Left, ClassicAction::Up, ClassicAction::Down) == left_up_down,
            r.reward_for_side_spec(Side::Left, ClassicAction::Down, ClassicAction::Up) == left_down_up,
            r.reward_for_side_spec(Side::Left, ClassicAction::Down, ClassicAction::Down) == left_down_down,
            r.reward_for_side_spec(Side::Right, ClassicAction::Up, ClassicAction::Up) == right_up_up,
            r.reward_for_side_spec(Side::Right, ClassicAction::Up, ClassicAction::Down) == right_up_down,
            r.reward_for_side_spec(Side::Right, ClassicAction::Down, ClassicAction::Up) == right_down_up,
            r.reward_for_side_spec(Side::Right, ClassicAction::Down, ClassicAction::Down) == right_down_down,
    {
        Self {
            left_up_up,
            left_up_down,
            left_down_up,
            left_down_down,
            right_up_up,
            right_up_down,
            right_down_up,
            right_down_down,
        }
    }

    /// Builds the asymmetric table that pays both seats as the given
    /// symmetric table would: each seat is rewarded for its own action
    /// against the other seat's action.
    pub fn symmetric(table: SymmetricRewardTableInt) -> (r: Self)
        ensures
            forall|left_action: ClassicAction, right_action: ClassicAction|
                #[trigger] r.reward_for_side_spec(Side::Left, left_action, right_action)
                    == table.reward_spec(left_action, right_action),
            forall|left_action: ClassicAction, right_action: ClassicAction|
                #[trigger] r.reward_for_side_spec(Side::Right, left_action, right_action)
                    == table.reward_spec(right_action, left_action),
    {
        Self {
            left_up_up: table.reward(ClassicAction::Up, ClassicAction::Up),
            left_up_down: table.reward(ClassicAction::Up, ClassicAction::Down),
            left_down_up: table.reward(ClassicAction::Down, ClassicAction::Up),
            left_down_down: table.reward(ClassicAction::Down, ClassicAction::Down),
            right_up_up: table.reward(ClassicAction::Up, ClassicAction::Up),
            right_up_down: table.reward(ClassicAction::Down, ClassicAction::Up),
            right_down_up: table.reward(ClassicAction::Up, ClassicAction::Down),
            right_down_down: table.reward(ClassicAction::Down, ClassicAction::Down),
        }
    }

    /// Looks the reward up for the given seat and ordered `(left, right)`
    /// action pair.
    pub fn reward_for_side(
        &self,
        side: Side,
        left_action: ClassicAction,
        right_action: ClassicAction,
    ) -> (r: IntReward)
        ensures
            r == self.reward_for_side_spec(side, left_action, right_action),
    {
        match (side, left_action, right_action) {
            (Side::Left, ClassicAction::Up, ClassicAction::Up) => self.left_up_up,
            (Side::Left, ClassicAction::Up, ClassicAction::Down) => self.left_up_down,
            (Side::Left, ClassicAction::Down, ClassicAction::Up) => self.left_down_up,
            (Side::Left, ClassicAction::Down, ClassicAction::Down) => self.left_down_down,
            (Side::Right, ClassicAction::Up, ClassicAction::Up) => self.right_up_up,
            (Side::Right, ClassicAction::Up, ClassicAction::Down) => self.right_up_down,
            (Side::Right, ClassicAction::Down, ClassicAction::Up) => self.right_down_up,
            (Side::Right, ClassicAction::Down, ClassicAction::Down) => self.right_down_down,
        }
    }
}

} // verus!
