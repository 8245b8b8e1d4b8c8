//! The shared vocabulary of the game: the two-valued action type, agent
//! identifiers in their two representations (small fixed roster and numbered
//! population), the per-round encounter report, and the update / error types
//! exchanged with the surrounding environment.

use vstd::prelude::*;
use crate::reward_table::{AsymmetricRewardTableInt, Side};

verus! {

/// Identifier for agents drawn from an arbitrarily numbered population.
pub type AgentNum = u32;

/// Integer reward paid out by the tables.
pub type IntReward = i64;

/// A stable numeric projection of an agent identifier (or an action), with a
/// derivation back from a numeric index.
pub trait AsUsize: Sized {
    /// The numeric index this value projects to.
    spec fn as_usize_spec(&self) -> usize;

    /// The value a given index derives to (total: indices outside the
    /// meaningful range map to a documented default).
    spec fn from_usize_spec(u: usize) -> Self;

    fn as_usize(&self) -> (r: usize)
        ensures
            r == self.as_usize_spec(),
    ;

    fn make_from_usize(u: usize) -> (r: Self)
        ensures
            r == Self::from_usize_spec(u),
    ;
}

impl AsUsize for AgentNum {
    open spec fn as_usize_spec(&self) -> usize {
        *self as usize
    }

    open spec fn from_usize_spec(u: usize) -> Self {
        u as u32
    }

    fn as_usize(&self) -> usize {
        *self as usize
    }

    fn make_from_usize(u: usize) -> Self {
        #[verifier::truncate] (u as u32)
    }
}

/// An agent identifier usable as an index into the environment's per-round
/// report collection: numeric projection plus value semantics.
pub trait UsizeAgentId: AsUsize + Copy {

}

impl<T: AsUsize + Copy> UsizeAgentId for T {

}

/// Choice from the two possible actions of a simple classic game.  Different
/// games name the two variants differently: in the prisoner's dilemma `Up` is
/// read as defection and `Down` as cooperation, in chicken as hawk and dove.
#[derive(Copy, Clone, Debug, PartialEq, Eq, Structural)]
pub enum ClassicAction {
    Up,
    Down,
}

/// Alias for the prisoner's-dilemma reading of `Up`.
#[allow(non_upper_case_globals)]
pub const Defect: ClassicAction = ClassicAction::Up;

/// Alias for the prisoner's-dilemma reading of `Down`.
#[allow(non_upper_case_globals)]
pub const Cooperate: ClassicAction = ClassicAction::Down;

impl ClassicAction {
    /// Name of the variant in the prisoner's dilemma (`Up` defects).
    pub fn str_prisoner(&self) -> (r: &'static str)
        ensures
            *self == ClassicAction::Up ==> r@ == "Defect"@,
            *self == ClassicAction::Down ==> r@ == "Cooperate"@,
    {
        match self {
            ClassicAction::Up => "Defect",
            ClassicAction::Down => "Cooperate",
        }
    }

    /// Name of the variant in the chicken game (`Up` is the hawk).
    pub fn str_chicken(&self) -> (r: &'static str)
        ensures
            *self == ClassicAction::Up ==> r@ == "Hawk"@,
            *self == ClassicAction::Down ==> r@ == "Dove"@,
    {
        match self {
            ClassicAction::Up => "Hawk",
            ClassicAction::Down => "Dove",
        }
    }

    /// Name of the variant in the battle of the sexes.
    pub fn str_sexes(&self) -> (r: &'static str)
        ensures
            *self == ClassicAction::Up ==> r@ == "Hawk"@,
            *self == ClassicAction::Down ==> r@ == "Dove"@,
    {
        match self {
            ClassicAction::Up => "Hawk",
            ClassicAction::Down => "Dove",
        }
    }
}

/// Failure to read a value back from its numeric encoding.
#[derive(Clone, Debug, PartialEq)]
pub enum ConvertError {
    /// The entry read from the buffer is not the code of any action; the
    /// offending code is carried along.
    ActionDeserialize(i64),
}

impl ClassicAction {
    /// Decodes an action from the numeric code its encoding produces: `0`
    /// is `Up`, `1` is `Down`, anything else is rejected.  (The caller
    /// reads the code out of whatever numeric buffer the learner handed
    /// back.)
    pub fn try_from_code(code: i64) -> (r: Result<ClassicAction, ConvertError>)
        ensures
            code == 0 ==> r == Ok::<ClassicAction, ConvertError>(ClassicAction::Up),
            code == 1 ==> r == Ok::<ClassicAction, ConvertError>(ClassicAction::Down),
            code != 0 && code != 1 ==> r == Err::<ClassicAction, ConvertError>(
                ConvertError::ActionDeserialize(code),
            ),
    {
        match code {
            0 => Ok(ClassicAction::Up),
            1 => Ok(ClassicAction::Down),
            _ => Err(ConvertError::ActionDeserialize(code)),
        }
    }
}

impl AsUsize for ClassicAction {
    open spec fn as_usize_spec(&self) -> usize {
        match *self {
            ClassicAction::Up => 0,
            ClassicAction::Down => 1,
        }
    }

    open spec fn from_usize_spec(u: usize) -> Self {
        if u == 0 {
            ClassicAction::Up
        } else {
            ClassicAction::Down
        }
    }

    fn as_usize(&self) -> usize {
        match *self {
            ClassicAction::Up => 0,
            ClassicAction::Down => 1,
        }
    }

    fn make_from_usize(u: usize) -> Self {
        if u == 0 {
            ClassicAction::Up
        } else {
            ClassicAction::Down
        }
    }
}

/// The checked failures of the game layer.  The only error the information
/// sets themselves raise is `EncounterNotReported`: the environment's update
/// did not carry an entry for this agent's index.
#[derive(Clone, Debug, PartialEq)]
pub enum ClassicGameError<ID: UsizeAgentId> {
    DifferentActionPerformed { chosen: ClassicAction, logged: ClassicAction },
    GameViolatedOrder { acted: ID, expected: Option<ID> },
    NoLastAction(ClassicAction),
    ActionAfterGameOver(ID),
    ActionOutOfOrder(ID),
    ExpectedEvenNumberOfPlayers(u32),
    EncounterNotReported(AgentNum),
}

/// Marker for a whole game domain over one identifier representation: the
/// environment, schedulers and learners outside this crate are keyed by it.
/// It carries no data of its own.
#[derive(Debug)]
pub struct ClassicGameDomain<ID: UsizeAgentId> {
    _id: core::marker::PhantomData<ID>,
}

/// The game domain over the fixed two-player roster.
pub type ClassicGameDomainNamed = ClassicGameDomain<TwoPlayersStdName>;

/// The game domain over a numbered population.
pub type ClassicGameDomainNumbered = ClassicGameDomain<AgentNum>;

/// One round's outcome as observed by one agent: what it played, what the
/// opponent played, which seat the agent occupied and who the opponent was.
/// Both actions are always populated together; a report is immutable once
/// created.
#[derive(Copy, Clone, Debug)]
pub struct EncounterReport<ID: UsizeAgentId> {
    pub own_action: ClassicAction,
    pub other_player_action: ClassicAction,
    pub side: Side,
    pub other_id: ID,
}

impl<ID: UsizeAgentId> EncounterReport<ID> {
    /// The action played in the left seat, derived from the agent's own seat.
    pub open spec fn left_action_spec(self) -> ClassicAction {
        match self.side {
            Side::Left => self.own_action,
            Side::Right => self.other_player_action,
        }
    }

    /// The action played in the right seat, derived from the agent's own seat.
    pub open spec fn right_action_spec(self) -> ClassicAction {
        match self.side {
            Side::Left => self.other_player_action,
            Side::Right => self.own_action,
        }
    }

    /// The action played in the given seat.
    pub open spec fn side_action_spec(self, side: Side) -> ClassicAction {
        match side {
            Side::Left => self.left_action_spec(),
            Side::Right => self.right_action_spec(),
        }
    }

    /// The reward the table pays this agent for the round: the seat-relative
    /// `(left, right)` action pair is derived first, then looked up for the
    /// agent's own seat.
    pub open spec fn reward_spec(self, table: AsymmetricRewardTableInt) -> IntReward {
        table.reward_for_side_spec(self.side, self.left_action_spec(), self.right_action_spec())
    }

    pub fn left_action(&self) -> (r: ClassicAction)
        ensures
            r == self.left_action_spec(),
    {
        match self.side {
            Side::Left => self.own_action,
            Side::Right => self.other_player_action,
        }
    }

    pub fn right_action(&self) -> (r: ClassicAction)
        ensures
            r == self.right_action_spec(),
    {
        match self.side {
            Side::Left => self.other_player_action,
            Side::Right => self.own_action,
        }
    }

    pub fn side_action(&self, side: Side) -> (r: ClassicAction)
        ensures
            r == self.side_action_spec(side),
    {
        match side {
            Side::Left => self.left_action(),
            Side::Right => self.right_action(),
        }
    }

    /// The seat this agent occupied in the round.
    pub fn own_side(&self) -> (r: Side)
        ensures
            r == self.side,
    {
        self.side
    }

    /// Scores the round against a (possibly asymmetric) table.  Computing the
    /// reward directly from `(own_action, other_player_action)` would be
    /// wrong for asymmetric tables; the seat indirection is the contract.
    pub fn calculate_reward(&self, table: &AsymmetricRewardTableInt) -> (r: IntReward)
        ensures
            r == self.reward_spec(*table),
    {
        let (left, right) = match self.side {
            Side::Left => (self.own_action, self.other_player_action),
            Side::Right => (self.other_player_action, self.own_action),
        };
        table.reward_for_side(self.side, left, right)
    }
}

/// Report observed by an agent of the fixed two-player roster.
pub type EncounterReportNamed = EncounterReport<TwoPlayersStdName>;

/// Report observed by an agent of a numbered population.
pub type EncounterReportNumbered = EncounterReport<AgentNum>;

/// The fixed two-player roster.
#[derive(Copy, Clone, Debug, PartialEq, Eq, Hash, Structural)]
pub enum TwoPlayersStdName {
    Alice,
    Bob,
}

impl AsUsize for TwoPlayersStdName {
    open spec fn as_usize_spec(&self) -> usize {
        match *self {
            TwoPlayersStdName::Alice => 0,
            TwoPlayersStdName::Bob => 1,
        }
    }

    open spec fn from_usize_spec(u: usize) -> Self {
        if u == 0 {
            TwoPlayersStdName::Alice
        } else {
            TwoPlayersStdName::Bob
        }
    }

    fn as_usize(&self) -> usize {
        match *self {
            TwoPlayersStdName::Alice => 0,
            TwoPlayersStdName::Bob => 1,
        }
    }

    fn make_from_usize(u: usize) -> Self {
        if u == 0 {
            TwoPlayersStdName::Alice
        } else {
            TwoPlayersStdName::Bob
        }
    }
}

impl TwoPlayersStdName {
    /// The other member of the roster.
    pub open spec fn other_spec(self) -> Self {
        match self {
            TwoPlayersStdName::Alice => TwoPlayersStdName::Bob,
            TwoPlayersStdName::Bob => TwoPlayersStdName::Alice,
        }
    }

    /// The other member of the roster.
    pub fn other(self) -> (r: Self)
        ensures
            r == self.other_spec(),
    {
        match self {
            TwoPlayersStdName::Alice => TwoPlayersStdName::Bob,
            TwoPlayersStdName::Bob => TwoPlayersStdName::Alice,
        }
    }
}

/// Identifier of an agent in the classic two-prisoner setting.
pub type PrisonerId = TwoPlayersStdName;

/// A pair of values keyed by the two roster members.
#[derive(Copy, Clone, Debug, Default)]
pub struct PrisonerMap<T> {
    alice_s: T,
    bob_s: T,
}

impl<T> PrisonerMap<T> {
    /// Alice's entry.
    pub closed spec fn alice_spec(self) -> T {
        self.alice_s
    }

    /// Bob's entry.
    pub closed spec fn bob_spec(self) -> T {
        self.bob_s
    }

    /// The entry of the given roster member.
    pub open spec fn index_spec(self, index: TwoPlayersStdName) -> T {
        match index {
            TwoPlayersStdName::Alice => self.alice_spec(),
            TwoPlayersStdName::Bob => self.bob_spec(),
        }
    }

    pub fn new(alice_s: T, bob_s: T) -> (r: Self)
        ensures
            r.alice_spec() == alice_s,
            r.bob_spec() == bob_s,
    {
        Self { alice_s, bob_s }
    }

    /// Borrows the entry of the given roster member.
    pub fn index(&self, index: TwoPlayersStdName) -> (r: &T)
        ensures
            *r == self.index_spec(index),
    {
        match index {
            TwoPlayersStdName::Bob => &self.bob_s,
            TwoPlayersStdName::Alice => &self.alice_s,
        }
    }

    /// Borrows the entry of the given roster member mutably; the other
    /// entry is untouched by whatever the caller writes through the borrow.
    pub fn index_mut(&mut self, index: TwoPlayersStdName) -> (r: &mut T)
        ensures
            *r == old(self).index_spec(index),
            final(self).index_spec(index) == *final(r),
            final(self).index_spec(index.other_spec()) == old(self).index_spec(index.other_spec()),
    {
        match index {
            TwoPlayersStdName::Bob => &mut self.bob_s,
            TwoPlayersStdName::Alice => &mut self.alice_s,
        }
    }
}

/// One pairing entry of the environment's optional pairing record: whom an
/// agent was matched with and in which seat it sat.
#[derive(Copy, Clone, Debug)]
pub struct PlayerPairing<ID: UsizeAgentId> {
    pub paired_player: ID,
    pub side: Side,
}

/// The environment's pairing record for one round, indexed like `encounters`.
pub type PairingVec<ID> = Vec<PlayerPairing<ID>>;

/// Failure of the fixed-shape numeric encoding: the history holds more
/// rounds than the configured shape has room for.  The encoding never
/// truncates silently.
#[derive(Clone, Debug, PartialEq)]
pub enum TensorRepresentationError {
    InfoSetNotFit { history_len: usize, max_rounds: usize },
}

/// What the environment delivers to every agent after a round: one encounter
/// report per agent index in the population, plus the optional pairing
/// record.  An agent's information set looks its own entry up by its index.
#[derive(Clone, Debug)]
pub struct ClassicGameUpdate<ID: UsizeAgentId> {
    pub encounters: Vec<EncounterReport<ID>>,
    pub pairing: Option<PairingVec<ID>>,
}

} // verus!
