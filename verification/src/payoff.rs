//! Payoff accounting: the 2x2 tally of action pairs seen in play and the
//! composite reward that pairs a cumulative table payoff with that tally.
//! Both support pointwise addition and subtraction so a learner can combine
//! them exactly like scalar rewards; the algebraic laws (commutativity,
//! associativity, neutral element) are proved below.

use vstd::prelude::*;
use crate::domain::{ClassicAction, IntReward};

verus! {

/// A 2x2 tally keyed by `(own action, opponent action)`.  Used both as a
/// running count of encounters and as the difference of two such counts, so
/// cells may be negative; the integer domain is open and combining two
/// tallies demands that the sums fit the cell type.
#[derive(Copy, Clone, Debug, PartialEq, Eq, Structural)]
pub struct ActionCounter {
    /// Rounds where the agent played `Up` against `Up`.
    pub up_up: i64,
    /// Rounds where the agent played `Up` against `Down`.
    pub up_down: i64,
    /// Rounds where the agent played `Down` against `Up`.
    pub down_up: i64,
    /// Rounds where the agent played `Down` against `Down`.
    pub down_down: i64,
}

impl ActionCounter {
    /// The cell of an ordered `(own, other)` action pair.
    pub open spec fn cell(self, own: ClassicAction, other: ClassicAction) -> i64 {
        match (own, other) {
            (ClassicAction::Up, ClassicAction::Up) => self.up_up,
            (ClassicAction::Up, ClassicAction::Down) => self.up_down,
            (ClassicAction::Down, ClassicAction::Up) => self.down_up,
            (ClassicAction::Down, ClassicAction::Down) => self.down_down,
        }
    }

    /// The tally with every cell at zero.
    pub open spec fn zero_spec() -> ActionCounter {
        ActionCounter { up_up: 0, up_down: 0, down_up: 0, down_down: 0 }
    }

    /// Cell-by-cell sum, each cell clipped to the cell type; under
    /// `add_fits` no clipping happens.
    pub open spec fn add_spec(self, rhs: ActionCounter) -> ActionCounter {
        ActionCounter {
            up_up: (self.up_up + rhs.up_up) as i64,
            up_down: (self.up_down + rhs.up_down) as i64,
            down_up: (self.down_up + rhs.down_up) as i64,
            down_down: (self.down_down + rhs.down_down) as i64,
        }
    }

    /// Every cell-by-cell sum stays inside the cell type.
    pub open spec fn add_fits(self, rhs: ActionCounter) -> bool {
        &&& i64::MIN <= self.up_up + rhs.up_up <= i64::MAX
        &&& i64::MIN <= self.up_down + rhs.up_down <= i64::MAX
        &&& i64::MIN <= self.down_up + rhs.down_up <= i64::MAX
        &&& i64::MIN <= self.down_down + rhs.down_down <= i64::MAX
    }

    /// Cell-by-cell difference, each cell clipped to the cell type; under
    /// `sub_fits` no clipping happens.  A negative cell is a valid outcome.
    pub open spec fn sub_spec(self, rhs: ActionCounter) -> ActionCounter {
        ActionCounter {
            up_up: (self.up_up - rhs.up_up) as i64,
            up_down: (self.up_down - rhs.up_down) as i64,
            down_up: (self.down_up - rhs.down_up) as i64,
            down_down: (self.down_down - rhs.down_down) as i64,
        }
    }

    /// Every cell-by-cell difference stays inside the cell type.
    pub open spec fn sub_fits(self, rhs: ActionCounter) -> bool {
        &&& i64::MIN <= self.up_up - rhs.up_up <= i64::MAX
        &&& i64::MIN <= self.up_down - rhs.up_down <= i64::MAX
        &&& i64::MIN <= self.down_up - rhs.down_up <= i64::MAX
        &&& i64::MIN <= self.down_down - rhs.down_down <= i64::MAX
    }

    /// Builds a tally from its four cells, ordered `(own, other)` with `Up`
    /// first.
    pub fn new(up_up: i64, up_down: i64, down_up: i64, down_down: i64) -> (r: Self)
        ensures
            r.up_up == up_up,
            r.up_down == up_down,
            r.down_up == down_up,
            r.down_down == down_down,
    {
        Self { up_up, up_down, down_up, down_down }
    }

    /// The all-zero tally.
    pub fn zero() -> (r: Self)
        ensures
            r == Self::zero_spec(),
    {
        Self { up_up: 0, up_down: 0, down_up: 0, down_down: 0 }
    }

    /// Reads the cell of an ordered `(own, other)` action pair.
    pub fn count(&self, own: ClassicAction, other: ClassicAction) -> (r: i64)
        ensures
            r == self.cell(own, other),
    {
        match (own, other) {
            (ClassicAction::Up, ClassicAction::Up) => self.up_up,
            (ClassicAction::Up, ClassicAction::Down) => self.up_down,
            (ClassicAction::Down, ClassicAction::Up) => self.down_up,
            (ClassicAction::Down, ClassicAction::Down) => self.down_down,
        }
    }

    /// Adds one round with the given `(own, other)` pair to the tally.
    pub fn record(&mut self, own: ClassicAction, other: ClassicAction)
        requires
            old(self).cell(own, other) < i64::MAX,
        ensures
            final(self).cell(own, other) == old(self).cell(own, other) + 1,
            forall|o: ClassicAction, t: ClassicAction|
                (o, t) != (own, other) ==> #[trigger] final(self).cell(o, t) == old(self).cell(o, t),
    {
        match (own, other) {
            (ClassicAction::Up, ClassicAction::Up) => {
                self.up_up = self.up_up + 1;
            },
            (ClassicAction::Up, ClassicAction::Down) => {
                self.up_down = self.up_down + 1;
            },
            (ClassicAction::Down, ClassicAction::Up) => {
                self.down_up = self.down_up + 1;
            },
            (ClassicAction::Down, ClassicAction::Down) => {
                self.down_down = self.down_down + 1;
            },
        }
    }

    /// Cell-by-cell sum of two tallies.
    pub fn add(self, rhs: Self) -> (r: Self)
        requires
            self.add_fits(rhs),
        ensures
            r == self.add_spec(rhs),
    {
        Self {
            up_up: self.up_up + rhs.up_up,
            up_down: self.up_down + rhs.up_down,
            down_up: self.down_up + rhs.down_up,
            down_down: self.down_down + rhs.down_down,
        }
    }

    /// Folds another tally into this one, cell by cell.
    pub fn add_assign(&mut self, rhs: &Self)
        requires
            old(self).add_fits(*rhs),
        ensures
            *final(self) == old(self).add_spec(*rhs),
    {
        self.up_up = self.up_up + rhs.up_up;
        self.up_down = self.up_down + rhs.up_down;
        self.down_up = self.down_up + rhs.down_up;
        self.down_down = self.down_down + rhs.down_down;
    }

    /// Cell-by-cell difference of two tallies, used for windowed scoring;
    /// negative cells are produced, never clamped.
    pub fn sub(self, rhs: Self) -> (r: Self)
        requires
            self.sub_fits(rhs),
        ensures
            r == self.sub_spec(rhs),
    {
        Self {
            up_up: self.up_up - rhs.up_up,
            up_down: self.up_down - rhs.up_down,
            down_up: self.down_up - rhs.down_up,
            down_down: self.down_down - rhs.down_down,
        }
    }
}

impl Default for ActionCounter {
    /// The default tally is the all-zero tally.
    fn default() -> (r: Self)
        ensures
            r == Self::zero_spec(),
    {
        Self::zero()
    }
}

/// A composite score: the cumulative table payoff together with the tally of
/// the action pairs that produced it.  The two parts always describe the same
/// set of encounters and are only ever updated together.
#[derive(Copy, Clone, Debug, PartialEq)]
pub struct VerboseReward {
    /// Cumulative payoff from the reward table.
    pub table_payoff: IntReward,
    /// The action-pair tally of exactly the encounters folded into
    /// `table_payoff`.
    pub action_counts: ActionCounter,
}

impl VerboseReward {
    /// Component-wise sum, payoff clipped to its type; under `add_fits` no
    /// clipping happens.
    pub open spec fn add_spec(self, rhs: VerboseReward) -> VerboseReward {
        VerboseReward {
            table_payoff: (self.table_payoff + rhs.table_payoff) as IntReward,
            action_counts: self.action_counts.add_spec(rhs.action_counts),
        }
    }

    /// The payoff sum and every tally sum stay inside their types.
    pub open spec fn add_fits(self, rhs: VerboseReward) -> bool {
        &&& i64::MIN <= self.table_payoff + rhs.table_payoff <= i64::MAX
        &&& self.action_counts.add_fits(rhs.action_counts)
    }

    /// Component-wise difference, payoff clipped to its type; under
    /// `sub_fits` no clipping happens.
    pub open spec fn sub_spec(self, rhs: VerboseReward) -> VerboseReward {
        VerboseReward {
            table_payoff: (self.table_payoff - rhs.table_payoff) as IntReward,
            action_counts: self.action_counts.sub_spec(rhs.action_counts),
        }
    }

    /// The payoff difference and every tally difference stay inside their
    /// types.
    pub open spec fn sub_fits(self, rhs: VerboseReward) -> bool {
        &&& i64::MIN <= self.table_payoff - rhs.table_payoff <= i64::MAX
        &&& self.action_counts.sub_fits(rhs.action_counts)
    }

    /// The neutral element of the additive algebra: zero payoff, zero tally.
    pub open spec fn neutral_spec() -> VerboseReward {
        VerboseReward { table_payoff: 0, action_counts: ActionCounter::zero_spec() }
    }

    /// How many rounds the tally records for the agent's own `action`,
    /// whatever the opponent did.
    pub open spec fn count_own_spec(self, action: ClassicAction) -> int {
        self.action_counts.cell(action, ClassicAction::Up)
            + self.action_counts.cell(action, ClassicAction::Down)
    }

    /// How many rounds the tally records for the opponent's `action`,
    /// whatever the agent did.
    pub open spec fn count_other_spec(self, action: ClassicAction) -> int {
        self.action_counts.cell(ClassicAction::Up, action)
            + self.action_counts.cell(ClassicAction::Down, action)
    }

    pub fn new(table_payoff: IntReward, action_counts: ActionCounter) -> (r: Self)
        ensures
            r.table_payoff == table_payoff,
            r.action_counts == action_counts,
    {
        Self { table_payoff, action_counts }
    }

    /// A composite score carrying only a payoff, with an all-zero tally.
    pub fn with_only_table_payoff(payoff: IntReward) -> (r: Self)
        ensures
            r.table_payoff == payoff,
            r.action_counts == ActionCounter::zero_spec(),
    {
        Self { table_payoff: payoff, action_counts: ActionCounter::zero() }
    }

    /// The cumulative table payoff.
    pub fn table_payoff(&self) -> (r: IntReward)
        ensures
            r == self.table_payoff,
    {
        self.table_payoff
    }

    /// Marginal count of the agent's own `action` over the opponent axis.
    pub fn count_own_actions(&self, action: ClassicAction) -> (r: IntReward)
        requires
            i64::MIN <= self.count_own_spec(action) <= i64::MAX,
        ensures
            r == self.count_own_spec(action),
    {
        match action {
            ClassicAction::Up => self.action_counts.up_up + self.action_counts.up_down,
            ClassicAction::Down => self.action_counts.down_up + self.action_counts.down_down,
        }
    }

    /// Marginal count of the opponent's `action` over the agent's own axis.
    pub fn count_other_actions(&self, action: ClassicAction) -> (r: IntReward)
        requires
            i64::MIN <= self.count_other_spec(action) <= i64::MAX,
        ensures
            r == self.count_other_spec(action),
    {
        match action {
            ClassicAction::Up => self.action_counts.up_up + self.action_counts.down_up,
            ClassicAction::Down => self.action_counts.up_down + self.action_counts.down_down,
        }
    }

    /// The opponent's cooperation count (`Down` plays), usable as an
    /// auxiliary shaping signal in place of the table payoff.
    pub fn other_coop_as_reward(&self) -> (r: IntReward)
        requires
            i64::MIN <= self.count_other_spec(ClassicAction::Down) <= i64::MAX,
        ensures
            r == self.count_other_spec(ClassicAction::Down),
    {
        self.action_counts.up_down + self.action_counts.down_down
    }

    /// Component-wise sum of two composite scores.
    pub fn add(self, rhs: Self) -> (r: Self)
        requires
            self.add_fits(rhs),
        ensures
            r == self.add_spec(rhs),
    {
        Self {
            table_payoff: self.table_payoff + rhs.table_payoff,
            action_counts: self.action_counts.add(rhs.action_counts),
        }
    }

    /// Folds another composite score into this one.
    pub fn add_assign(&mut self, rhs: &Self)
        requires
            old(self).add_fits(*rhs),
        ensures
            *final(self) == old(self).add_spec(*rhs),
    {
        self.table_payoff = self.table_payoff + rhs.table_payoff;
        self.action_counts.add_assign(&rhs.action_counts);
    }

    /// Component-wise difference of two composite scores.
    pub fn sub(self, rhs: Self) -> (r: Self)
        requires
            self.sub_fits(rhs),
        ensures
            r == self.sub_spec(rhs),
    {
        Self {
            table_payoff: self.table_payoff - rhs.table_payoff,
            action_counts: self.action_counts.sub(rhs.action_counts),
        }
    }

    /// The neutral element: adding it to any score leaves the score as it
    /// was (`lemma_add_neutral`).
    pub fn neutral() -> (r: Self)
        ensures
            r == Self::neutral_spec(),
    {
        Self { table_payoff: 0, action_counts: ActionCounter::zero() }
    }
}

impl vstd::std_specs::cmp::PartialOrdSpecImpl for VerboseReward {
    open spec fn obeys_partial_cmp_spec() -> bool {
        true
    }

    open spec fn partial_cmp_spec(&self, other: &Self) -> Option<core::cmp::Ordering> {
        if self.table_payoff < other.table_payoff {
            Some(core::cmp::Ordering::Less)
        } else if self.table_payoff == other.table_payoff {
            Some(core::cmp::Ordering::Equal)
        } else {
            Some(core::cmp::Ordering::Greater)
        }
    }
}

impl PartialOrd for VerboseReward {
    /// Composite scores order by their table payoff alone: the tally is a
    /// breakdown, not part of the ranking.
    fn partial_cmp(&self, other: &Self) -> (r: Option<core::cmp::Ordering>) {
        if self.table_payoff < other.table_payoff {
            Some(core::cmp::Ordering::Less)
        } else if self.table_payoff == other.table_payoff {
            Some(core::cmp::Ordering::Equal)
        } else {
            Some(core::cmp::Ordering::Greater)
        }
    }
}

/// Composite-score addition is commutative: both orders give the same score,
/// with no side condition (even the clipped sums agree).
pub proof fn lemma_add_commutative(a: VerboseReward, b: VerboseReward)
    ensures
        a.add_spec(b) == b.add_spec(a),
{
}

/// Composite-score addition is associative wherever the sums are defined,
/// that is, wherever every intermediate sum fits the payoff and cell types.
pub proof fn lemma_add_associative(a: VerboseReward, b: VerboseReward, c: VerboseReward)
    requires
        a.add_fits(b),
        a.add_spec(b).add_fits(c),
        b.add_fits(c),
        a.add_fits(b.add_spec(c)),
    ensures
        a.add_spec(b).add_spec(c) == a.add_spec(b.add_spec(c)),
{
}

/// The neutral score is an identity of addition on either side, for every
/// score `x`.
pub proof fn lemma_add_neutral(x: VerboseReward)
    ensures
        VerboseReward::neutral_spec().add_spec(x) == x,
        x.add_spec(VerboseReward::neutral_spec()) == x,
{
}

} // verus!
