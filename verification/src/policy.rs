//! Deterministic decision policies over the full-history information set.
//! Every policy is a pure function of the state it is handed: it carries no
//! mutable state of its own, and its choice is pinned down exactly by its
//! contract.

use vstd::prelude::*;
use crate::domain::{ClassicAction, Cooperate, Defect, EncounterReport, UsizeAgentId};
use crate::own_history::{count_other_rounds, OwnHistoryInfoSet};

verus! {

/// The standard integer Fibonacci sequence: `fib(0) = 0`, `fib(1) = 1`,
/// `fib(n) = fib(n - 2) + fib(n - 1)`.
pub open spec fn fib(n: nat) -> nat
    decreases n,
{
    if n == 0 {
        0
    } else if n == 1 {
        1
    } else {
        fib((n - 2) as nat) + fib((n - 1) as nat)
    }
}

/// The Fibonacci sequence never decreases.
pub proof fn lemma_fib_monotone(i: nat, j: nat)
    requires
        i <= j,
    ensures
        fib(i) <= fib(j),
    decreases j,
{
    if j <= 1 || i == j {
    } else {
        lemma_fib_monotone(i, (j - 1) as nat);
    }
}

/// Iterative computation of `fib`, exactly as the mathematical sequence
/// defines it.
pub fn fibonacci(index: u64) -> (r: u64)
    requires
        fib(index as nat) <= u64::MAX,
    ensures
        r == fib(index as nat),
{
    if index == 0 {
        return 0;
    }
    if index == 1 {
        return 1;
    }
    let mut f1: u64 = 0;
    let mut f2: u64 = 1;
    let mut f: u64 = 1;
    let mut i: u128 = 2;
    while i <= index as u128
        invariant
            2 <= i <= index + 1,
            index >= 2,
            f1 == fib((i - 2) as nat),
            f2 == fib((i - 1) as nat),
            i == 2 ==> f == 1,
            i > 2 ==> f == f2,
            fib(index as nat) <= u64::MAX,
        decreases index + 1 - i,
    {
        proof {
            lemma_fib_monotone(i as nat, index as nat);
            assert(fib(i as nat) == fib((i - 2) as nat) + fib((i - 1) as nat));
        }
        f = f1 + f2;
        f1 = f2;
        f2 = f;
        i = i + 1;
    }
    f
}

/// Decides whether `fib(index) > bound` without ever materialising a
/// Fibonacci number that overflows: the iteration stops as soon as the
/// running value exceeds `bound`, and monotonicity carries the verdict to
/// `index`.
fn fib_exceeds(index: u64, bound: u64) -> (r: bool)
    ensures
        r == (fib(index as nat) > bound),
{
    if index == 0 {
        return false;
    }
    let big_bound: u128 = bound as u128;
    let mut f1: u128 = 0;
    let mut f2: u128 = 1;
    let mut i: u64 = 1;
    while i < index && f2 <= big_bound
        invariant
            1 <= i <= index,
            big_bound == bound,
            f1 == fib((i - 1) as nat),
            f2 == fib(i as nat),
            f1 <= f2,
        decreases index - i,
    {
        let f = f1 + f2;
        f1 = f2;
        f2 = f;
        i = i + 1;
        proof {
            assert(fib(i as nat) == fib((i - 2) as nat) + fib((i - 1) as nat));
        }
    }
    if i == index {
        f2 > big_bound
    } else {
        proof {
            lemma_fib_monotone(i as nat, index as nat);
        }
        true
    }
}

/// Tit-for-tat with an inclusive repeat-detection window: the backward scan
/// for the most recent run of identical opponent actions includes the last
/// round itself, so the run it finds is always headed by the opponent's most
/// recent action and the choice reduces to repeating it.  (A variant that
/// excludes the last round from the window is `SwitchOnTwoSubsequent`; the
/// inclusive scan is the canonical one here.)  With no history the policy
/// cooperates.
pub struct SwitchAfterTwo {
}

impl SwitchAfterTwo {
    pub fn select_action<ID: UsizeAgentId>(&self, state: &OwnHistoryInfoSet<ID>) -> (r: Option<
        ClassicAction,
    >)
        ensures
            state.history().len() == 0 ==> r == Some(Cooperate),
            state.history().len() > 0 ==> r == Some(state.history().last().other_player_action),
    {
        let n = state.previous_encounters().len();
        if n == 0 {
            Some(Cooperate)
        } else {
            Some(state.previous_encounters()[n - 1].other_player_action)
        }
    }
}

/// A defection anywhere in the opponent's last two rounds.
pub open spec fn defect_in_last_two<ID: UsizeAgentId>(s: Seq<EncounterReport<ID>>) -> bool {
    ||| s.len() >= 1 && s[s.len() - 1].other_player_action == Defect
    ||| s.len() >= 2 && s[s.len() - 2].other_player_action == Defect
}

/// Defects while any of the opponent's last two moves was a defection;
/// forgives — returns to cooperation — once the opponent has cooperated
/// twice in a row.  The backward scan answers at the first defection it
/// meets and confirms forgiveness after two consecutive cooperations, so
/// only the last two rounds ever matter.  With no history the policy
/// cooperates.
pub struct ForgiveAfterTwo {
}

impl ForgiveAfterTwo {
    pub fn select_action<ID: UsizeAgentId>(&self, state: &OwnHistoryInfoSet<ID>) -> (r: Option<
        ClassicAction,
    >)
        ensures
            r == Some(
                if defect_in_last_two(state.history()) {
                    Defect
                } else {
                    Cooperate
                },
            ),
    {
        let n = state.previous_encounters().len();
        if n == 0 {
            return Some(Cooperate);
        }
        if state.previous_encounters()[n - 1].other_player_action == Defect {
            return Some(Defect);
        }
        if n >= 2 && state.previous_encounters()[n - 2].other_player_action == Defect {
            return Some(Defect);
        }
        Some(Cooperate)
    }
}

/// Fibonacci-scaled forgiveness: the penalty for the opponent's accumulated
/// defections is `fib(defections)`, and the policy defects while that
/// penalty exceeds the opponent's accumulated cooperations.  Tolerance thus
/// decays super-linearly as defections pile up, unless offset by
/// commensurately growing cooperative evidence.  Both counts are
/// order-independent aggregates of the whole history.
#[derive(Clone, Default)]
pub struct FibonacciForgiveStrategy {
}

impl FibonacciForgiveStrategy {
    pub fn select_action<ID: UsizeAgentId>(&self, state: &OwnHistoryInfoSet<ID>) -> (r: Option<
        ClassicAction,
    >)
        ensures
            r == Some(
                if fib(count_other_rounds(state.history(), Defect) as nat) > count_other_rounds(
                    state.history(),
                    Cooperate,
                ) {
                    Defect
                } else {
                    Cooperate
                },
            ),
    {
        let enemy_defects = state.count_actions_other(Defect);
        let enemy_coops = state.count_actions_other(Cooperate);
        if fib_exceeds(enemy_defects as u64, enemy_coops as u64) {
            Some(Defect)
        } else {
            Some(Cooperate)
        }
    }
}

} // verus!
