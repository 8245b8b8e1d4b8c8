use classic_game::domain::{
    AgentNum, ClassicAction, ClassicGameUpdate, Cooperate, Defect, EncounterReport,
    TwoPlayersStdName,
};
use classic_game::own_history::OwnHistoryInfoSet;
use classic_game::policy::{fibonacci, FibonacciForgiveStrategy, ForgiveAfterTwo, SwitchAfterTwo};
use classic_game::prisoner::{
    BetrayRatioPolicy, Forgive1Policy, PrisonerInfoSet, RandomPrisonerPolicy, SwitchOnTwoSubsequent,
};
use classic_game::reward_table::{AsymmetricRewardTableInt, Side, SymmetricRewardTableInt};

fn asym_table() -> AsymmetricRewardTableInt {
    AsymmetricRewardTableInt::new(1, 2, 3, 4, 5, 6, 7, 8)
}

fn sym_table() -> SymmetricRewardTableInt {
    SymmetricRewardTableInt::new(1, 5, 0, 3)
}

fn report(own: ClassicAction, other: ClassicAction) -> EncounterReport<AgentNum> {
    EncounterReport { own_action: own, other_player_action: other, side: Side::Left, other_id: 1 }
}

fn named_report(own: ClassicAction, other: ClassicAction) -> EncounterReport<TwoPlayersStdName> {
    EncounterReport {
        own_action: own,
        other_player_action: other,
        side: Side::Left,
        other_id: TwoPlayersStdName::Bob,
    }
}

/// Feeds the opponent actions to a fresh full-history set for agent 0.
fn history_set(other_actions: &[ClassicAction]) -> OwnHistoryInfoSet<AgentNum> {
    let mut set = OwnHistoryInfoSet::new(0, asym_table());
    for &other in other_actions {
        let update =
            ClassicGameUpdate { encounters: vec![report(Cooperate, other)], pairing: None };
        set.update(update).unwrap();
    }
    set
}

/// Feeds the opponent actions to a fresh prisoner set for Alice.
fn prisoner_set(other_actions: &[ClassicAction]) -> PrisonerInfoSet {
    let mut set = PrisonerInfoSet::new(TwoPlayersStdName::Alice, sym_table());
    for &other in other_actions {
        let update =
            ClassicGameUpdate { encounters: vec![named_report(Cooperate, other)], pairing: None };
        set.update(update).unwrap();
    }
    set
}

#[test]
fn t_fibonacci() {
    assert_eq!(fibonacci(10), 55)
}

#[test]
fn fibonacci_base_cases() {
    assert_eq!(fibonacci(0), 0);
    assert_eq!(fibonacci(1), 1);
    assert_eq!(fibonacci(2), 1);
    assert_eq!(fibonacci(12), 144);
}

#[test]
fn switch_after_two_repeats_last_defection() {
    let set = history_set(&[Defect, Defect]);
    assert_eq!(SwitchAfterTwo {}.select_action(&set), Some(Defect));
}

#[test]
fn switch_after_two_cooperates_on_empty_history() {
    let set = history_set(&[]);
    assert_eq!(SwitchAfterTwo {}.select_action(&set), Some(Cooperate));
}

#[test]
fn forgive_after_two_forgives_two_cooperations() {
    let set = history_set(&[Defect, Cooperate, Cooperate]);
    assert_eq!(ForgiveAfterTwo {}.select_action(&set), Some(Cooperate));
}

#[test]
fn forgive_after_two_punishes_recent_defection() {
    let set = history_set(&[Cooperate, Defect]);
    assert_eq!(ForgiveAfterTwo {}.select_action(&set), Some(Defect));
}

#[test]
fn forgive_after_two_cooperates_on_empty_history() {
    let set = history_set(&[]);
    assert_eq!(ForgiveAfterTwo {}.select_action(&set), Some(Cooperate));
}

#[test]
fn fibonacci_forgive_weighs_penalty_against_cooperations() {
    // Three defections: penalty fib(3) = 2 exceeds one cooperation.
    let grudging = history_set(&[Defect, Defect, Defect, Cooperate]);
    assert_eq!(FibonacciForgiveStrategy::default().select_action(&grudging), Some(Defect));
    // Two cooperations match the penalty, so the policy forgives.
    let forgiven = history_set(&[Defect, Defect, Defect, Cooperate, Cooperate]);
    assert_eq!(FibonacciForgiveStrategy::default().select_action(&forgiven), Some(Cooperate));
    // No history at all: fib(0) = 0 exceeds nothing.
    let empty = history_set(&[]);
    assert_eq!(FibonacciForgiveStrategy::default().select_action(&empty), Some(Cooperate));
}

#[test]
fn forgive1_tolerates_exactly_one_betrayal() {
    let once = prisoner_set(&[Defect, Cooperate]);
    assert_eq!(Forgive1Policy {}.select_action(&once), Some(Cooperate));
    let twice = prisoner_set(&[Defect, Cooperate, Defect]);
    assert_eq!(Forgive1Policy {}.select_action(&twice), Some(Defect));
}

#[test]
fn betray_ratio_compares_counts() {
    let mostly_kind = prisoner_set(&[Cooperate, Defect, Cooperate]);
    assert_eq!(BetrayRatioPolicy {}.select_action(&mostly_kind), Some(Cooperate));
    let mostly_mean = prisoner_set(&[Defect, Defect, Cooperate]);
    assert_eq!(BetrayRatioPolicy {}.select_action(&mostly_mean), Some(Defect));
    let balanced = prisoner_set(&[Defect, Cooperate]);
    assert_eq!(BetrayRatioPolicy {}.select_action(&balanced), Some(Cooperate));
}

#[test]
fn switch_on_two_subsequent_needs_a_real_pair() {
    // A single round is never a run of two.
    let single = prisoner_set(&[Defect]);
    assert_eq!(SwitchOnTwoSubsequent {}.select_action(&single), Some(Cooperate));
    // The last two rounds repeat: copy that action.
    let run = prisoner_set(&[Cooperate, Defect, Defect]);
    assert_eq!(SwitchOnTwoSubsequent {}.select_action(&run), Some(Defect));
    // The most recent adjacent repeat wins even if an older one exists.
    let older_run = prisoner_set(&[Defect, Defect, Cooperate, Cooperate]);
    assert_eq!(SwitchOnTwoSubsequent {}.select_action(&older_run), Some(Cooperate));
    // Strictly alternating history holds no run at all.
    let alternating = prisoner_set(&[Defect, Cooperate, Defect, Cooperate]);
    assert_eq!(SwitchOnTwoSubsequent {}.select_action(&alternating), Some(Cooperate));
    let empty = prisoner_set(&[]);
    assert_eq!(SwitchOnTwoSubsequent {}.select_action(&empty), Some(Cooperate));
}

#[test]
fn random_policy_always_picks_a_legal_action() {
    let set = prisoner_set(&[]);
    for _ in 0..64 {
        let choice = RandomPrisonerPolicy {}.select_action(&set);
        assert!(choice == Some(Defect) || choice == Some(Cooperate));
    }
}
