use classic_game::domain::{
    AgentNum, ClassicAction, ClassicGameError, ClassicGameUpdate, Cooperate, Defect,
    EncounterReport, TensorRepresentationError, TwoPlayersStdName,
};
use classic_game::historyless::HistorylessInfoSet;
use classic_game::own_history::{OwnHistoryInfoSet, OwnHistoryTensorRepr};
use classic_game::prisoner::{PrisonerInfoSet, PrisonerInfoSetWay};
use classic_game::reward_table::{AsymmetricRewardTableInt, Side, SymmetricRewardTableInt};

fn asym_table() -> AsymmetricRewardTableInt {
    AsymmetricRewardTableInt::new(1, 2, 3, 4, 5, 6, 7, 8)
}

fn report(
    own: ClassicAction,
    other: ClassicAction,
    side: Side,
) -> EncounterReport<AgentNum> {
    EncounterReport { own_action: own, other_player_action: other, side, other_id: 1 }
}

fn update_of(reports: Vec<EncounterReport<AgentNum>>) -> ClassicGameUpdate<AgentNum> {
    ClassicGameUpdate { encounters: reports, pairing: None }
}

#[test]
fn historyless_accumulates_rewards() {
    let mut set = HistorylessInfoSet::new(0, asym_table());
    assert_eq!(set.current_subjective_score(), 0);
    // Left seat, (Up, Down): the left-seat table entry pays 2.
    set.update(update_of(vec![report(Defect, Cooperate, Side::Left)])).unwrap();
    assert_eq!(set.current_subjective_score(), 2);
    // Right seat, (Down, Up): left action is the opponent's.  Pays 7.
    set.update(update_of(vec![report(Defect, Cooperate, Side::Right)])).unwrap();
    assert_eq!(set.current_subjective_score(), 9);
    assert_eq!(*set.agent_id(), 0);
    assert_eq!(set.penalty_for_illegal(), -10);
    assert!(set.is_action_valid(&Defect));
    assert_eq!(set.available_actions(), [Cooperate, Defect]);
}

#[test]
fn historyless_update_without_entry_changes_nothing() {
    let mut set = HistorylessInfoSet::new(3, asym_table());
    set.update(update_of(vec![
        report(Defect, Cooperate, Side::Left),
        report(Cooperate, Defect, Side::Right),
        report(Cooperate, Cooperate, Side::Left),
        report(Defect, Defect, Side::Right),
    ]))
    .unwrap();
    let score_before = set.current_subjective_score();
    // Only three entries: index 3 is missing.
    let result = set.update(update_of(vec![
        report(Defect, Cooperate, Side::Left),
        report(Cooperate, Defect, Side::Right),
        report(Cooperate, Cooperate, Side::Left),
    ]));
    assert_eq!(result, Err(ClassicGameError::EncounterNotReported(3)));
    assert_eq!(set.current_subjective_score(), score_before);
}

#[test]
fn own_history_keeps_counters_in_lockstep() {
    let mut set = OwnHistoryInfoSet::new(0, asym_table());
    set.update(update_of(vec![report(Cooperate, Cooperate, Side::Left)])).unwrap();
    set.update(update_of(vec![report(Cooperate, Defect, Side::Left)])).unwrap();
    set.update(update_of(vec![report(Defect, Cooperate, Side::Left)])).unwrap();
    set.update(update_of(vec![report(Cooperate, Defect, Side::Right)])).unwrap();
    let counter = set.action_counter();
    assert_eq!(counter.count(Cooperate, Cooperate), 1);
    assert_eq!(counter.count(Cooperate, Defect), 2);
    assert_eq!(counter.count(Defect, Cooperate), 1);
    assert_eq!(counter.count(Defect, Defect), 0);
    // The four cells partition the history.
    assert_eq!(
        counter.count(Cooperate, Cooperate)
            + counter.count(Cooperate, Defect)
            + counter.count(Defect, Cooperate)
            + counter.count(Defect, Defect),
        set.previous_encounters().len() as i64
    );
    // Raw-history recounts agree with the cached tally.
    assert_eq!(set.count_actions_self_calculate(Cooperate), 3);
    assert_eq!(set.count_actions_self_calculate(Defect), 1);
    assert_eq!(set.count_actions_other(Cooperate), 2);
    assert_eq!(set.count_actions_other(Defect), 2);
    // Payoffs: left (Down,Down) -> 4, left (Down,Up) -> 3, left (Up,Down)
    // -> 2, right seat (Down,Down)... own Down on the right seat with the
    // opponent's Up on the left: entry (Up, Down) for the right seat -> 6.
    let score = set.current_subjective_score();
    assert_eq!(score.table_payoff(), 4 + 3 + 2 + 6);
    assert_eq!(score.count_own_actions(Cooperate), 3);
    assert_eq!(score.count_other_actions(Defect), 2);
}

#[test]
fn own_history_update_without_entry_changes_nothing() {
    let mut set = OwnHistoryInfoSet::new(2, asym_table());
    set.update(update_of(vec![
        report(Cooperate, Cooperate, Side::Left),
        report(Cooperate, Cooperate, Side::Left),
        report(Defect, Cooperate, Side::Left),
    ]))
    .unwrap();
    let rounds_before = set.previous_encounters().len();
    let score_before = set.current_subjective_score();
    let result = set.update(update_of(vec![report(Cooperate, Defect, Side::Left)]));
    assert_eq!(result, Err(ClassicGameError::EncounterNotReported(2)));
    assert_eq!(set.previous_encounters().len(), rounds_before);
    assert_eq!(set.current_subjective_score(), score_before);
}

#[test]
fn own_history_reset_clears_everything_but_identity() {
    let mut set = OwnHistoryInfoSet::new(0, asym_table());
    set.update(update_of(vec![report(Defect, Defect, Side::Left)])).unwrap();
    set.update(update_of(vec![report(Cooperate, Defect, Side::Left)])).unwrap();
    assert!(set.previous_encounters().len() > 0);
    set.reset();
    assert_eq!(set.previous_encounters().len(), 0);
    let score = set.current_subjective_score();
    assert_eq!(score.table_payoff(), 0);
    assert_eq!(score.count_own_actions(Cooperate), 0);
    assert_eq!(score.count_own_actions(Defect), 0);
    assert_eq!(*set.agent_id(), 0);
    // The table survives: the next update scores against it as before.
    set.update(update_of(vec![report(Defect, Cooperate, Side::Left)])).unwrap();
    assert_eq!(set.current_subjective_score().table_payoff(), 2);
}

#[test]
fn own_history_renew_behaves_like_reset() {
    let mut set = OwnHistoryInfoSet::new(0, asym_table());
    set.update(update_of(vec![report(Defect, Defect, Side::Left)])).unwrap();
    set.renew_from(());
    assert_eq!(set.previous_encounters().len(), 0);
    assert_eq!(set.current_subjective_score().table_payoff(), 0);
}

#[test]
fn own_history_penalty_is_fixed() {
    let set = OwnHistoryInfoSet::<AgentNum>::new(0, asym_table());
    let penalty = set.penalty_for_illegal();
    assert_eq!(penalty.table_payoff(), -100);
    assert_eq!(penalty.count_own_actions(Cooperate), 0);
}

#[test]
fn own_history_encoding_lays_out_rows_and_padding() {
    let mut set = OwnHistoryInfoSet::new(0, asym_table());
    set.update(update_of(vec![report(Defect, Cooperate, Side::Left)])).unwrap();
    set.update(update_of(vec![report(Cooperate, Cooperate, Side::Left)])).unwrap();
    let way = OwnHistoryTensorRepr::new(4);
    assert_eq!(way.shape(), &[2i64, 4][..]);
    let buffer = set.try_encode(&way).unwrap();
    // Own actions (Up -> 0, Down -> 1) then padding, then the opponent row.
    assert_eq!(buffer, vec![0, 1, -1, -1, 1, 1, -1, -1]);
}

#[test]
fn own_history_encoding_accepts_exact_fit() {
    let mut set = OwnHistoryInfoSet::new(0, asym_table());
    set.update(update_of(vec![report(Defect, Cooperate, Side::Left)])).unwrap();
    set.update(update_of(vec![report(Cooperate, Defect, Side::Left)])).unwrap();
    let way = OwnHistoryTensorRepr::new(2);
    let buffer = set.try_encode(&way).unwrap();
    assert_eq!(buffer, vec![0, 1, 1, 0]);
}

#[test]
fn own_history_encoding_rejects_overlong_history() {
    let mut set = OwnHistoryInfoSet::new(0, asym_table());
    for _ in 0..3 {
        set.update(update_of(vec![report(Defect, Cooperate, Side::Left)])).unwrap();
    }
    let way = OwnHistoryTensorRepr::new(2);
    assert_eq!(
        set.try_encode(&way),
        Err(TensorRepresentationError::InfoSetNotFit { history_len: 3, max_rounds: 2 })
    );
    // The set itself is untouched and a roomier shape still works.
    assert_eq!(set.previous_encounters().len(), 3);
    assert!(set.try_encode(&OwnHistoryTensorRepr::new(3)).is_ok());
}

fn named_update(own: ClassicAction, other: ClassicAction) -> ClassicGameUpdate<TwoPlayersStdName> {
    ClassicGameUpdate {
        encounters: vec![EncounterReport {
            own_action: own,
            other_player_action: other,
            side: Side::Left,
            other_id: TwoPlayersStdName::Bob,
        }],
        pairing: None,
    }
}

#[test]
fn prisoner_set_records_history_and_scores() {
    // Symmetric prisoner's dilemma: both cooperate -> 3, both defect -> 1,
    // lone defector -> 5, betrayed cooperator -> 0.
    let table = SymmetricRewardTableInt::new(1, 5, 0, 3);
    let mut set = PrisonerInfoSet::new(TwoPlayersStdName::Alice, table);
    assert_eq!(set.total_table_payoff(), Some(0));
    set.update(named_update(Cooperate, Cooperate)).unwrap();
    set.update(named_update(Cooperate, Defect)).unwrap();
    set.update(named_update(Defect, Cooperate)).unwrap();
    assert_eq!(set.previous_actions().len(), 3);
    assert_eq!(set.count_actions(Cooperate), 2);
    assert_eq!(set.count_actions(Defect), 1);
    assert_eq!(set.total_table_payoff(), Some(3 + 0 + 5));
    assert_eq!(*set.agent_id(), TwoPlayersStdName::Alice);
    assert_eq!(set.penalty_for_illegal(), -100);
    assert_eq!(set.available_actions(), [Defect, Cooperate]);
}

#[test]
fn prisoner_update_without_entry_changes_nothing() {
    let table = SymmetricRewardTableInt::new(1, 5, 0, 3);
    let mut set = PrisonerInfoSet::new(TwoPlayersStdName::Bob, table);
    // Bob's index is 1; a single-entry update has no entry for him.
    let result = set.update(named_update(Cooperate, Cooperate));
    assert_eq!(result, Err(ClassicGameError::EncounterNotReported(1)));
    assert_eq!(set.previous_actions().len(), 0);
}

#[test]
fn prisoner_encoding_interleaves_and_pads() {
    let table = SymmetricRewardTableInt::new(1, 5, 0, 3);
    let mut set = PrisonerInfoSet::new(TwoPlayersStdName::Alice, table);
    set.update(named_update(Defect, Cooperate)).unwrap();
    set.update(named_update(Cooperate, Defect)).unwrap();
    let way = PrisonerInfoSetWay::default();
    assert_eq!(way.desired_shape(), [512]);
    let buffer = set.try_encode(&way).unwrap();
    assert_eq!(buffer.len(), 512);
    // Interleaved codes (Up -> 1, Down -> 2), sentinel 0 afterwards.
    assert_eq!(&buffer[..6], &[1i64, 2, 2, 1, 0, 0][..]);
    assert_eq!(buffer[511], 0);
}

#[test]
fn prisoner_encoding_rejects_overlong_history() {
    let table = SymmetricRewardTableInt::new(1, 5, 0, 3);
    let mut set = PrisonerInfoSet::new(TwoPlayersStdName::Alice, table);
    for _ in 0..257 {
        set.update(named_update(Cooperate, Cooperate)).unwrap();
    }
    assert_eq!(
        set.try_encode(&PrisonerInfoSetWay::default()),
        Err(TensorRepresentationError::InfoSetNotFit { history_len: 257, max_rounds: 256 })
    );
}
