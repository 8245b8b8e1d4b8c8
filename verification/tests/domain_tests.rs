use classic_game::domain::{
    AgentNum, AsUsize, ClassicAction, ConvertError, Cooperate, Defect, EncounterReport,
    PrisonerMap, TwoPlayersStdName,
};
use classic_game::reward_table::{AsymmetricRewardTableInt, Side, SymmetricRewardTableInt};

#[test]
fn action_names_follow_the_game() {
    assert_eq!(Defect.str_prisoner(), "Defect");
    assert_eq!(Cooperate.str_prisoner(), "Cooperate");
    assert_eq!(Defect.str_chicken(), "Hawk");
    assert_eq!(Cooperate.str_chicken(), "Dove");
    assert_eq!(Defect.str_sexes(), "Hawk");
    assert_eq!(Cooperate.str_sexes(), "Dove");
}

#[test]
fn action_indices_round_trip() {
    assert_eq!(Defect.as_usize(), 0);
    assert_eq!(Cooperate.as_usize(), 1);
    assert_eq!(ClassicAction::make_from_usize(0), Defect);
    assert_eq!(ClassicAction::make_from_usize(1), Cooperate);
    assert_eq!(AgentNum::make_from_usize(42).as_usize(), 42);
    assert_eq!(TwoPlayersStdName::make_from_usize(0), TwoPlayersStdName::Alice);
    assert_eq!(TwoPlayersStdName::make_from_usize(1), TwoPlayersStdName::Bob);
    assert_eq!(TwoPlayersStdName::Alice.as_usize(), 0);
    assert_eq!(TwoPlayersStdName::Bob.as_usize(), 1);
}

#[test]
fn action_decoding_accepts_only_real_codes() {
    assert_eq!(ClassicAction::try_from_code(0), Ok(Defect));
    assert_eq!(ClassicAction::try_from_code(1), Ok(Cooperate));
    assert_eq!(ClassicAction::try_from_code(2), Err(ConvertError::ActionDeserialize(2)));
    assert_eq!(ClassicAction::try_from_code(-1), Err(ConvertError::ActionDeserialize(-1)));
}

#[test]
fn roster_members_point_at_each_other() {
    assert_eq!(TwoPlayersStdName::Alice.other(), TwoPlayersStdName::Bob);
    assert_eq!(TwoPlayersStdName::Bob.other(), TwoPlayersStdName::Alice);
}

#[test]
fn prisoner_map_indexes_by_roster_member() {
    let mut map = PrisonerMap::new("alice", "bob");
    assert_eq!(*map.index(TwoPlayersStdName::Alice), "alice");
    assert_eq!(*map.index(TwoPlayersStdName::Bob), "bob");
    *map.index_mut(TwoPlayersStdName::Bob) = "changed";
    assert_eq!(*map.index(TwoPlayersStdName::Alice), "alice");
    assert_eq!(*map.index(TwoPlayersStdName::Bob), "changed");
}

fn report_on(side: Side) -> EncounterReport<AgentNum> {
    EncounterReport { own_action: Defect, other_player_action: Cooperate, side, other_id: 9 }
}

#[test]
fn seat_relative_views_follow_the_side() {
    let left = report_on(Side::Left);
    assert_eq!(left.left_action(), Defect);
    assert_eq!(left.right_action(), Cooperate);
    assert_eq!(left.side_action(Side::Left), Defect);
    assert_eq!(left.side_action(Side::Right), Cooperate);
    assert_eq!(left.own_side(), Side::Left);
    let right = report_on(Side::Right);
    assert_eq!(right.left_action(), Cooperate);
    assert_eq!(right.right_action(), Defect);
    assert_eq!(right.own_side(), Side::Right);
}

#[test]
fn reward_depends_on_the_seat_for_asymmetric_tables() {
    let table = AsymmetricRewardTableInt::new(1, 2, 3, 4, 5, 6, 7, 8);
    // Same action pair, different seats: the derived (left, right) pair and
    // the paying column both flip, so the rewards differ.
    let as_left = report_on(Side::Left).calculate_reward(&table);
    let as_right = report_on(Side::Right).calculate_reward(&table);
    assert_eq!(as_left, 2); // left seat, (Up, Down)
    assert_eq!(as_right, 7); // right seat, (Down, Up)
    assert_ne!(as_left, as_right);
    // And each matches the table looked up with the seat-derived pair.
    assert_eq!(as_left, table.reward_for_side(Side::Left, Defect, Cooperate));
    assert_eq!(as_right, table.reward_for_side(Side::Right, Cooperate, Defect));
}

#[test]
fn symmetric_embedding_pays_both_seats_alike() {
    let sym = SymmetricRewardTableInt::new(1, 5, 0, 3);
    let table = AsymmetricRewardTableInt::symmetric(sym);
    let as_left = report_on(Side::Left).calculate_reward(&table);
    let as_right = report_on(Side::Right).calculate_reward(&table);
    // Both seats see "I defected, the opponent cooperated": 5 either way.
    assert_eq!(as_left, 5);
    assert_eq!(as_right, 5);
    assert_eq!(sym.reward(Defect, Cooperate), 5);
}
