use morra::commitment::commit;
use morra::error::{ErrorKind, GameError};
use morra::game::{Game, GameStatus, PlayerMove, Role, MAX_STAKE};
use morra::identity::{same_party, words_equal, AccountId};
use morra::protocol::{create_game, join_game, reveal_move, submit_move, BetLimits};

fn account(tag: u8) -> AccountId {
    AccountId::new([tag; 32])
}

fn finished() -> Game {
    let limits = BetLimits { min_bet: 1, max_bet: 1_000 };
    let (mut game, _) = create_game(account(9), account(1), 100, &limits, 0).unwrap();
    join_game(&mut game, account(2), 100, 1).unwrap();
    submit_move(&mut game, account(1), commit(3, 5, &[1; 32]), 2).unwrap();
    submit_move(&mut game, account(2), commit(2, 5, &[2; 32]), 3).unwrap();
    reveal_move(&mut game, account(1), 3, 5, [1; 32], 4).unwrap();
    reveal_move(&mut game, account(2), 2, 5, [2; 32], 5).unwrap();
    game
}

#[test]
fn words_equal_compares_every_byte() {
    let word = [5u8; 32];
    assert!(words_equal(&word, &word));
    for position in 0..32 {
        let mut other = word;
        other[position] = 6;
        assert!(!words_equal(&word, &other));
        assert!(!words_equal(&other, &word));
    }
}

#[test]
fn identities_compare_by_their_bytes() {
    assert!(account(1).same_as(&account(1)));
    assert!(!account(1).same_as(&account(2)));
    assert_eq!(AccountId::new([3; 32]).bytes, [3; 32]);
    assert!(same_party(&None, &None));
    assert!(same_party(&Some(account(1)), &Some(account(1))));
    assert!(!same_party(&Some(account(1)), &Some(account(2))));
    assert!(!same_party(&Some(account(1)), &None));
    assert!(!same_party(&None, &Some(account(1))));
}

#[test]
fn find_role_tells_the_parties_apart() {
    let game = finished();
    assert_eq!(game.find_role(&account(1)), Some(Role::Creator));
    assert_eq!(game.find_role(&account(2)), Some(Role::Opponent));
    assert_eq!(game.find_role(&account(3)), None);
    assert_eq!(game.find_role(&account(9)), None);
    assert_eq!(game.record_of(Role::Creator), game.creator_move);
    assert_eq!(game.record_of(Role::Opponent), game.opponent_move);
    let limits = BetLimits { min_bet: 1, max_bet: 1_000 };
    let (fresh, _) = create_game(account(9), account(1), 100, &limits, 0).unwrap();
    assert_eq!(fresh.find_role(&account(1)), Some(Role::Creator));
    assert_eq!(fresh.find_role(&account(2)), None);
}

#[test]
fn status_has_result_only_at_the_end() {
    assert!(!GameStatus::WaitingForOpponent.has_result());
    assert!(!GameStatus::WaitingForMoves.has_result());
    assert!(!GameStatus::WaitingForReveal.has_result());
    assert!(GameStatus::Completed.has_result());
    assert!(GameStatus::Draw.has_result());
}

#[test]
fn blank_record_is_valid() {
    let record = PlayerMove::blank();
    assert_eq!(record, PlayerMove { committed_hash: None, card: None, prediction: None });
    assert!(record.is_well_formed());
}

#[test]
fn record_validity() {
    let hash = Some([1u8; 32]);
    assert!(PlayerMove { committed_hash: hash, card: None, prediction: None }.is_well_formed());
    assert!(PlayerMove { committed_hash: hash, card: Some(1), prediction: Some(2) }.is_well_formed());
    assert!(PlayerMove { committed_hash: hash, card: Some(5), prediction: Some(10) }.is_well_formed());
    assert!(!PlayerMove { committed_hash: hash, card: Some(0), prediction: Some(2) }.is_well_formed());
    assert!(!PlayerMove { committed_hash: hash, card: Some(6), prediction: Some(2) }.is_well_formed());
    assert!(!PlayerMove { committed_hash: hash, card: Some(1), prediction: Some(1) }.is_well_formed());
    assert!(!PlayerMove { committed_hash: hash, card: Some(1), prediction: Some(11) }.is_well_formed());
    assert!(!PlayerMove { committed_hash: hash, card: Some(1), prediction: None }.is_well_formed());
    assert!(!PlayerMove { committed_hash: hash, card: None, prediction: Some(2) }.is_well_formed());
    assert!(!PlayerMove { committed_hash: None, card: Some(1), prediction: Some(2) }.is_well_formed());
}

#[test]
fn games_made_by_the_operations_are_valid() {
    let limits = BetLimits { min_bet: 1, max_bet: 1_000 };
    let (mut game, _) = create_game(account(9), account(1), 100, &limits, 0).unwrap();
    assert!(game.is_well_formed());
    join_game(&mut game, account(2), 100, 1).unwrap();
    assert!(game.is_well_formed());
    submit_move(&mut game, account(1), commit(3, 5, &[1; 32]), 2).unwrap();
    assert!(game.is_well_formed());
    submit_move(&mut game, account(2), commit(2, 5, &[2; 32]), 3).unwrap();
    assert!(game.is_well_formed());
    reveal_move(&mut game, account(1), 3, 5, [1; 32], 4).unwrap();
    assert!(game.is_well_formed());
    reveal_move(&mut game, account(2), 2, 5, [2; 32], 5).unwrap();
    assert!(game.is_well_formed());
}

#[test]
fn bet_must_be_positive_and_leave_room_for_the_pot() {
    let game = finished();
    assert!(Game { bet_amount: 1, ..game }.is_well_formed());
    assert!(Game { bet_amount: MAX_STAKE, ..game }.is_well_formed());
    assert!(!Game { bet_amount: 0, ..game }.is_well_formed());
    assert!(!Game { bet_amount: MAX_STAKE + 1, ..game }.is_well_formed());
    assert_eq!(MAX_STAKE, u64::MAX / 2);
}

#[test]
fn parties_must_differ() {
    let game = finished();
    assert!(!Game { opponent: Some(game.creator), ..game }.is_well_formed());
}

#[test]
fn winner_must_be_the_one_the_moves_name() {
    let game = finished();
    assert_eq!(game.winner, Some(account(1)));
    assert!(!Game { winner: Some(account(2)), ..game }.is_well_formed());
    assert!(!Game { winner: Some(account(3)), ..game }.is_well_formed());
    assert!(!Game { winner: None, ..game }.is_well_formed());
    assert!(!Game { status: GameStatus::Draw, winner: None, ..game }.is_well_formed());
    assert!(!Game { status: GameStatus::Draw, ..game }.is_well_formed());
}

#[test]
fn status_must_fit_the_records() {
    let game = finished();
    assert!(!Game { status: GameStatus::WaitingForReveal, ..game }.is_well_formed());
    assert!(!Game { status: GameStatus::WaitingForMoves, ..game }.is_well_formed());
    assert!(!Game { status: GameStatus::WaitingForOpponent, ..game }.is_well_formed());
    assert!(!Game { opponent: None, ..game }.is_well_formed());
    assert!(!Game { creator_move: PlayerMove::blank(), ..game }.is_well_formed());
    let limits = BetLimits { min_bet: 1, max_bet: 1_000 };
    let (fresh, _) = create_game(account(9), account(1), 100, &limits, 0).unwrap();
    assert!(!Game { opponent: Some(account(2)), ..fresh }.is_well_formed());
    assert!(!Game { status: GameStatus::WaitingForMoves, ..fresh }.is_well_formed());
    assert!(!Game { status: GameStatus::Completed, ..fresh }.is_well_formed());
}

#[test]
fn only_a_game_with_a_result_can_be_settled_or_won() {
    let limits = BetLimits { min_bet: 1, max_bet: 1_000 };
    let (mut game, _) = create_game(account(9), account(1), 100, &limits, 0).unwrap();
    assert!(!Game { settled: true, ..game }.is_well_formed());
    assert!(!Game { winner: Some(account(1)), ..game }.is_well_formed());
    join_game(&mut game, account(2), 100, 1).unwrap();
    assert!(!Game { settled: true, ..game }.is_well_formed());
    assert!(!Game { winner: Some(account(2)), ..game }.is_well_formed());
    assert!(Game { settled: true, ..finished() }.is_well_formed());
}

#[test]
fn resolve_game_sets_status_and_winner() {
    let game = finished();
    let mut again = Game { status: GameStatus::WaitingForReveal, winner: None, ..game };
    again.resolve_game();
    assert_eq!(again, game);
    again.resolve_game();
    assert_eq!(again, game);

    let mut drawn = Game {
        creator_move: PlayerMove { card: Some(3), prediction: Some(6), ..game.creator_move },
        opponent_move: PlayerMove { card: Some(3), prediction: Some(6), ..game.opponent_move },
        ..game
    };
    drawn.resolve_game();
    assert_eq!(drawn.status, GameStatus::Draw);
    assert_eq!(drawn.winner, None);

    let mut lost = Game {
        creator_move: PlayerMove { card: Some(1), prediction: Some(9), ..game.creator_move },
        opponent_move: PlayerMove { card: Some(4), prediction: Some(5), ..game.opponent_move },
        ..game
    };
    lost.resolve_game();
    assert_eq!(lost.status, GameStatus::Completed);
    assert_eq!(lost.winner, Some(account(2)));
}

#[test]
fn errors_fall_into_three_kinds() {
    assert_eq!(GameError::InvalidBetAmount.kind(), ErrorKind::Validation);
    assert_eq!(GameError::InvalidMove.kind(), ErrorKind::Validation);
    assert_eq!(GameError::CannotJoinOwnGame.kind(), ErrorKind::Validation);
    assert_eq!(GameError::UnknownPlayer.kind(), ErrorKind::Validation);
    assert_eq!(GameError::GameNotAvailable.kind(), ErrorKind::ProtocolOrder);
    assert_eq!(GameError::GameNotInProgress.kind(), ErrorKind::ProtocolOrder);
    assert_eq!(GameError::GameNotInRevealPhase.kind(), ErrorKind::ProtocolOrder);
    assert_eq!(GameError::GameNotCompleted.kind(), ErrorKind::ProtocolOrder);
    assert_eq!(GameError::CommitmentAlreadySet.kind(), ErrorKind::ProtocolOrder);
    assert_eq!(GameError::AlreadyRevealed.kind(), ErrorKind::ProtocolOrder);
    assert_eq!(GameError::AlreadySettled.kind(), ErrorKind::ProtocolOrder);
    assert_eq!(GameError::InvalidCommitment.kind(), ErrorKind::CommitmentMismatch);
}
