use dice_game::game::Game;
use dice_game::game::GameError;
use dice_game::game::GameStatus;
use dice_game::player::Player;

#[test]
fn unknown_game_uniformly_not_found() {
    let mut g = Game::new();
    assert!(matches!(g.get_game(42), Err(GameError::GameNotFound)));
    assert!(matches!(g.join_to_game(42, 1), Err(GameError::GameNotFound)));
    assert!(matches!(g.leave_game(42, 1), Err(GameError::GameNotFound)));
    assert!(matches!(g.rool_dice(42, 1), Err(GameError::GameNotFound)));
}

#[test]
fn create_then_lookup_waiting() {
    let mut g = Game::new();
    g.new_game(7, 100);
    match g.get_game(7) {
        Ok(GameStatus::Waiting(host)) => assert_eq!(*host, 100),
        other => panic!("expected a waiting game, got {:?}", other),
    }
}

#[test]
fn create_overwrites_existing_entry() {
    let mut g = Game::new();
    g.new_game(7, 100);
    g.new_game(7, 200);
    match g.get_game(7) {
        Ok(GameStatus::Waiting(host)) => assert_eq!(*host, 200),
        other => panic!("expected a waiting game, got {:?}", other),
    }
}

#[test]
fn join_waiting_then_second_join_rejected() {
    let mut g = Game::new();
    g.new_game(7, 100);
    assert_eq!(g.join_to_game(7, 200), Ok(()));
    match g.get_game(7) {
        Ok(GameStatus::Playing(a, b)) => {
            assert_eq!(a.name, 100);
            assert_eq!(b.name, 200);
            assert_eq!(a.score, 0);
            assert_eq!(b.score, 0);
        }
        other => panic!("expected an active game, got {:?}", other),
    }
    assert_eq!(g.join_to_game(7, 300), Err(GameError::GameAlreadyStarted));
    match g.get_game(7) {
        Ok(GameStatus::Playing(a, b)) => {
            assert_eq!(a.name, 100);
            assert_eq!(b.name, 200);
        }
        other => panic!("expected the game unchanged, got {:?}", other),
    }
}

#[test]
fn self_join_is_refused_and_game_stays_waiting() {
    let mut g = Game::new();
    g.new_game(7, 100);
    assert_eq!(g.join_to_game(7, 100), Err(GameError::InternalError));
    assert!(matches!(g.get_game(7), Ok(GameStatus::Waiting(100))));
    assert_eq!(g.join_to_game(7, 200), Ok(()));
}

#[test]
fn roll_updates_only_acting_player() {
    let mut g = Game::new();
    g.new_game(7, 100);
    g.join_to_game(7, 200).unwrap();

    let (score_a, dice_a) = g.rool_dice(7, 100).unwrap();
    assert!((1..=6).contains(&dice_a));
    assert_eq!(score_a, dice_a);
    match g.get_game(7) {
        Ok(GameStatus::Playing(a, b)) => {
            assert_eq!(a.score, dice_a);
            assert_eq!(b.score, 0);
        }
        other => panic!("expected an active game, got {:?}", other),
    }

    let (score_b, dice_b) = g.rool_dice(7, 200).unwrap();
    assert!((1..=6).contains(&dice_b));
    assert_eq!(score_b, dice_b);
    match g.get_game(7) {
        Ok(GameStatus::Playing(a, b)) => {
            assert_eq!(a.score, dice_a);
            assert_eq!(b.score, dice_b);
        }
        other => panic!("expected an active game, got {:?}", other),
    }
}

#[test]
fn roll_on_waiting_game_is_internal_error() {
    let mut g = Game::new();
    g.new_game(7, 100);
    assert_eq!(g.rool_dice(7, 100), Err(GameError::InternalError));
}

#[test]
fn roll_on_missing_game_is_not_found() {
    let mut g = Game::new();
    assert_eq!(g.rool_dice(7, 100), Err(GameError::GameNotFound));
}

#[test]
fn roll_by_outsider_falls_through_to_not_found() {
    let mut g = Game::new();
    g.new_game(7, 100);
    g.join_to_game(7, 200).unwrap();
    assert_eq!(g.rool_dice(7, 999), Err(GameError::GameNotFound));
}

#[test]
fn score_saturates_at_maximum() {
    let mut g = Game::new();
    g.new_game(7, 100);
    g.join_to_game(7, 200).unwrap();
    let mut last: u8 = 0;
    for _ in 0..300 {
        let (score, dice) = g.rool_dice(7, 100).unwrap();
        assert!((1..=6).contains(&dice));
        assert!(score >= last, "a score must never shrink");
        last = score;
    }
    assert_eq!(last, 255, "300 rolls of at least 1 each must saturate the counter");
    let (score, _) = g.rool_dice(7, 100).unwrap();
    assert_eq!(score, 255);
    match g.get_game(7) {
        Ok(GameStatus::Playing(a, b)) => {
            assert_eq!(a.score, 255);
            assert_eq!(b.score, 0);
        }
        other => panic!("expected an active game, got {:?}", other),
    }
}

#[test]
fn leave_removes_waiting_game_for_host() {
    let mut g = Game::new();
    g.new_game(7, 100);
    assert_eq!(g.leave_game(7, 100), Ok(()));
    assert!(matches!(g.get_game(7), Err(GameError::GameNotFound)));
}

#[test]
fn leave_removes_active_game_for_either_seat() {
    for leaver in [100u128, 200u128] {
        let mut g = Game::new();
        g.new_game(7, 100);
        g.join_to_game(7, 200).unwrap();
        assert_eq!(g.leave_game(7, leaver), Ok(()));
        assert!(matches!(g.get_game(7), Err(GameError::GameNotFound)));
    }
}

#[test]
fn leave_by_outsider_reports_not_found_and_keeps_game() {
    let mut g = Game::new();
    g.new_game(7, 100);
    g.join_to_game(7, 200).unwrap();
    assert_eq!(g.leave_game(7, 999), Err(GameError::GameNotFound));
    assert!(matches!(g.get_game(7), Ok(GameStatus::Playing(_, _))));
}

#[test]
fn sequential_joins_exactly_one_ok() {
    let mut g = Game::new();
    g.new_game(7, 1);
    let mut oks: u32 = 0;
    for joiner in 2..=10u128 {
        match g.join_to_game(7, joiner) {
            Ok(()) => {
                oks += 1;
                assert_eq!(joiner, 2, "only the first join may succeed");
            }
            Err(e) => assert_eq!(e, GameError::GameAlreadyStarted),
        }
    }
    assert_eq!(oks, 1);
}

#[test]
fn player_equality_goes_by_identity_alone() {
    let a = Player { name: 1, score: 5 };
    let b = Player { name: 1, score: 9 };
    let c = Player { name: 2, score: 5 };
    assert!(a == b);
    assert!(a != c);
    assert!(a == 1u128);
    assert!(a != 2u128);
}

#[test]
fn new_player_starts_at_zero() {
    let p = Player::new(77);
    assert_eq!(p.name, 77);
    assert_eq!(p.score, 0);
}

#[test]
fn default_player_starts_at_zero() {
    let p = Player::default();
    assert_eq!(p.score, 0);
}
