use chess_engine::algorithm::{
    Algorithm, AlgorithmInput, DecisiveGameType, DrawGameType, Game, GameEndState, GameState,
    TimeFormat,
};
use chess_engine::algorithms::{DumbAlgorithm, RandomAlgorithm};
use chess_engine::chess::{ChessBoard, ChessPiece};
use chess_engine::chess_like::{DefaultColorScheme, GenericBoard, Move, RawSquare};

const FIVE_MINUTES: u64 = 5 * 60 * 1000;

fn timed() -> TimeFormat {
    TimeFormat::Increment { initial: FIVE_MINUTES, increment: 0 }
}

#[test]
fn test() {
    let mut game: Game<ChessBoard, DumbAlgorithm> =
        Game::new(vec![DumbAlgorithm::new(), DumbAlgorithm::new()], timed());
    while game.one_move() {
        println!("Moved!");
    }
    assert!(matches!(game.state, GameState::Finished(GameEndState::Aborted)));

    let mut game: Game<ChessBoard, RandomAlgorithm> =
        Game::new(vec![RandomAlgorithm::new(), RandomAlgorithm::new()], timed());
    while game.one_move() {
        println!("Moved!");
    }
    assert!(matches!(game.state, GameState::Finished(GameEndState::Aborted)));
}

#[test]
fn failing_sources_abort_on_first_turn() {
    let mut game: Game<ChessBoard, RandomAlgorithm> =
        Game::new(vec![RandomAlgorithm::new(), RandomAlgorithm::new()], TimeFormat::Unlimited);
    assert!(!game.is_started());
    assert!(!game.one_move());
    assert!(game.is_started());
    assert!(matches!(game.state, GameState::Finished(GameEndState::Aborted)));
    assert!(game.moves.is_empty());
    assert!(!game.one_move());
    assert!(matches!(game.state, GameState::Finished(GameEndState::Aborted)));
}

#[test]
fn failure_after_a_legal_move_is_decisive() {
    let mut game: Game<ChessBoard, DumbAlgorithm> =
        Game::new(vec![DumbAlgorithm::new(), DumbAlgorithm::new()], timed());
    game.state = GameState::Running;
    game.record_result(Ok(Move::new(12, 20)), 1_000, 3_000);
    assert!(matches!(game.state, GameState::Running));
    assert_eq!(game.move_index, 1);
    assert_eq!(game.players[0].clock, Some(FIVE_MINUTES - 2_000));
    assert_eq!(game.board.get(20), &RawSquare::new(ChessPiece::Pawn, DefaultColorScheme::While));
    assert_eq!(game.moves, vec![Move::new(12, 20)]);

    game.record_result(Err(String::from("I resign because im dumb")), 3_000, 4_000);
    match &game.state {
        GameState::Finished(GameEndState::Decisive { winner, kind }) => {
            assert_eq!(*winner, DefaultColorScheme::While);
            assert_eq!(*kind, DecisiveGameType::Error(String::from("I resign because im dumb")));
        }
        _ => panic!("expected a decisive ending"),
    }
}

#[test]
fn illegal_move_loses() {
    let mut game: Game<ChessBoard, DumbAlgorithm> =
        Game::new(vec![DumbAlgorithm::new(), DumbAlgorithm::new()], TimeFormat::Unlimited);
    game.state = GameState::Running;
    game.record_result(Ok(Move::new(52, 44)), 0, 0);
    match &game.state {
        GameState::Finished(GameEndState::Decisive { winner, kind }) => {
            assert_eq!(*winner, DefaultColorScheme::Black);
            assert_eq!(*kind, DecisiveGameType::IllegalMove(Move::new(52, 44)));
        }
        _ => panic!("expected a decisive ending"),
    }
    assert_eq!(game.board.get(52), &RawSquare::new(ChessPiece::Pawn, DefaultColorScheme::Black));
}

#[test]
fn running_out_of_time_loses() {
    let mut game: Game<ChessBoard, DumbAlgorithm> = Game::new(
        vec![DumbAlgorithm::new(), DumbAlgorithm::new()],
        TimeFormat::Increment { initial: 1_000, increment: 500 },
    );
    game.state = GameState::Running;
    game.record_result(Ok(Move::new(12, 20)), 0, 400);
    assert_eq!(game.players[0].clock, Some(1_100));
    game.record_result(Ok(Move::new(52, 44)), 400, 1_401);
    match &game.state {
        GameState::Finished(GameEndState::Decisive { winner, kind }) => {
            assert_eq!(*winner, DefaultColorScheme::While);
            assert_eq!(*kind, DecisiveGameType::Flag);
        }
        _ => panic!("expected a decisive ending"),
    }
}

#[test]
fn rounds_are_counted_and_snapshot_built() {
    let mut game: Game<ChessBoard, DumbAlgorithm> =
        Game::new(vec![DumbAlgorithm::new(), DumbAlgorithm::new()], timed());
    let input = game.state_for_next_move(10_000);
    assert_eq!(input.move_start, 10_000);
    assert_eq!(input.flag_instant, Some(10_000 + FIVE_MINUTES as i64));
    assert_eq!(input.time_format, timed());
    game.state = GameState::Running;
    game.record_result(Ok(Move::new(1, 18)), 0, 0);
    assert_eq!(game.turn_count, 0);
    game.record_result(Ok(Move::new(62, 45)), 0, 0);
    assert_eq!(game.turn_count, 1);
    assert_eq!(game.move_index, 0);
}

struct Scripted(Move);

impl Algorithm<ChessBoard> for Scripted {
    fn next_move(&self, input: AlgorithmInput<ChessBoard>) -> Result<Move, String> {
        let _ = input.board;
        Ok(self.0)
    }
}

#[test]
fn one_move_applies_a_legal_move() {
    let mut game: Game<ChessBoard, Scripted> = Game::new(
        vec![Scripted(Move::new(6, 21)), Scripted(Move::new(57, 40))],
        TimeFormat::Unlimited,
    );
    assert!(game.one_move());
    assert_eq!(game.moves, vec![Move::new(6, 21)]);
    assert!(game.one_move());
    assert_eq!(game.turn_count, 1);
    assert_eq!(game.board.get(40), &RawSquare::new(ChessPiece::Knight, DefaultColorScheme::Black));
    assert!(!game.one_move());
    assert!(matches!(
        game.state,
        GameState::Finished(GameEndState::Decisive { kind: DecisiveGameType::IllegalMove(_), .. })
    ));
}

#[test]
fn draw_type_names() {
    assert_eq!(DrawGameType::DeadPosition.name(), "Dead Position");
    assert_eq!(DrawGameType::Stalemate.name(), "Stalemate");
}

#[test]
fn fixed_time_per_move_resets_the_clock() {
    let mut game: Game<ChessBoard, DumbAlgorithm> = Game::new(
        vec![DumbAlgorithm::new(), DumbAlgorithm::new()],
        TimeFormat::FixedPerMove { per_move: 2_000 },
    );
    assert_eq!(game.players[1].clock, Some(2_000));
    game.state = GameState::Running;
    game.record_result(Ok(Move::new(12, 20)), 0, 1_500);
    assert_eq!(game.players[0].clock, Some(2_000));
    game.record_result(Ok(Move::new(52, 44)), 1_500, 3_600);
    assert!(matches!(
        game.state,
        GameState::Finished(GameEndState::Decisive { kind: DecisiveGameType::Flag, .. })
    ));
}

#[test]
fn decisive_type_names() {
    assert_eq!(DecisiveGameType::Flag.name(), "Flag");
    assert_eq!(DecisiveGameType::Other.name(), "Unknown");
    assert_eq!(DecisiveGameType::IllegalMove(Move::new(0, 1)).name(), "Illegal move");
}
