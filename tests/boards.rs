use chess_engine::chess::{ChessBoard, ChessFile, ChessPiece, ChessRank};
use chess_engine::chess_like::{
    DefaultColorScheme, GenericBoard, GenericFile, GenericRank, Move, MoveGeneration, RawSquare,
};
use chess_engine::contrasting_chess::{
    ContrastingChessBoard, ContrastingChessFile, ContrastingChessPiece, ContrastingChessRank,
};

const WHITE: DefaultColorScheme = DefaultColorScheme::While;
const BLACK: DefaultColorScheme = DefaultColorScheme::Black;

#[test]
fn chess_basic_set_get_and_swap() {
    let mut board: ChessBoard = ChessBoard::new();
    let empty_square = RawSquare::<ChessPiece, DefaultColorScheme>::empty();
    let white_king = RawSquare::<ChessPiece, DefaultColorScheme>::new(ChessPiece::King, WHITE);
    let black_king = RawSquare::<ChessPiece, DefaultColorScheme>::new(ChessPiece::King, BLACK);

    let square1 = ChessBoard::to_storage(ChessFile::A, ChessRank::R1);
    let square2 = ChessBoard::to_storage(ChessFile::E, ChessRank::R4);

    assert_eq!(board.get(square1), &empty_square);
    assert_eq!(board.get(square2), &empty_square);

    let last_piece = board.set(square1, white_king);
    assert_eq!(last_piece, empty_square);
    assert_eq!(board.get(square1), &white_king);

    let mut hand_piece = black_king;
    board.swap(square1, &mut hand_piece);
    assert_eq!(hand_piece, white_king);
    assert_eq!(board.get(square1), &black_king);

    println!("Regular board size: {}", std::mem::size_of::<ChessBoard>());
}

#[test]
fn contrasting_chess_basic_set_get_and_swap() {
    let mut board: ContrastingChessBoard = ContrastingChessBoard::new();
    let empty_square = RawSquare::<ContrastingChessPiece, DefaultColorScheme>::empty();
    let white_king =
        RawSquare::<ContrastingChessPiece, DefaultColorScheme>::new(ContrastingChessPiece::King, WHITE);
    let black_king =
        RawSquare::<ContrastingChessPiece, DefaultColorScheme>::new(ContrastingChessPiece::King, BLACK);

    let square1 = ContrastingChessBoard::to_storage(ContrastingChessFile::A, ContrastingChessRank::R1);
    let square2 = ContrastingChessBoard::to_storage(ContrastingChessFile::E, ContrastingChessRank::R4);

    assert_eq!(board.get(square1), &empty_square);
    assert_eq!(board.get(square2), &empty_square);

    let last_piece = board.set(square1, white_king);
    assert_eq!(last_piece, empty_square);
    assert_eq!(board.get(square1), &white_king);

    let mut hand_piece = black_king;
    board.swap(square1, &mut hand_piece);
    assert_eq!(hand_piece, white_king);
    assert_eq!(board.get(square1), &black_king);

    println!("Contrasting board size: {}", std::mem::size_of::<ContrastingChessBoard>());
}

#[test]
fn storage_round_trip_on_both_boards() {
    for v in 0..64u8 {
        let (f, r) = ChessBoard::from_storage(v);
        assert_eq!(ChessBoard::to_storage(f, r), v);
    }
    for v in 0..100u8 {
        let (f, r) = ContrastingChessBoard::from_storage(v);
        assert_eq!(ContrastingChessBoard::to_storage(f, r), v);
    }
    assert_eq!(ChessBoard::to_storage(ChessFile::E, ChessRank::R4), 28);
    assert_eq!(ChessBoard::to_storage(ChessFile::H, ChessRank::R8), 63);
    assert_eq!(ChessBoard::from_storage(28), (ChessFile::E, ChessRank::R4));
    assert_eq!(
        ContrastingChessBoard::to_storage(ContrastingChessFile::J, ContrastingChessRank::R10),
        99
    );
    assert_eq!(
        ContrastingChessBoard::from_storage(34),
        (ContrastingChessFile::E, ContrastingChessRank::R4)
    );
    assert_eq!(ChessFile::from_storage(ChessFile::G.to_storage()), ChessFile::G);
    assert_eq!(ContrastingChessRank::from_storage(9), ContrastingChessRank::R10);
}

#[test]
fn offset_stays_on_the_board() {
    assert_eq!(ChessBoard::offset_pos(0, -1, 0), None);
    assert_eq!(ChessBoard::offset_pos(0, 0, -1), None);
    assert_eq!(ChessBoard::offset_pos(7, 1, 0), None);
    assert_eq!(ChessBoard::offset_pos(7, -1, 1), Some(14));
    assert_eq!(ChessBoard::offset_pos(63, 0, 1), None);
    assert_eq!(ChessBoard::offset_pos(27, 2, 3), Some(53));
    assert_eq!(ContrastingChessBoard::offset_pos(9, 1, 0), None);
    assert_eq!(ContrastingChessBoard::offset_pos(9, -9, 9), Some(90));
    assert_eq!(ContrastingChessBoard::offset_pos(90, 0, 1), None);
}

#[test]
fn rook_ray_stops_at_enemy_three_ranks_ahead() {
    let mut board = ChessBoard::new();
    board.set(0, RawSquare::new(ChessPiece::Rook, WHITE));
    let enemy = ChessBoard::to_storage(ChessFile::A, ChessRank::R4);
    board.set(enemy, RawSquare::new(ChessPiece::Pawn, BLACK));
    let moves = board.moves_for_piece(0).to_vec();
    assert_eq!(moves, vec![1, 2, 3, 4, 5, 6, 7, 8, 16, 24]);
    let up_the_file: Vec<u8> = moves.iter().copied().filter(|d| d % 8 == 0).collect();
    assert_eq!(up_the_file, vec![8, 16, 24]);
}

#[test]
fn slider_is_blocked_by_own_piece() {
    let mut board = ChessBoard::new();
    board.set(0, RawSquare::new(ChessPiece::Rook, WHITE));
    board.set(16, RawSquare::new(ChessPiece::Pawn, WHITE));
    board.set(3, RawSquare::new(ChessPiece::Knight, BLACK));
    assert_eq!(board.moves_for_piece(0).to_vec(), vec![1, 2, 3, 8]);
}

#[test]
fn weasel_steps_forward_only_onto_empty_square() {
    let mut board = ContrastingChessBoard::new();
    let pos = ContrastingChessBoard::to_storage(ContrastingChessFile::E, ContrastingChessRank::R5);
    let ahead = ContrastingChessBoard::to_storage(ContrastingChessFile::E, ContrastingChessRank::R6);
    board.set(pos, RawSquare::new(ContrastingChessPiece::Weasel, WHITE));
    assert_eq!(board.moves_for_piece(pos).to_vec(), vec![ahead]);
    assert_eq!(board.moves_for_piece(pos).len(), 1);

    board.set(ahead, RawSquare::new(ContrastingChessPiece::Horse, WHITE));
    assert_eq!(board.moves_for_piece(pos).len(), 0);

    board.set(ahead, RawSquare::new(ContrastingChessPiece::Horse, BLACK));
    assert_eq!(board.moves_for_piece(pos).len(), 0);

    let mut board = ContrastingChessBoard::new();
    board.set(pos, RawSquare::new(ContrastingChessPiece::Weasel, BLACK));
    assert_eq!(board.moves_for_piece(pos).to_vec(), vec![pos - 10]);
}

#[test]
fn elephant_cannot_capture_weasel() {
    let mut board = ContrastingChessBoard::new();
    board.set(0, RawSquare::new(ContrastingChessPiece::Elephant, WHITE));
    board.set(2, RawSquare::new(ContrastingChessPiece::Weasel, BLACK));
    board.set(20, RawSquare::new(ContrastingChessPiece::Bear, BLACK));
    board.set(11, RawSquare::new(ContrastingChessPiece::Moose, WHITE));
    assert_eq!(board.moves_for_piece(0).to_vec(), vec![1, 10, 20]);
    assert!(!board.is_move_legal(WHITE, Move::new(0, 2)));
    assert!(board.is_move_legal(WHITE, Move::new(0, 20)));
}

#[test]
fn bear_slides_at_most_five_squares() {
    let mut board = ContrastingChessBoard::new();
    board.set(0, RawSquare::new(ContrastingChessPiece::Bear, WHITE));
    assert_eq!(board.moves_for_piece(0).to_vec(), vec![11, 22, 33, 44, 55]);
    board.set(33, RawSquare::new(ContrastingChessPiece::Weasel, BLACK));
    assert_eq!(board.moves_for_piece(0).to_vec(), vec![11, 22, 33]);
}

#[test]
fn king_and_knight_steps() {
    let mut board = ChessBoard::new();
    board.set(0, RawSquare::new(ChessPiece::King, WHITE));
    assert_eq!(board.moves_for_piece(0).to_vec(), vec![1, 8, 9]);
    board.set(27, RawSquare::new(ChessPiece::Knight, BLACK));
    assert_eq!(board.moves_for_piece(27).to_vec(), vec![44, 37, 21, 12, 10, 17, 33, 42]);
    let mut board = ContrastingChessBoard::new();
    board.set(0, RawSquare::new(ContrastingChessPiece::King, WHITE));
    assert_eq!(board.moves_for_piece(0).to_vec(), vec![1, 10, 11]);
    board.set(5, RawSquare::new(ContrastingChessPiece::Horse, BLACK));
    assert_eq!(board.moves_for_piece(5).len(), 0);
}

#[test]
fn pawn_pushes_and_captures() {
    let mut board = ChessBoard::new();
    board.set(9, RawSquare::new(ChessPiece::Pawn, WHITE));
    assert_eq!(board.moves_for_piece(9).to_vec(), vec![17]);
    board.set(16, RawSquare::new(ChessPiece::Pawn, BLACK));
    board.set(18, RawSquare::new(ChessPiece::Pawn, WHITE));
    assert_eq!(board.moves_for_piece(9).to_vec(), vec![17, 16]);
    assert_eq!(board.moves_for_piece(16).to_vec(), vec![8, 9]);
}

#[test]
fn legality_needs_own_piece_and_candidate() {
    let mut board = ChessBoard::new();
    board.set(0, RawSquare::new(ChessPiece::Rook, WHITE));
    board.set(24, RawSquare::new(ChessPiece::Pawn, BLACK));
    assert!(board.is_move_legal(WHITE, Move::new(0, 24)));
    assert!(!board.is_move_legal(WHITE, Move::new(0, 32)));
    assert!(!board.is_move_legal(BLACK, Move::new(0, 24)));
    assert!(!board.is_move_legal(WHITE, Move::new(5, 13)));
    assert!(!board.is_move_legal(WHITE, Move::new(200, 0)));
    assert!(!board.is_move_legal(WHITE, Move::new(0, 0)));
}

#[test]
fn attackers_of_a_square() {
    let mut board = ChessBoard::new();
    board.set(0, RawSquare::new(ChessPiece::Rook, WHITE));
    board.set(42, RawSquare::new(ChessPiece::Bishop, BLACK));
    board.set(40, RawSquare::new(ChessPiece::Knight, WHITE));
    board.set(63, RawSquare::new(ChessPiece::Queen, BLACK));
    assert_eq!(board.get_attackers_of_square(24), vec![0, 42]);
    assert_eq!(board.get_attackers_of_square(57), vec![40, 63]);
    assert_eq!(board.get_attackers_of_square(200), Vec::<u8>::new());
}

#[test]
fn apply_move_captures_and_returns_prior_occupant() {
    let mut board = ChessBoard::new();
    let rook = RawSquare::new(ChessPiece::Rook, WHITE);
    let pawn = RawSquare::new(ChessPiece::Pawn, BLACK);
    board.set(0, rook);
    board.set(24, pawn);
    let before = *board.get(24);
    let captured = board.apply_raw_move(Move::new(0, 24));
    assert_eq!(captured, before);
    assert_eq!(captured, pawn);
    assert_eq!(board.get(0), &RawSquare::empty());
    assert_eq!(board.get(24), &rook);
    let quiet = board.apply_raw_move(Move::new(24, 25));
    assert_eq!(quiet, RawSquare::empty());
}

#[test]
fn starting_positions() {
    let board = ChessBoard::default();
    assert_eq!(board.get(0), &RawSquare::new(ChessPiece::Rook, WHITE));
    assert_eq!(board.get(3), &RawSquare::new(ChessPiece::Queen, WHITE));
    assert_eq!(board.get(4), &RawSquare::new(ChessPiece::King, WHITE));
    assert_eq!(board.get(12), &RawSquare::new(ChessPiece::Pawn, WHITE));
    assert_eq!(board.get(52), &RawSquare::new(ChessPiece::Pawn, BLACK));
    assert_eq!(board.get(62), &RawSquare::new(ChessPiece::Knight, BLACK));
    assert_eq!(board.get(30), &RawSquare::empty());
    assert_eq!(board.pieces().len(), 32);
    assert_eq!(board.pieces_for_color(BLACK), vec![48, 49, 50, 51, 52, 53, 54, 55, 56, 57, 58, 59, 60, 61, 62, 63]);

    let board = ContrastingChessBoard::default();
    assert_eq!(board.get(0), &RawSquare::new(ContrastingChessPiece::Bear, WHITE));
    assert_eq!(board.get(4), &RawSquare::new(ContrastingChessPiece::Elephant, WHITE));
    assert_eq!(board.get(5), &RawSquare::new(ContrastingChessPiece::King, WHITE));
    assert_eq!(board.get(10), &RawSquare::new(ContrastingChessPiece::Elephant, WHITE));
    assert_eq!(board.get(15), &RawSquare::new(ContrastingChessPiece::Weasel, WHITE));
    assert_eq!(board.get(88), &RawSquare::new(ContrastingChessPiece::Weasel, BLACK));
    assert_eq!(board.get(98), &RawSquare::new(ContrastingChessPiece::Moose, BLACK));
    assert_eq!(board.get(50), &RawSquare::empty());
    assert_eq!(board.pieces().len(), 40);
}

#[test]
fn clear_and_square_listing() {
    let mut board = ChessBoard::default();
    board.clear();
    assert_eq!(board.pieces(), Vec::<u8>::new());
    let all = board.raw_square_iter();
    assert_eq!(all.len(), 64);
    assert_eq!(all[63], 63);
    board.set(5, RawSquare::new(ChessPiece::Bishop, BLACK));
    board.set(9, RawSquare::new(ChessPiece::Bishop, WHITE));
    assert_eq!(board.pieces(), vec![5, 9]);
    assert_eq!(board.pieces_for_color(WHITE), vec![9]);
}

#[test]
fn names_of_files_ranks_and_colors() {
    assert_eq!(ChessFile::C.name(), "C");
    assert_eq!(ChessRank::R8.name(), "8");
    assert_eq!(ContrastingChessFile::J.name(), "J");
    assert_eq!(ContrastingChessRank::R10.name(), "10");
    assert_eq!(WHITE.name(), "White");
    assert_eq!(BLACK.name(), "Black");
}

#[test]
fn empty_offset_square() {
    let mut board = ChessBoard::new();
    board.set(9, RawSquare::new(ChessPiece::Pawn, BLACK));
    assert_eq!(board.is_square_empty_offset(0, 1, 0), Some(1));
    assert_eq!(board.is_square_empty_offset(0, 1, 1), None);
    assert_eq!(board.is_square_empty_offset(0, -1, 0), None);
}

#[test]
fn king_safety_filters_exposing_moves() {
    let mut board = ChessBoard::new();
    board.set(4, RawSquare::new(ChessPiece::King, WHITE));
    board.set(12, RawSquare::new(ChessPiece::Rook, WHITE));
    board.set(60, RawSquare::new(ChessPiece::Rook, BLACK));
    assert!(!board.is_king_attacked(WHITE));
    assert!(board.is_move_legal(WHITE, Move::new(12, 11)));
    assert!(!board.is_move_fully_legal(WHITE, Move::new(12, 11)));
    assert!(board.is_move_fully_legal(WHITE, Move::new(12, 20)));
    assert!(board.is_move_fully_legal(WHITE, Move::new(12, 60)));
    board.set(12, RawSquare::empty());
    assert!(board.is_king_attacked(WHITE));
    assert!(!board.is_king_attacked(BLACK));
    assert!(!board.is_move_fully_legal(WHITE, Move::new(4, 12)));
    assert!(board.is_move_fully_legal(WHITE, Move::new(4, 3)));
}

#[test]
fn packed_moves_and_picture_codes() {
    assert_eq!(Move::from_packed((12i64 << 32) | 28), Some(Move::new(12, 28)));
    assert_eq!(Move::from_packed(300), None);
    assert_eq!(Move::from_packed(256i64 << 32), None);
    assert_eq!(Move::from_packed(-1), None);
    let board = ChessBoard::default();
    assert_eq!(chess_engine::chess::piece_code(board.get(3)), 2);
    assert_eq!(chess_engine::chess::piece_code(board.get(62)), 5);
    assert_eq!(chess_engine::chess::piece_code(board.get(30)), 0);
    assert_eq!(chess_engine::chess_like::color_code(board.get(62)), 1);
    assert_eq!(chess_engine::chess_like::color_code(board.get(0)), 0);
}
