use crate::chess_like::{
    CapturePolicy, DefaultColorScheme, GenericBoard, GenericFile, GenericPiece, GenericRank,
    MoveGeneration, RawPiece, RawSquare, RayRule,
};
use crate::coords::{file_of, rank_of, storage_of};
use crate::rules::{
    all_direction_rules, diagonal, diagonal_rules, knight_jumps, knight_rules, orthogonal,
    orthogonal_rules,
};
use vstd::prelude::*;

verus! {

broadcast use vstd::array::group_array_axioms;

#[derive(Copy, Clone, Debug, PartialEq, Eq, Structural)]
pub enum ChessPiece {
    King,
    Queen,
    Rook,
    Bishop,
    Knight,
    Pawn,
}

impl GenericPiece for ChessPiece {
}

pub type ChessSquare = RawSquare<ChessPiece, DefaultColorScheme>;

/// The 8×8 board of chess.
#[derive(Copy, Clone, Debug, PartialEq, Eq)]
pub struct ChessBoard {
    board: [RawSquare<ChessPiece, DefaultColorScheme>; 64],
}

/// The rank a pawn of `color` moves towards: up for white, down for black.
pub open spec fn pawn_direction(color: DefaultColorScheme) -> i8 {
    match color {
        DefaultColorScheme::While => 1i8,
        DefaultColorScheme::Black => -1i8,
    }
}

/// The rule table of each chess piece. A pawn steps forward onto an empty square and
/// captures one square diagonally forward.
pub open spec fn chess_rules(piece: ChessPiece, color: DefaultColorScheme) -> Seq<RayRule> {
    let any = CapturePolicy::QuietOrCapture;
    match piece {
        ChessPiece::King => orthogonal(1, any) + diagonal(1, any),
        ChessPiece::Queen => orthogonal(7, any) + diagonal(7, any),
        ChessPiece::Rook => orthogonal(7, any),
        ChessPiece::Bishop => diagonal(7, any),
        ChessPiece::Knight => knight_jumps(),
        ChessPiece::Pawn => {
            let f = pawn_direction(color);
            seq![
                RayRule { df: 0i8, dr: f, max_steps: 1u8, policy: CapturePolicy::QuietOnly },
                RayRule { df: -1i8, dr: f, max_steps: 1u8, policy: CapturePolicy::CaptureOnly },
                RayRule { df: 1i8, dr: f, max_steps: 1u8, policy: CapturePolicy::CaptureOnly },
            ]
        },
    }
}

/// The piece on file `file` of a back rank at the start.
pub open spec fn back_rank_piece(file: int) -> ChessPiece {
    if file == 0 || file == 7 {
        ChessPiece::Rook
    } else if file == 1 || file == 6 {
        ChessPiece::Knight
    } else if file == 2 || file == 5 {
        ChessPiece::Bishop
    } else if file == 3 {
        ChessPiece::Queen
    } else {
        ChessPiece::King
    }
}

/// What stands on square `pos` in the starting position.
pub open spec fn chess_start_square(pos: int) -> ChessSquare {
    let file = file_of(8, pos);
    let rank = rank_of(8, pos);
    if rank == 0 {
        RawSquare(Some(RawPiece { piece: back_rank_piece(file), color: DefaultColorScheme::While }))
    } else if rank == 1 {
        RawSquare(Some(RawPiece { piece: ChessPiece::Pawn, color: DefaultColorScheme::While }))
    } else if rank == 6 {
        RawSquare(Some(RawPiece { piece: ChessPiece::Pawn, color: DefaultColorScheme::Black }))
    } else if rank == 7 {
        RawSquare(Some(RawPiece { piece: back_rank_piece(file), color: DefaultColorScheme::Black }))
    } else {
        RawSquare(None)
    }
}

fn back_rank_piece_at(file: u8) -> (r: ChessPiece)
    ensures
        r == back_rank_piece(file as int),
{
    if file == 0 || file == 7 {
        ChessPiece::Rook
    } else if file == 1 || file == 6 {
        ChessPiece::Knight
    } else if file == 2 || file == 5 {
        ChessPiece::Bishop
    } else if file == 3 {
        ChessPiece::Queen
    } else {
        ChessPiece::King
    }
}

impl GenericBoard for ChessBoard {
    type PieceType = ChessPiece;

    type ColorType = DefaultColorScheme;

    type FileType = ChessFile;

    type RankType = ChessRank;

    open spec fn spec_side_len() -> nat {
        8
    }

    closed spec fn squares(&self) -> Seq<ChessSquare> {
        self.board@
    }

    open spec fn spec_immune(mover: ChessPiece, target: ChessPiece) -> bool {
        false
    }

    open spec fn spec_start_squares() -> Seq<RawSquare<Self::PieceType, DefaultColorScheme>> {
        Seq::new(64, |i: int| chess_start_square(i))
    }

    open spec fn spec_rules(piece: ChessPiece, color: DefaultColorScheme) -> Seq<RayRule> {
        chess_rules(piece, color)
    }

    open spec fn spec_is_king(piece: Self::PieceType) -> bool {
        piece == ChessPiece::King
    }

    proof fn lemma_squares_determine(&self, other: &Self) {
        assert(self.board =~= other.board);
    }

    proof fn lemma_side_len() {
    }

    proof fn lemma_squares_len(&self) {
    }

    fn side_len() -> (r: u8) {
        8
    }

    fn to_storage(file: ChessFile, rank: ChessRank) -> (r: u8) {
        file.to_storage() + rank.to_storage() * 8
    }

    fn from_storage(storage: u8) -> (r: (ChessFile, ChessRank)) {
        (ChessFile::from_storage(storage % 8), ChessRank::from_storage(storage / 8))
    }

    fn new() -> (r: ChessBoard) {
        let empty: ChessSquare = RawSquare(None);
        let board: [ChessSquare; 64] = vstd::array::array_fill_for_copy_types(empty);
        assert(board == vstd::array::spec_array_fill_for_copy_type::<ChessSquare, 64>(empty));
        ChessBoard { board }
    }

    fn default() -> (r: ChessBoard)
    {
        let mut result = ChessBoard::new();
        let mut file: u8 = 0;
        while file < 8
            invariant
                file <= 8,
                forall|i: int|
                    0 <= i < 64 ==> #[trigger] result.board@[i] == (if i % 8 < file {
                        chess_start_square(i)
                    } else {
                        RawSquare(None)
                    }),
            decreases 8 - file,
        {
            let back = back_rank_piece_at(file);
            result.set(file, RawSquare::new(back, DefaultColorScheme::While));
            result.set(file + 8, RawSquare::new(ChessPiece::Pawn, DefaultColorScheme::While));
            result.set(file + 48, RawSquare::new(ChessPiece::Pawn, DefaultColorScheme::Black));
            result.set(file + 56, RawSquare::new(back, DefaultColorScheme::Black));
            file = file + 1;
        }
        assert(result.board@ =~= Self::spec_start_squares());
        result
    }

    fn get(&self, pos: u8) -> (r: &ChessSquare) {
        &self.board[pos as usize]
    }

    fn set(&mut self, pos: u8, piece: ChessSquare) -> (r: ChessSquare) {
        let result = self.board[pos as usize];
        self.board[pos as usize] = piece;
        result
    }

    fn swap(&mut self, pos: u8, piece: &mut ChessSquare) {
        let held = self.board[pos as usize];
        self.board[pos as usize] = *piece;
        *piece = held;
    }

    fn immune(mover: ChessPiece, target: ChessPiece) -> (r: bool) {
        false
    }

    fn is_king(piece: Self::PieceType) -> (r: bool) {
        match piece {
            ChessPiece::King => true,
            _ => false,
        }
    }

    fn rules(piece: ChessPiece, color: DefaultColorScheme) -> (r: Vec<RayRule>) {
        let any = CapturePolicy::QuietOrCapture;
        match piece {
            ChessPiece::King => all_direction_rules(1, any),
            ChessPiece::Queen => all_direction_rules(7, any),
            ChessPiece::Rook => orthogonal_rules(7, any),
            ChessPiece::Bishop => diagonal_rules(7, any),
            ChessPiece::Knight => knight_rules(),
            ChessPiece::Pawn => {
                let f: i8 = match color {
                    DefaultColorScheme::While => 1,
                    DefaultColorScheme::Black => -1,
                };
                let r = vec![
                    RayRule::new(0, f, 1, CapturePolicy::QuietOnly),
                    RayRule::new(-1, f, 1, CapturePolicy::CaptureOnly),
                    RayRule::new(1, f, 1, CapturePolicy::CaptureOnly),
                ];
                assert(r@ =~= chess_rules(piece, color));
                r
            },
        }
    }
}

impl MoveGeneration for ChessBoard {
}

/// The picture number of what stands on a chess square: 0 for an empty square, then king,
/// queen, rook, bishop, knight and pawn from 1 to 6.
pub open spec fn spec_piece_code(square: ChessSquare) -> i32 {
    match square.0 {
        None => 0,
        Some(p) => match p.piece {
            ChessPiece::King => 1,
            ChessPiece::Queen => 2,
            ChessPiece::Rook => 3,
            ChessPiece::Bishop => 4,
            ChessPiece::Knight => 5,
            ChessPiece::Pawn => 6,
        },
    }
}

pub fn piece_code(square: &ChessSquare) -> (r: i32)
    ensures
        r == spec_piece_code(*square),
{
    match square.0 {
        None => 0,
        Some(p) => match p.piece {
            ChessPiece::King => 1,
            ChessPiece::Queen => 2,
            ChessPiece::Rook => 3,
            ChessPiece::Bishop => 4,
            ChessPiece::Knight => 5,
            ChessPiece::Pawn => 6,
        },
    }
}

impl ChessBoard {
    /// A short description of the board.
    pub fn to_string(&self) -> (r: String)
        ensures
            r@ == Seq::<char>::empty(),
    {
        String::new()
    }
}

#[derive(Copy, Clone, Debug, PartialEq, Eq, Structural)]
pub enum ChessFile {
    A,
    B,
    C,
    D,
    E,
    F,
    G,
    H,
}

impl GenericFile for ChessFile {
    open spec fn spec_index(self) -> nat {
        match self {
            ChessFile::A => 0,
            ChessFile::B => 1,
            ChessFile::C => 2,
            ChessFile::D => 3,
            ChessFile::E => 4,
            ChessFile::F => 5,
            ChessFile::G => 6,
            ChessFile::H => 7,
        }
    }

    open spec fn spec_count() -> nat {
        8
    }

    fn to_storage(self) -> (r: u8) {
        match self {
            ChessFile::A => 0,
            ChessFile::B => 1,
            ChessFile::C => 2,
            ChessFile::D => 3,
            ChessFile::E => 4,
            ChessFile::F => 5,
            ChessFile::G => 6,
            ChessFile::H => 7,
        }
    }

    fn from_storage(input: u8) -> (r: ChessFile) {
        match input {
            0 => ChessFile::A,
            1 => ChessFile::B,
            2 => ChessFile::C,
            3 => ChessFile::D,
            4 => ChessFile::E,
            5 => ChessFile::F,
            6 => ChessFile::G,
            _ => ChessFile::H,
        }
    }
}

impl ChessFile {
    /// The file's letter.
    pub fn name(&self) -> (r: &'static str)
        ensures
            r@ == seq!["ABCDEFGH"@[self.spec_index() as int]],
    {
        let r = match self {
            ChessFile::A => "A",
            ChessFile::B => "B",
            ChessFile::C => "C",
            ChessFile::D => "D",
            ChessFile::E => "E",
            ChessFile::F => "F",
            ChessFile::G => "G",
            ChessFile::H => "H",
        };
        proof {
            reveal_strlit("ABCDEFGH");
            reveal_strlit("A");
            reveal_strlit("B");
            reveal_strlit("C");
            reveal_strlit("D");
            reveal_strlit("E");
            reveal_strlit("F");
            reveal_strlit("G");
            reveal_strlit("H");
            assert(r@ =~= seq!["ABCDEFGH"@[self.spec_index() as int]]);
        }
        r
    }
}

#[derive(Copy, Clone, Debug, PartialEq, Eq, Structural)]
pub enum ChessRank {
    R1,
    R2,
    R3,
    R4,
    R5,
    R6,
    R7,
    R8,
}

impl GenericRank for ChessRank {
    open spec fn spec_index(self) -> nat {
        match self {
            ChessRank::R1 => 0,
            ChessRank::R2 => 1,
            ChessRank::R3 => 2,
            ChessRank::R4 => 3,
            ChessRank::R5 => 4,
            ChessRank::R6 => 5,
            ChessRank::R7 => 6,
            ChessRank::R8 => 7,
        }
    }

    open spec fn spec_count() -> nat {
        8
    }

    fn to_storage(self) -> (r: u8) {
        match self {
            ChessRank::R1 => 0,
            ChessRank::R2 => 1,
            ChessRank::R3 => 2,
            ChessRank::R4 => 3,
            ChessRank::R5 => 4,
            ChessRank::R6 => 5,
            ChessRank::R7 => 6,
            ChessRank::R8 => 7,
        }
    }

    fn from_storage(input: u8) -> (r: ChessRank) {
        match input {
            0 => ChessRank::R1,
            1 => ChessRank::R2,
            2 => ChessRank::R3,
            3 => ChessRank::R4,
            4 => ChessRank::R5,
            5 => ChessRank::R6,
            6 => ChessRank::R7,
            _ => ChessRank::R8,
        }
    }
}

impl ChessRank {
    /// The rank's number, from "1" to "8".
    pub fn name(&self) -> (r: &'static str)
        ensures
            r@ == seq!["12345678"@[self.spec_index() as int]],
    {
        let r = match self {
            ChessRank::R1 => "1",
            ChessRank::R2 => "2",
            ChessRank::R3 => "3",
            ChessRank::R4 => "4",
            ChessRank::R5 => "5",
            ChessRank::R6 => "6",
            ChessRank::R7 => "7",
            ChessRank::R8 => "8",
        };
        proof {
            reveal_strlit("12345678");
            reveal_strlit("1");
            reveal_strlit("2");
            reveal_strlit("3");
            reveal_strlit("4");
            reveal_strlit("5");
            reveal_strlit("6");
            reveal_strlit("7");
            reveal_strlit("8");
            assert(r@ =~= seq!["12345678"@[self.spec_index() as int]]);
        }
        r
    }
}

} // verus!
