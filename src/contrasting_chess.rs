use crate::chess_like::{
    CapturePolicy, DefaultColorScheme, GenericBoard, GenericFile, GenericPiece, GenericRank,
    MoveGeneration, RawPiece, RawSquare, RayRule,
};
use crate::coords::{file_of, rank_of};
use crate::rules::{all_direction_rules, diagonal, diagonal_rules, orthogonal};
use vstd::prelude::*;

verus! {

broadcast use vstd::array::group_array_axioms;

#[derive(Copy, Clone, Debug, PartialEq, Eq, Structural)]
pub enum ContrastingChessPiece {
    King,
    Elephant,
    Bear,
    Horse,
    Dragon,
    Moose,
    Weasel,
}

impl GenericPiece for ContrastingChessPiece {
}

pub type ContrastingSquare = RawSquare<ContrastingChessPiece, DefaultColorScheme>;

/// The 10×10 board of contrasting chess.
#[derive(Copy, Clone, Debug, PartialEq, Eq)]
pub struct ContrastingChessBoard {
    board: [RawSquare<ContrastingChessPiece, DefaultColorScheme>; 100],
}

/// The rank a weasel of `color` moves towards: up for white, down for black.
pub open spec fn weasel_direction(color: DefaultColorScheme) -> i8 {
    match color {
        DefaultColorScheme::While => 1i8,
        DefaultColorScheme::Black => -1i8,
    }
}

/// The rule table of each contrasting chess piece. The king steps one square in any
/// direction; the elephant slides in any direction; the bear slides diagonally at most five
/// squares; the weasel steps forward onto an empty square. Horses, dragons and moose have
/// no moves.
pub open spec fn contrasting_rules(
    piece: ContrastingChessPiece,
    color: DefaultColorScheme,
) -> Seq<RayRule> {
    let any = CapturePolicy::QuietOrCapture;
    match piece {
        ContrastingChessPiece::King => orthogonal(1, any) + diagonal(1, any),
        ContrastingChessPiece::Elephant => orthogonal(9, any) + diagonal(9, any),
        ContrastingChessPiece::Bear => diagonal(5, any),
        ContrastingChessPiece::Weasel => seq![
            RayRule {
                df: 0i8,
                dr: weasel_direction(color),
                max_steps: 1u8,
                policy: CapturePolicy::QuietOnly,
            },
        ],
        _ => Seq::empty(),
    }
}

/// Weasels cannot be captured by elephants.
pub open spec fn contrasting_immune(
    mover: ContrastingChessPiece,
    target: ContrastingChessPiece,
) -> bool {
    mover == ContrastingChessPiece::Elephant && target == ContrastingChessPiece::Weasel
}

/// The piece on file `file` of a back rank at the start.
pub open spec fn contrasting_back_piece(file: int) -> ContrastingChessPiece {
    if file == 0 || file == 9 {
        ContrastingChessPiece::Bear
    } else if file == 1 || file == 8 {
        ContrastingChessPiece::Moose
    } else if file == 2 || file == 7 {
        ContrastingChessPiece::Dragon
    } else if file == 3 || file == 6 {
        ContrastingChessPiece::Horse
    } else if file == 4 {
        ContrastingChessPiece::Elephant
    } else {
        ContrastingChessPiece::King
    }
}

/// The piece on file `file` of the rank in front of a back rank at the start.
pub open spec fn contrasting_front_piece(file: int) -> ContrastingChessPiece {
    if file == 0 || file == 9 {
        ContrastingChessPiece::Elephant
    } else {
        ContrastingChessPiece::Weasel
    }
}

/// What stands on square `pos` in the starting position.
pub open spec fn contrasting_start_square(pos: int) -> ContrastingSquare {
    let file = file_of(10, pos);
    let rank = rank_of(10, pos);
    if rank == 0 {
        RawSquare(Some(RawPiece { piece: contrasting_back_piece(file), color: DefaultColorScheme::While }))
    } else if rank == 1 {
        RawSquare(Some(RawPiece { piece: contrasting_front_piece(file), color: DefaultColorScheme::While }))
    } else if rank == 8 {
        RawSquare(Some(RawPiece { piece: contrasting_front_piece(file), color: DefaultColorScheme::Black }))
    } else if rank == 9 {
        RawSquare(Some(RawPiece { piece: contrasting_back_piece(file), color: DefaultColorScheme::Black }))
    } else {
        RawSquare(None)
    }
}

fn back_piece_at(file: u8) -> (r: ContrastingChessPiece)
    ensures
        r == contrasting_back_piece(file as int),
{
    if file == 0 || file == 9 {
        ContrastingChessPiece::Bear
    } else if file == 1 || file == 8 {
        ContrastingChessPiece::Moose
    } else if file == 2 || file == 7 {
        ContrastingChessPiece::Dragon
    } else if file == 3 || file == 6 {
        ContrastingChessPiece::Horse
    } else if file == 4 {
        ContrastingChessPiece::Elephant
    } else {
        ContrastingChessPiece::King
    }
}

fn front_piece_at(file: u8) -> (r: ContrastingChessPiece)
    ensures
        r == contrasting_front_piece(file as int),
{
    if file == 0 || file == 9 {
        ContrastingChessPiece::Elephant
    } else {
        ContrastingChessPiece::Weasel
    }
}

impl GenericBoard for ContrastingChessBoard {
    type PieceType = ContrastingChessPiece;

    type ColorType = DefaultColorScheme;

    type FileType = ContrastingChessFile;

    type RankType = ContrastingChessRank;

    open spec fn spec_side_len() -> nat {
        10
    }

    closed spec fn squares(&self) -> Seq<ContrastingSquare> {
        self.board@
    }

    open spec fn spec_immune(mover: ContrastingChessPiece, target: ContrastingChessPiece) -> bool {
        contrasting_immune(mover, target)
    }

    open spec fn spec_start_squares() -> Seq<RawSquare<Self::PieceType, DefaultColorScheme>> {
        Seq::new(100, |i: int| contrasting_start_square(i))
    }

    open spec fn spec_rules(piece: ContrastingChessPiece, color: DefaultColorScheme) -> Seq<
        RayRule,
    > {
        contrasting_rules(piece, color)
    }

    open spec fn spec_is_king(piece: Self::PieceType) -> bool {
        piece == ContrastingChessPiece::King
    }

    proof fn lemma_squares_determine(&self, other: &Self) {
        assert(self.board =~= other.board);
    }

    proof fn lemma_side_len() {
    }

    proof fn lemma_squares_len(&self) {
    }

    fn side_len() -> (r: u8) {
        10
    }

    fn to_storage(file: ContrastingChessFile, rank: ContrastingChessRank) -> (r: u8) {
        file.to_storage() + rank.to_storage() * 10
    }

    fn from_storage(storage: u8) -> (r: (ContrastingChessFile, ContrastingChessRank)) {
        (
            ContrastingChessFile::from_storage(storage % 10),
            ContrastingChessRank::from_storage(storage / 10),
        )
    }

    fn new() -> (r: ContrastingChessBoard) {
        let empty: ContrastingSquare = RawSquare(None);
        let board: [ContrastingSquare; 100] = vstd::array::array_fill_for_copy_types(empty);
        assert(board == vstd::array::spec_array_fill_for_copy_type::<ContrastingSquare, 100>(
            empty,
        ));
        ContrastingChessBoard { board }
    }

    fn default() -> (r: ContrastingChessBoard)
    {
        let mut result = ContrastingChessBoard::new();
        let mut file: u8 = 0;
        while file < 10
            invariant
                file <= 10,
                forall|i: int|
                    0 <= i < 100 ==> #[trigger] result.board@[i] == (if i % 10 < file {
                        contrasting_start_square(i)
                    } else {
                        RawSquare(None)
                    }),
            decreases 10 - file,
        {
            let back = back_piece_at(file);
            let front = front_piece_at(file);
            result.set(file, RawSquare::new(back, DefaultColorScheme::While));
            result.set(file + 10, RawSquare::new(front, DefaultColorScheme::While));
            result.set(file + 80, RawSquare::new(front, DefaultColorScheme::Black));
            result.set(file + 90, RawSquare::new(back, DefaultColorScheme::Black));
            file = file + 1;
        }
        assert(result.board@ =~= Self::spec_start_squares());
        result
    }

    fn get(&self, pos: u8) -> (r: &ContrastingSquare) {
        &self.board[pos as usize]
    }

    fn set(&mut self, pos: u8, piece: ContrastingSquare) -> (r: ContrastingSquare) {
        let result = self.board[pos as usize];
        self.board[pos as usize] = piece;
        result
    }

    fn swap(&mut self, pos: u8, piece: &mut ContrastingSquare) {
        let held = self.board[pos as usize];
        self.board[pos as usize] = *piece;
        *piece = held;
    }

    fn immune(mover: ContrastingChessPiece, target: ContrastingChessPiece) -> (r: bool) {
        match (mover, target) {
            (ContrastingChessPiece::Elephant, ContrastingChessPiece::Weasel) => true,
            _ => false,
        }
    }

    fn is_king(piece: Self::PieceType) -> (r: bool) {
        match piece {
            ContrastingChessPiece::King => true,
            _ => false,
        }
    }

    fn rules(piece: ContrastingChessPiece, color: DefaultColorScheme) -> (r: Vec<RayRule>) {
        let any = CapturePolicy::QuietOrCapture;
        match piece {
            ContrastingChessPiece::King => all_direction_rules(1, any),
            ContrastingChessPiece::Elephant => all_direction_rules(9, any),
            ContrastingChessPiece::Bear => diagonal_rules(5, any),
            ContrastingChessPiece::Weasel => {
                let f: i8 = match color {
                    DefaultColorScheme::While => 1,
                    DefaultColorScheme::Black => -1,
                };
                let r = vec![RayRule::new(0, f, 1, CapturePolicy::QuietOnly)];
                assert(r@ =~= contrasting_rules(piece, color));
                r
            },
            _ => {
                let r: Vec<RayRule> = Vec::new();
                assert(r@ =~= contrasting_rules(piece, color));
                r
            },
        }
    }
}

impl MoveGeneration for ContrastingChessBoard {
}

impl ContrastingChessBoard {
    /// A short description of the board.
    pub fn to_string(&self) -> (r: String)
        ensures
            r@ == Seq::<char>::empty(),
    {
        String::new()
    }
}

#[derive(Copy, Clone, Debug, PartialEq, Eq, Structural)]
pub enum ContrastingChessFile {
    A,
    B,
    C,
    D,
    E,
    F,
    G,
    H,
    I,
    J,
}

impl GenericFile for ContrastingChessFile {
    open spec fn spec_index(self) -> nat {
        match self {
            ContrastingChessFile::A => 0,
            ContrastingChessFile::B => 1,
            ContrastingChessFile::C => 2,
            ContrastingChessFile::D => 3,
            ContrastingChessFile::E => 4,
            ContrastingChessFile::F => 5,
            ContrastingChessFile::G => 6,
            ContrastingChessFile::H => 7,
            ContrastingChessFile::I => 8,
            ContrastingChessFile::J => 9,
        }
    }

    open spec fn spec_count() -> nat {
        10
    }

    fn to_storage(self) -> (r: u8) {
        match self {
            ContrastingChessFile::A => 0,
            ContrastingChessFile::B => 1,
            ContrastingChessFile::C => 2,
            ContrastingChessFile::D => 3,
            ContrastingChessFile::E => 4,
            ContrastingChessFile::F => 5,
            ContrastingChessFile::G => 6,
            ContrastingChessFile::H => 7,
            ContrastingChessFile::I => 8,
            ContrastingChessFile::J => 9,
        }
    }

    fn from_storage(input: u8) -> (r: ContrastingChessFile) {
        match input {
            0 => ContrastingChessFile::A,
            1 => ContrastingChessFile::B,
            2 => ContrastingChessFile::C,
            3 => ContrastingChessFile::D,
            4 => ContrastingChessFile::E,
            5 => ContrastingChessFile::F,
            6 => ContrastingChessFile::G,
            7 => ContrastingChessFile::H,
            8 => ContrastingChessFile::I,
            _ => ContrastingChessFile::J,
        }
    }
}

#[derive(Copy, Clone, Debug, PartialEq, Eq, Structural)]
pub enum ContrastingChessRank {
    R1,
    R2,
    R3,
    R4,
    R5,
    R6,
    R7,
    R8,
    R9,
    R10,
}

impl GenericRank for ContrastingChessRank {
    open spec fn spec_index(self) -> nat {
        match self {
            ContrastingChessRank::R1 => 0,
            ContrastingChessRank::R2 => 1,
            ContrastingChessRank::R3 => 2,
            ContrastingChessRank::R4 => 3,
            ContrastingChessRank::R5 => 4,
            ContrastingChessRank::R6 => 5,
            ContrastingChessRank::R7 => 6,
            ContrastingChessRank::R8 => 7,
            ContrastingChessRank::R9 => 8,
            ContrastingChessRank::R10 => 9,
        }
    }

    open spec fn spec_count() -> nat {
        10
    }

    fn to_storage(self) -> (r: u8) {
        match self {
            ContrastingChessRank::R1 => 0,
            ContrastingChessRank::R2 => 1,
            ContrastingChessRank::R3 => 2,
            ContrastingChessRank::R4 => 3,
            ContrastingChessRank::R5 => 4,
            ContrastingChessRank::R6 => 5,
            ContrastingChessRank::R7 => 6,
            ContrastingChessRank::R8 => 7,
            ContrastingChessRank::R9 => 8,
            ContrastingChessRank::R10 => 9,
        }
    }

    fn from_storage(input: u8) -> (r: ContrastingChessRank) {
        match input {
            0 => ContrastingChessRank::R1,
            1 => ContrastingChessRank::R2,
            2 => ContrastingChessRank::R3,
            3 => ContrastingChessRank::R4,
            4 => ContrastingChessRank::R5,
            5 => ContrastingChessRank::R6,
            6 => ContrastingChessRank::R7,
            7 => ContrastingChessRank::R8,
            8 => ContrastingChessRank::R9,
            _ => ContrastingChessRank::R10,
        }
    }
}

impl ContrastingChessFile {
    /// The file's letter.
    pub fn name(&self) -> (r: &'static str)
        ensures
            r@ == seq!["ABCDEFGHIJ"@[self.spec_index() as int]],
    {
        let r = match self {
            ContrastingChessFile::A => "A",
            ContrastingChessFile::B => "B",
            ContrastingChessFile::C => "C",
            ContrastingChessFile::D => "D",
            ContrastingChessFile::E => "E",
            ContrastingChessFile::F => "F",
            ContrastingChessFile::G => "G",
            ContrastingChessFile::H => "H",
            ContrastingChessFile::I => "I",
            ContrastingChessFile::J => "J",
        };
        proof {
            reveal_strlit("ABCDEFGHIJ");
            reveal_strlit("A");
            reveal_strlit("B");
            reveal_strlit("C");
            reveal_strlit("D");
            reveal_strlit("E");
            reveal_strlit("F");
            reveal_strlit("G");
            reveal_strlit("H");
            reveal_strlit("I");
            reveal_strlit("J");
            assert(r@ =~= seq!["ABCDEFGHIJ"@[self.spec_index() as int]]);
        }
        r
    }
}

impl ContrastingChessRank {
    /// The rank's number, from "1" to "10".
    pub fn name(&self) -> (r: &'static str)
        ensures
            r@ == (if self.spec_index() == 9 {
                "10"@
            } else {
                seq!["123456789"@[self.spec_index() as int]]
            }),
    {
        let r = match self {
            ContrastingChessRank::R1 => "1",
            ContrastingChessRank::R2 => "2",
            ContrastingChessRank::R3 => "3",
            ContrastingChessRank::R4 => "4",
            ContrastingChessRank::R5 => "5",
            ContrastingChessRank::R6 => "6",
            ContrastingChessRank::R7 => "7",
            ContrastingChessRank::R8 => "8",
            ContrastingChessRank::R9 => "9",
            ContrastingChessRank::R10 => "10",
        };
        proof {
            reveal_strlit("123456789");
            reveal_strlit("1");
            reveal_strlit("2");
            reveal_strlit("3");
            reveal_strlit("4");
            reveal_strlit("5");
            reveal_strlit("6");
            reveal_strlit("7");
            reveal_strlit("8");
            reveal_strlit("9");
            reveal_strlit("10");
            if self.spec_index() < 9 {
                assert(r@ =~= seq!["123456789"@[self.spec_index() as int]]);
            }
        }
        r
    }
}

} // verus!
