use vstd::arithmetic::div_mod::{lemma_fundamental_div_mod, lemma_fundamental_div_mod_converse};
use vstd::prelude::*;

verus! {

/// Largest edge length whose squares all have a storage value that fits in a `u8`.
pub const MAX_SIDE_LEN: u8 = 15;

/// The file (column) of storage value `v` on a board with edge `side`.
pub open spec fn file_of(side: int, v: int) -> int {
    v % side
}

/// The rank (row) of storage value `v` on a board with edge `side`.
pub open spec fn rank_of(side: int, v: int) -> int {
    v / side
}

/// Row-major packing: the storage value of (file, rank).
pub open spec fn storage_of(side: int, file: int, rank: int) -> int {
    file + rank * side
}

/// Whether (file, rank) lies on a board with edge `side`.
pub open spec fn on_board(side: int, file: int, rank: int) -> bool {
    0 <= file < side && 0 <= rank < side
}

/// The square reached from `pos` by moving `df` files and `dr` ranks, if it is on the board.
pub open spec fn spec_offset(side: int, pos: int, df: int, dr: int) -> Option<int> {
    let f = file_of(side, pos) + df;
    let r = rank_of(side, pos) + dr;
    if on_board(side, f, r) {
        Some(storage_of(side, f, r))
    } else {
        None
    }
}

/// Decoding a valid storage value and packing it again gives the same value, and the
/// decoded file and rank are on the board.
pub proof fn lemma_storage_round_trip(side: int, v: int)
    requires
        1 <= side,
        0 <= v < side * side,
    ensures
        storage_of(side, file_of(side, v), rank_of(side, v)) == v,
        on_board(side, file_of(side, v), rank_of(side, v)),
{
    lemma_fundamental_div_mod(v, side);
    assert(v / side < side) by {
        vstd::arithmetic::div_mod::lemma_div_by_multiple_is_strongly_ordered(v, side * side, side, side);
        vstd::arithmetic::div_mod::lemma_div_by_multiple(side, side);
    }
    assert(v / side >= 0) by {
        vstd::arithmetic::div_mod::lemma_div_pos_is_pos(v, side);
    }
    assert(rank_of(side, v) * side == side * (v / side)) by (nonlinear_arith);
}

/// Packing a valid (file, rank) and decoding it again gives the same pair, and the packed
/// value is a valid storage value.
pub proof fn lemma_coordinates_round_trip(side: int, file: int, rank: int)
    requires
        1 <= side,
        on_board(side, file, rank),
    ensures
        file_of(side, storage_of(side, file, rank)) == file,
        rank_of(side, storage_of(side, file, rank)) == rank,
        0 <= storage_of(side, file, rank) < side * side,
{
    let v = storage_of(side, file, rank);
    assert(v == side * rank + file) by (nonlinear_arith)
        requires v == file + rank * side;
    lemma_fundamental_div_mod_converse(v, side, rank, file);
    assert(rank * side <= (side - 1) * side) by (nonlinear_arith)
        requires rank <= side - 1, side >= 1;
    assert((side - 1) * side + side == side * side) by (nonlinear_arith);
    assert(rank * side >= 0) by (nonlinear_arith)
        requires rank >= 0, side >= 1;
}

/// An offset is refused exactly when the target file or rank leaves the board; otherwise
/// the target decodes to the shifted file and rank.
pub proof fn lemma_offset_bounds(side: int, pos: int, df: int, dr: int)
    requires
        1 <= side,
        0 <= pos < side * side,
    ensures
        spec_offset(side, pos, df, dr) is None <==> !on_board(
            side,
            file_of(side, pos) + df,
            rank_of(side, pos) + dr,
        ),
        spec_offset(side, pos, df, dr) matches Some(d) ==> {
            &&& 0 <= d < side * side
            &&& file_of(side, d) == file_of(side, pos) + df
            &&& rank_of(side, d) == rank_of(side, pos) + dr
        },
{
    let f = file_of(side, pos) + df;
    let r = rank_of(side, pos) + dr;
    if on_board(side, f, r) {
        lemma_coordinates_round_trip(side, f, r);
    }
}

/// Moves `pos` by `df` files and `dr` ranks on a board with edge `side`; `None` when the
/// target is off the board.
pub fn offset(side: u8, pos: u8, df: i8, dr: i8) -> (r: Option<u8>)
    requires
        1 <= side <= MAX_SIDE_LEN,
        pos < side * side,
    ensures
        r is None <==> spec_offset(side as int, pos as int, df as int, dr as int) is None,
        r matches Some(d) ==> spec_offset(side as int, pos as int, df as int, dr as int) == Some(
            d as int,
        ),
        r matches Some(d) ==> d < side * side,
{
    proof {
        lemma_storage_round_trip(side as int, pos as int);
    }
    let file: i16 = (pos % side) as i16 + df as i16;
    let rank: i16 = (pos / side) as i16 + dr as i16;
    if file < 0 || file >= side as i16 || rank < 0 || rank >= side as i16 {
        return None;
    }
    proof {
        lemma_coordinates_round_trip(side as int, file as int, rank as int);
        assert(rank * side <= 14 * 15) by (nonlinear_arith)
            requires 0 <= rank < side, side <= 15;
    }
    let d: u8 = (file as u8) + (rank as u8) * side;
    Some(d)
}

} // verus!
