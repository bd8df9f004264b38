use vstd::prelude::*;

verus! {

/// A square of the board, generic over all game kinds.
#[derive(Copy, Clone, Debug, PartialEq, Eq, Hash, Structural)]
pub struct RawSquarePosition(pub u32);

/// A move, generic over all game kinds.
#[derive(Copy, Clone, Debug, PartialEq, Eq, Structural)]
pub struct RawMove {
    pub src: RawSquarePosition,
    pub dst: RawSquarePosition,
}

/// The identifier of a color: sequential from 0 in move order (in chess, white is 0 and
/// black is 1).
#[derive(Copy, Clone, Debug, PartialEq, Eq, Hash, Structural)]
pub struct ColorKind(pub u32);

/// A game's identifier, never re-used within one run.
pub type ID = u64;

/// The kind of game: the board size, the pieces and their moves.
#[derive(Copy, Clone, Debug, PartialEq, Eq, Hash, Structural)]
#[non_exhaustive]
pub enum Kind {
    Chess,
}

/// A small change to a base game: a different starting position or rules.
#[derive(Copy, Clone, Debug, PartialEq, Eq, Structural)]
#[non_exhaustive]
pub enum Variant {
    Chess960,
    NoCastling,
}

/// Whether games of `kind` can be played with `variant`.
pub open spec fn spec_supports_variant(kind: Kind, variant: Variant) -> bool {
    match kind {
        Kind::Chess => match variant {
            Variant::Chess960 => true,
            Variant::NoCastling => true,
        },
    }
}

impl Kind {
    pub fn supports_variant(&self, variant: &Variant) -> (r: bool)
        ensures
            r == spec_supports_variant(*self, *variant),
    {
        match *self {
            Kind::Chess => match *variant {
                Variant::Chess960 => true,
                Variant::NoCastling => true,
            },
        }
    }
}

/// Why a game ended.
#[derive(Copy, Clone, Debug, PartialEq, Eq, Structural)]
pub enum GameEndCause {
    /// The king of the player to move is in check and has no legal moves.
    Checkmate,
    /// The king of the player to move is not in check but has no legal moves.
    Stalemate,
    /// Neither side has the material to win.
    DeadPosition,
    /// The players agreed to a draw.
    DrawOffer,
    /// The losing player resigned.
    Resign,
    /// The player to move ran out of time.
    Flag,
    /// The player to move tried an illegal move.
    IllegalMove(RawMove),
}

/// A time control, in nanoseconds.
#[derive(Copy, Clone, Debug, PartialEq, Eq, Structural)]
pub enum TimeFormat {
    Timed {
        /// The time each player starts with.
        initial_nanos: u64,
        /// The time added to a player's clock after each move.
        increment_nanos: u64,
        /// How long a player's clock waits before it starts running at each move.
        delay_nanos: u64,
    },
    Unlimited,
}

/// The clock of one player.
#[derive(Clone, Debug)]
pub struct Clock {
    /// The instants (milliseconds since the Unix epoch) the player made each move, the first
    /// move first.
    pub times: Vec<i64>,
    pub time_format: TimeFormat,
    /// Nanoseconds left on the clock; `None` in an untimed game.
    pub nanos_on_clock: Option<u64>,
}

/// The clocks of all players of a game, in color order.
#[verifier::external_body]
pub struct Clocks {
    data: smallvec::SmallVec<[Clock; 2]>,
}

/// The clocks held, in color order.
pub uninterp spec fn clock_list(c: Clocks) -> Seq<Clock>;

/// Relies on smallvec::SmallVec::new: the new vector holds no elements.
#[verifier::external_body]
fn clocks_new() -> (r: Clocks)
    ensures
        clock_list(r) == Seq::<Clock>::empty(),
{
    Clocks { data: smallvec::SmallVec::new() }
}

/// Relies on smallvec::SmallVec::push: appends one element at the end. It can only panic
/// on a capacity overflow, far above the bound required here.
#[verifier::external_body]
fn clocks_push(c: &mut Clocks, clock: Clock)
    requires
        clock_list(*old(c)).len() < 65536,
    ensures
        clock_list(*final(c)) == clock_list(*old(c)).push(clock),
{
    c.data.push(clock)
}

/// Relies on smallvec::SmallVec::len: the number of elements held.
#[verifier::external_body]
fn clocks_len(c: &Clocks) -> (r: usize)
    ensures
        r == clock_list(*c).len(),
{
    c.data.len()
}

/// Relies on `get` of the slice a smallvec::SmallVec derefs to: the element at `i`, or
/// `None` past the end.
#[verifier::external_body]
fn clocks_get(c: &Clocks, i: usize) -> (r: Option<&Clock>)
    ensures
        r is Some <==> i < clock_list(*c).len(),
        r matches Some(x) ==> *x == clock_list(*c)[i as int],
{
    c.data.get(i)
}

impl Clocks {
    /// No clocks.
    pub fn new() -> (r: Clocks)
        ensures
            clock_list(r) == Seq::<Clock>::empty(),
    {
        clocks_new()
    }

    /// Adds the clock of the next color.
    pub fn push(&mut self, clock: Clock)
        requires
            clock_list(*old(self)).len() < 65536,
        ensures
            clock_list(*final(self)) == clock_list(*old(self)).push(clock),
    {
        clocks_push(self, clock)
    }

    pub fn len(&self) -> (r: usize)
        ensures
            r == clock_list(*self).len(),
    {
        clocks_len(self)
    }

    /// The clock of `player`, if the game has that color.
    pub fn get_clock(&self, player: ColorKind) -> (r: Option<&Clock>)
        ensures
            r is Some <==> player.0 < clock_list(*self).len(),
            r matches Some(x) ==> *x == clock_list(*self)[player.0 as int],
    {
        clocks_get(self, player.0 as usize)
    }
}

} // verus!
