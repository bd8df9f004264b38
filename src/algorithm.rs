use crate::chess_like::{
    lemma_candidates_in_range, legal_for_index, spec_apply_move, spec_is_move_legal, square_count, GenericBoard,
    GenericColor, Move, MoveGeneration,
};
use vstd::prelude::*;

verus! {

/// The clock of one player.
#[derive(Copy, Clone, Debug, PartialEq, Eq, Structural)]
pub struct PlayerData {
    /// Milliseconds left on the player's clock; `None` when the game is untimed.
    pub clock: Option<u64>,
    /// The instant (milliseconds since the Unix epoch) the player's current move started,
    /// while the player's clock runs.
    pub last_move_time: Option<i64>,
}

impl PlayerData {
    pub fn new(clock: Option<u64>, last_move_time: Option<i64>) -> (r: PlayerData)
        ensures
            r == (PlayerData { clock, last_move_time }),
    {
        PlayerData { clock, last_move_time }
    }
}

/// The time control of a game, in milliseconds.
#[derive(Copy, Clone, Debug, PartialEq, Eq, Structural)]
pub enum TimeFormat {
    /// Each player starts with `initial` and gains `increment` after each move.
    Increment { initial: u64, increment: u64 },
    /// Each move may take at most `per_move`.
    FixedPerMove { per_move: u64 },
    Unlimited,
}

/// All a move-source gets to see when it is asked to move.
#[derive(Copy, Clone, Debug)]
pub struct AlgorithmInput<BoardType> {
    /// A copy of the current board.
    pub board: BoardType,
    /// The instant this move started (milliseconds since the Unix epoch).
    pub move_start: i64,
    /// The instant this player flags if no move is made; `None` when untimed.
    pub flag_instant: Option<i64>,
    /// The time format of the game.
    pub time_format: TimeFormat,
}

/// A move-source: given the position, returns a move or a description of why it cannot.
pub trait Algorithm<BoardType> {
    fn next_move(&self, input: AlgorithmInput<BoardType>) -> Result<Move, String>;
}

#[derive(Copy, Clone, Debug, PartialEq, Eq, Structural)]
pub enum DrawGameType {
    Stalemate,
    DeadPosition,
    DrawOffer,
}

#[derive(Clone, Debug, PartialEq, Eq)]
pub enum DecisiveGameType {
    /// The loser resigned.
    Resign,
    /// The loser's move-source failed.
    Error(String),
    /// The loser ran out of time.
    Flag,
    /// The loser was checkmated.
    Checkmate,
    /// Some other game-specific ending.
    Other,
    /// The loser tried to make an illegal move.
    IllegalMove(Move),
}

#[derive(Clone, Debug)]
pub enum GameEndState<ColorType> {
    Draw(DrawGameType),
    Decisive { winner: ColorType, kind: DecisiveGameType },
    Aborted,
}

#[derive(Clone, Debug)]
pub enum GameState<ColorType> {
    NotStarted,
    Running,
    Finished(GameEndState<ColorType>),
}

impl DrawGameType {
    pub fn name(&self) -> (r: String)
        ensures
            r@ == (match self {
                DrawGameType::Stalemate => "Stalemate"@,
                DrawGameType::DeadPosition => "Dead Position"@,
                DrawGameType::DrawOffer => "Draw Offer"@,
            }),
    {
        match self {
            DrawGameType::Stalemate => String::from_str("Stalemate"),
            DrawGameType::DeadPosition => String::from_str("Dead Position"),
            DrawGameType::DrawOffer => String::from_str("Draw Offer"),
        }
    }
}

impl DecisiveGameType {
    /// The name of the way the game was won, without its details.
    pub fn name(&self) -> (r: &'static str)
        ensures
            r@ == (match self {
                DecisiveGameType::Resign => "Resign"@,
                DecisiveGameType::Error(_) => "Error"@,
                DecisiveGameType::Flag => "Flag"@,
                DecisiveGameType::Checkmate => "Checkmate"@,
                DecisiveGameType::Other => "Unknown"@,
                DecisiveGameType::IllegalMove(_) => "Illegal move"@,
            }),
    {
        match self {
            DecisiveGameType::Resign => "Resign",
            DecisiveGameType::Error(_) => "Error",
            DecisiveGameType::Flag => "Flag",
            DecisiveGameType::Checkmate => "Checkmate",
            DecisiveGameType::Other => "Unknown",
            DecisiveGameType::IllegalMove(_) => "Illegal move",
        }
    }
}

/// The milliseconds a move took: the time between its two instants, or 0 when the clock went
/// backwards.
pub open spec fn elapsed_millis(move_start: i64, move_end: i64) -> int {
    if move_end > move_start {
        move_end - move_start
    } else {
        0
    }
}

/// What a player's clock starts with: nothing in an untimed game.
pub open spec fn initial_clock(format: TimeFormat) -> Option<u64> {
    match format {
        TimeFormat::Increment { initial, increment } => Some(initial),
        TimeFormat::FixedPerMove { per_move } => Some(per_move),
        TimeFormat::Unlimited => None,
    }
}

/// What is left on a clock holding `left` after a move that took `elapsed` (no more than
/// `left`): with an increment, the rest plus the increment, capped at the largest `u64`;
/// with a fixed time per move, that time again.
pub open spec fn clock_after_move(format: TimeFormat, left: u64, elapsed: int) -> u64 {
    match format {
        TimeFormat::Increment { initial, increment } => {
            let v = left - elapsed + increment;
            if v > u64::MAX {
                u64::MAX
            } else {
                v as u64
            }
        },
        TimeFormat::FixedPerMove { per_move } => per_move,
        TimeFormat::Unlimited => (left - elapsed) as u64,
    }
}

/// The instant a player with `left` milliseconds flags if the move starts at `move_start`,
/// capped at the largest `i64`.
pub open spec fn flag_instant_of(move_start: i64, left: u64) -> i64 {
    let v = move_start + left;
    if v > i64::MAX {
        i64::MAX
    } else {
        v as i64
    }
}

/// Relies on chrono::Utc::now and DateTime::timestamp_millis: the current instant in
/// milliseconds since the Unix epoch. Nothing is promised of its value. chrono panics only
/// when the system clock reads before the Unix epoch.
#[verifier::external_body]
fn now_millis() -> (r: i64) {
    chrono::Utc::now().timestamp_millis()
}

/// A game between move-sources of type `A` on a board of type `B`.
pub struct Game<B: GenericBoard, A> {
    /// The move-sources, in turn order: the player at index `i` plays the color numbered `i`.
    pub algorithms: Vec<A>,
    /// The clocks of the players, in the same order.
    pub players: Vec<PlayerData>,
    pub board: B,
    pub time_format: TimeFormat,
    /// The index of the player to move.
    pub move_index: usize,
    /// The number of completed rounds, where each player moves once in a round.
    pub turn_count: usize,
    pub state: GameState<B::ColorType>,
    /// The moves that led to this position.
    pub moves: Vec<Move>,
}

impl<B: GenericBoard + MoveGeneration, A: Algorithm<B>> Game<B, A> {
    /// Every player has a move-source, a clock and a color, and the player to move exists.
    pub open spec fn wf(&self) -> bool {
        &&& 1 <= self.players@.len()
        &&& self.players@.len() <= B::ColorType::spec_count()
        &&& self.algorithms@.len() == self.players@.len()
        &&& self.move_index < self.players@.len()
        &&& self.turn_count <= self.moves@.len()
    }

    pub open spec fn is_finished(&self) -> bool {
        self.state is Finished
    }

    /// The index of the player after the one to move.
    pub open spec fn next_index(&self) -> nat {
        ((self.move_index + 1) % (self.players@.len() as int)) as nat
    }

    /// Whether the game has finished with a loss by a failing move-source.
    pub open spec fn lost_by_error(&self) -> bool {
        self.state matches GameState::Finished(GameEndState::Decisive { kind: DecisiveGameType::Error(_), .. })
    }

    /// Whether the game has finished with the player at `winner` winning by `kind`.
    pub open spec fn decided(&self, winner: nat, kind: DecisiveGameType) -> bool {
        &&& self.state matches GameState::Finished(GameEndState::Decisive { winner: w, kind: k })
        &&& w.spec_index() == winner
        &&& k == kind
    }

    /// Creates a game of `algorithms`, in turn order, on the starting position. Each clock
    /// starts with the initial time of `time_format`.
    pub fn new(algorithms: Vec<A>, time_format: TimeFormat) -> (r: Game<B, A>)
        requires
            1 <= algorithms@.len() <= B::ColorType::spec_count(),
        ensures
            r.wf(),
            r.algorithms@ == algorithms@,
            r.players@.len() == algorithms@.len(),
            forall|i: int|
                0 <= i < r.players@.len() ==> #[trigger] r.players@[i] == (PlayerData {
                    clock: initial_clock(time_format),
                    last_move_time: None,
                }),
            r.board.squares() == B::spec_start_squares(),
            r.time_format == time_format,
            r.move_index == 0,
            r.turn_count == 0,
            r.state is NotStarted,
            r.moves@.len() == 0,
    {
        let clock = match time_format {
            TimeFormat::Increment { initial, increment } => Some(initial),
            TimeFormat::FixedPerMove { per_move } => Some(per_move),
            TimeFormat::Unlimited => None,
        };
        let mut players: Vec<PlayerData> = Vec::new();
        let mut i: usize = 0;
        while i < algorithms.len()
            invariant
                i <= algorithms@.len(),
                players@.len() == i,
                forall|j: int|
                    0 <= j < i ==> #[trigger] players@[j] == (PlayerData {
                        clock,
                        last_move_time: None,
                    }),
            decreases algorithms@.len() - i,
        {
            players.push(PlayerData::new(clock, None));
            i = i + 1;
        }
        Game {
            algorithms,
            players,
            board: B::default(),
            time_format,
            move_index: 0,
            turn_count: 0,
            state: GameState::NotStarted,
            moves: Vec::new(),
        }
    }

    /// Whether the first move has been asked for.
    pub fn is_started(&self) -> (r: bool)
        ensures
            r == !(self.state is NotStarted),
    {
        match self.state {
            GameState::NotStarted => false,
            _ => true,
        }
    }

    /// The color numbered `i`.
    fn color_at(i: usize) -> (r: B::ColorType)
        requires
            i < B::ColorType::spec_count(),
        ensures
            r.spec_index() == i,
    {
        B::ColorType::try_from_index(i).unwrap()
    }

    /// Ends the game with a win for the player after the one to move.
    fn decisive_ending(&mut self, kind: DecisiveGameType)
        requires
            old(self).wf(),
        ensures
            final(self).decided(old(self).next_index(), kind),
            final(self).board == old(self).board,
            final(self).moves == old(self).moves,
            final(self).players == old(self).players,
            final(self).algorithms == old(self).algorithms,
            final(self).move_index == old(self).move_index,
            final(self).turn_count == old(self).turn_count,
            final(self).time_format == old(self).time_format,
    {
        let n = self.players.len();
        let winner = Self::color_at((self.move_index + 1) % n);
        self.state = GameState::Finished(GameEndState::Decisive { winner, kind });
    }

    fn abort_ending(&mut self)
        ensures
            final(self).state == GameState::<B::ColorType>::Finished(GameEndState::Aborted),
            final(self).board == old(self).board,
            final(self).moves == old(self).moves,
            final(self).players == old(self).players,
            final(self).algorithms == old(self).algorithms,
            final(self).move_index == old(self).move_index,
            final(self).turn_count == old(self).turn_count,
            final(self).time_format == old(self).time_format,
    {
        self.state = GameState::Finished(GameEndState::Aborted);
    }

    /// The snapshot handed to the player to move, whose move starts at `move_start`.
    pub fn state_for_next_move(&self, move_start: i64) -> (r: AlgorithmInput<B>)
        requires
            self.wf(),
        ensures
            r.board == self.board,
            r.move_start == move_start,
            r.time_format == self.time_format,
            r.flag_instant == (match self.players@[self.move_index as int].clock {
                Some(left) => Some(flag_instant_of(move_start, left)),
                None => None,
            }),
    {
        let flag_instant = match self.players[self.move_index].clock {
            Some(left) => {
                let v: i128 = move_start as i128 + left as i128;
                if v > i64::MAX as i128 {
                    Some(i64::MAX)
                } else {
                    Some(v as i64)
                }
            },
            None => None,
        };
        AlgorithmInput { board: self.board, move_start, flag_instant, time_format: self.time_format }
    }

    /// Resolves the turn of the player to move, given what its move-source returned and the
    /// instants its move started and ended. A failure before any move was made aborts the game;
    /// a later failure loses it. An illegal move loses the game. A legal move is applied and
    /// recorded, its time is charged to the mover's clock (running out of time loses the
    /// game), and the turn passes to the next player.
    pub fn record_result(&mut self, result: Result<Move, String>, move_start: i64, move_end: i64)
        requires
            old(self).wf(),
            old(self).state is Running,
        ensures
            final(self).wf(),
            final(self).algorithms == old(self).algorithms,
            final(self).time_format == old(self).time_format,
            ({
                let idx = old(self).move_index;
                let next = old(self).next_index();
                match result {
                    Err(e) => {
                        &&& final(self).board == old(self).board
                        &&& final(self).moves == old(self).moves
                        &&& final(self).players == old(self).players
                        &&& if old(self).moves@.len() == 0 {
                            final(self).state == GameState::<B::ColorType>::Finished(GameEndState::Aborted)
                        } else {
                            final(self).decided(next, DecisiveGameType::Error(e))
                        }
                    },
                    Ok(m) => if !legal_for_index(old(self).board, idx as nat, m) {
                        &&& final(self).board == old(self).board
                        &&& final(self).moves == old(self).moves
                        &&& final(self).players == old(self).players
                        &&& final(self).decided(next, DecisiveGameType::IllegalMove(m))
                    } else {
                        let elapsed = elapsed_millis(move_start, move_end);
                        let clock = old(self).players@[idx as int].clock;
                        let flagged = clock matches Some(left) && elapsed > left;
                        &&& final(self).board.squares() == spec_apply_move(old(self).board.squares(), m)
                        &&& final(self).moves@ == old(self).moves@.push(m)
                        &&& if flagged {
                            &&& final(self).decided(next, DecisiveGameType::Flag)
                            &&& final(self).players == old(self).players
                        } else {
                            &&& final(self).state is Running
                            &&& final(self).move_index == next
                            &&& final(self).turn_count == (if next == 0 {
                                old(self).turn_count + 1
                            } else {
                                old(self).turn_count as int
                            })
                            &&& final(self).players@ == old(self).players@.update(
                                idx as int,
                                PlayerData {
                                    clock: match clock {
                                        Some(left) => Some(
                                            clock_after_move(old(self).time_format, left, elapsed),
                                        ),
                                        None => None,
                                    },
                                    last_move_time: None,
                                },
                            )
                        }
                    },
                }
            }),
    {
        let idx = self.move_index;
        match result {
            Err(e) => {
                if self.moves.len() == 0 {
                    self.abort_ending();
                } else {
                    self.decisive_ending(DecisiveGameType::Error(e));
                }
            },
            Ok(m) => {
                let mover = Self::color_at(idx);
                if !self.board.is_move_legal(mover, m) {
                    self.decisive_ending(DecisiveGameType::IllegalMove(m));
                    return;
                }
                proof {
                    lemma_candidates_in_range(self.board, m.src as int);
                }
                self.board.apply_raw_move(m);
                self.moves.push(m);
                let elapsed: u64 = if move_end > move_start {
                    (move_end as i128 - move_start as i128) as u64
                } else {
                    0
                };
                let clock = match self.players[idx].clock {
                    Some(left) => {
                        if elapsed > left {
                            self.decisive_ending(DecisiveGameType::Flag);
                            return;
                        }
                        let rest = left - elapsed;
                        match self.time_format {
                            TimeFormat::Increment { initial, increment } => {
                                if increment > u64::MAX - rest {
                                    Some(u64::MAX)
                                } else {
                                    Some(rest + increment)
                                }
                            },
                            TimeFormat::FixedPerMove { per_move } => Some(per_move),
                            TimeFormat::Unlimited => Some(rest),
                        }
                    },
                    None => None,
                };
                self.players.set(idx, PlayerData::new(clock, None));
                let n = self.players.len();
                let next = (idx + 1) % n;
                // the history's length bounds the number of rounds, and it fits a usize
                let recorded: usize = self.moves.len();
                assert(self.turn_count < recorded);
                if next == 0 {
                    self.turn_count = self.turn_count + 1;
                }
                self.move_index = next;
            },
        }
    }

    /// Whether the game has finished.
    pub fn finished(&self) -> (r: bool)
        ensures
            r == self.is_finished(),
    {
        match self.state {
            GameState::Finished(_) => true,
            _ => false,
        }
    }

    /// Plays one turn: asks the player to move for a move, then resolves it as
    /// `record_result` does with the instants the move started and ended. Returns whether
    /// the game goes on. A finished game is left as it is.
    pub fn one_move(&mut self) -> (r: bool)
        requires
            old(self).wf(),
        ensures
            final(self).wf(),
            r == !final(self).is_finished(),
            old(self).is_finished() ==> *final(self) == *old(self),
            final(self).algorithms == old(self).algorithms,
            final(self).moves@.len() <= old(self).moves@.len() + 1,
            final(self).moves@.len() == old(self).moves@.len() + 1 ==> {
                let m = final(self).moves@.last();
                &&& final(self).moves@ == old(self).moves@.push(m)
                &&& legal_for_index(old(self).board, old(self).move_index as nat, m)
                &&& final(self).board.squares() == spec_apply_move(old(self).board.squares(), m)
            },
            final(self).moves@.len() == old(self).moves@.len() ==> final(self).board
                == old(self).board,
            !old(self).is_finished() && final(self).moves@.len() == old(self).moves@.len()
                ==> final(self).is_finished(),
            !final(self).is_finished() ==> final(self).moves@.len() == old(self).moves@.len() + 1
                && final(self).move_index == old(self).next_index(),
            !old(self).is_finished() && old(self).moves@.len() == 0 ==> !final(self).lost_by_error(),
    {
        if self.finished() {
            return false;
        }
        let move_start = now_millis();
        let idx = self.move_index;
        let clock = self.players[idx].clock;
        self.players.set(idx, PlayerData::new(clock, Some(move_start)));
        self.state = GameState::Running;
        let input = self.state_for_next_move(move_start);
        let result = self.algorithms[idx].next_move(input);
        let move_end = now_millis();
        self.record_result(result, move_start, move_end);
        !self.finished()
    }
}

} // verus!
