use crate::coords::{
    file_of, lemma_offset_bounds, offset, rank_of, spec_offset, storage_of, MAX_SIDE_LEN,
};
use crate::move_list::MoveList;
use vstd::prelude::*;

verus! {

/// A piece of some kind and color.
#[derive(Copy, Clone, Debug, PartialEq, Eq, Structural)]
pub struct RawPiece<PieceType, ColorType> {
    pub piece: PieceType,
    pub color: ColorType,
}

/// One square of a board: a piece, or `None` when the square is empty.
#[derive(Copy, Clone, Debug, PartialEq, Eq, Structural)]
pub struct RawSquare<PieceType, ColorType>(pub Option<RawPiece<PieceType, ColorType>>);

impl<PieceType, ColorType> RawSquare<PieceType, ColorType> {
    /// An empty square.
    pub fn empty() -> (r: RawSquare<PieceType, ColorType>)
        ensures
            r.0 is None,
    {
        RawSquare(None)
    }

    /// A square holding `piece` of `color`.
    pub fn new(piece: PieceType, color: ColorType) -> (r: RawSquare<PieceType, ColorType>)
        ensures
            r.0 == Some(RawPiece { piece, color }),
    {
        RawSquare(Some(RawPiece { piece, color }))
    }
}

/// A storage value type: the packed address of a square.
pub trait GenericStorage: Copy {
}

impl GenericStorage for u8 {
}

/// The files (columns) of a board kind, numbered from 0.
pub trait GenericFile: Copy + Sized {
    spec fn spec_index(self) -> nat;

    /// How many files there are.
    spec fn spec_count() -> nat;

    fn to_storage(self) -> (r: u8)
        ensures
            r as nat == self.spec_index(),
            r < Self::spec_count(),
    ;

    fn from_storage(input: u8) -> (r: Self)
        requires
            input < Self::spec_count(),
        ensures
            r.spec_index() == input,
    ;
}

/// The ranks (rows) of a board kind, numbered from 0.
pub trait GenericRank: Copy + Sized {
    spec fn spec_index(self) -> nat;

    /// How many ranks there are.
    spec fn spec_count() -> nat;

    fn to_storage(self) -> (r: u8)
        ensures
            r as nat == self.spec_index(),
            r < Self::spec_count(),
    ;

    fn from_storage(input: u8) -> (r: Self)
        requires
            input < Self::spec_count(),
        ensures
            r.spec_index() == input,
    ;
}

/// A kind of piece of some board kind.
pub trait GenericPiece: Copy {
}

/// Player colors, numbered from 0 in turn order.
pub trait GenericColor: Copy + Sized {
    /// The number of this color in turn order.
    spec fn spec_index(self) -> nat;

    /// How many colors the scheme has.
    spec fn spec_count() -> nat;

    fn into_index(self) -> (r: usize)
        ensures
            r == self.spec_index(),
    ;

    /// The color numbered `i`, if there is one.
    fn try_from_index(i: usize) -> (r: Option<Self>)
        ensures
            r is Some <==> i < Self::spec_count(),
            r matches Some(c) ==> c.spec_index() == i,
    ;
}

/// The two colors of the usual games: white moves first.
#[derive(Copy, Clone, Debug, PartialEq, Eq, Structural)]
pub enum DefaultColorScheme {
    While,
    Black,
}

impl GenericColor for DefaultColorScheme {
    open spec fn spec_index(self) -> nat {
        match self {
            DefaultColorScheme::While => 0,
            DefaultColorScheme::Black => 1,
        }
    }

    open spec fn spec_count() -> nat {
        2
    }

    fn into_index(self) -> (r: usize) {
        match self {
            DefaultColorScheme::While => 0,
            DefaultColorScheme::Black => 1,
        }
    }

    fn try_from_index(i: usize) -> (r: Option<Self>) {
        match i {
            0 => Some(DefaultColorScheme::While),
            1 => Some(DefaultColorScheme::Black),
            _ => None,
        }
    }
}

impl DefaultColorScheme {
    /// The color's name.
    pub fn name(&self) -> (r: String)
        ensures
            r@ == (match self {
                DefaultColorScheme::While => "White"@,
                DefaultColorScheme::Black => "Black"@,
            }),
    {
        match self {
            DefaultColorScheme::While => String::from_str("White"),
            DefaultColorScheme::Black => String::from_str("Black"),
        }
    }
}

/// The number of the color of the piece on `square`, or 0 for an empty square.
pub fn color_code<P: Copy, C: GenericColor>(square: &RawSquare<P, C>) -> (r: usize)
    ensures
        r == (match square.0 {
            None => 0,
            Some(p) => p.color.spec_index(),
        }),
{
    match square.0 {
        None => 0,
        Some(p) => p.color.into_index(),
    }
}

/// A move from one square to another, by storage value.
#[derive(Copy, Clone, Debug, PartialEq, Eq, Structural)]
pub struct Move {
    pub src: u8,
    pub dest: u8,
}

/// The move packed in `v`: the source in the upper 32 bits, the destination in the lower 32,
/// both read as unsigned; `None` when either does not fit a storage value (so always for a
/// negative `v`, whose upper half is at least 2^31).
pub open spec fn spec_unpack_move(v: i64) -> Option<Move> {
    let src = v / 0x1_0000_0000;
    let dest = v % 0x1_0000_0000;
    if v >= 0 && src < 256 && dest < 256 {
        Some(Move { src: src as u8, dest: dest as u8 })
    } else {
        None
    }
}

impl Move {
    pub fn new(src: u8, dest: u8) -> (r: Move)
        ensures
            r.src == src,
            r.dest == dest,
    {
        Move { src, dest }
    }

    /// Decodes a move packed as the source in the upper 32 bits and the destination in the
    /// lower 32 bits.
    pub fn from_packed(v: i64) -> (r: Option<Move>)
        ensures
            r == spec_unpack_move(v),
    {
        if v < 0 {
            return None;
        }
        let src: i64 = v / 0x1_0000_0000;
        let dest: i64 = v % 0x1_0000_0000;
        if src < 256 && dest < 256 {
            Some(Move { src: src as u8, dest: dest as u8 })
        } else {
            None
        }
    }
}

/// What a ray does at the square it has just reached.
#[derive(Copy, Clone, Debug, PartialEq, Eq, Structural)]
pub enum AddMoveResult {
    /// The square is a destination and the ray goes on past it.
    AddMoveKeepIterating,
    /// The square is a destination and the ray ends there.
    AddMoveStopIterating,
    /// The square is not a destination and the ray ends before it.
    NoAddMove,
}

/// Which squares a rule may move to.
#[derive(Copy, Clone, Debug, PartialEq, Eq, Structural)]
pub enum CapturePolicy {
    /// Empty squares, and capturable enemies.
    QuietOrCapture,
    /// Empty squares only.
    QuietOnly,
    /// Capturable enemies only.
    CaptureOnly,
}

/// One entry of a piece's rule table: a direction, the most steps taken along it (1 for a
/// single-step mover), and the capture policy.
#[derive(Copy, Clone, Debug, PartialEq, Eq, Structural)]
pub struct RayRule {
    pub df: i8,
    pub dr: i8,
    pub max_steps: u8,
    pub policy: CapturePolicy,
}

impl RayRule {
    pub fn new(df: i8, dr: i8, max_steps: u8, policy: CapturePolicy) -> (r: RayRule)
        ensures
            r == (RayRule { df, dr, max_steps, policy }),
    {
        RayRule { df, dr, max_steps, policy }
    }
}

/// The most rules one piece may have.
pub const MAX_RULES: usize = 8;

/// The number of squares of a board kind.
pub open spec fn square_count<B: GenericBoard>() -> int {
    (B::spec_side_len() * B::spec_side_len()) as int
}

/// Whether the piece on `src` may capture the piece on `dest`: both squares are occupied,
/// the colors differ, and the target's kind is not immune to the mover's kind.
pub open spec fn spec_capturable<B: GenericBoard>(b: B, src: int, dest: int) -> bool {
    match (b.squares()[src].0, b.squares()[dest].0) {
        (Some(m), Some(t)) => m.color.spec_index() != t.color.spec_index() && !B::spec_immune(
            m.piece,
            t.piece,
        ),
        _ => false,
    }
}

/// The verdict of a ray of the piece on `src`, under `policy`, at the square `dest`.
pub open spec fn spec_verdict<B: GenericBoard>(
    b: B,
    src: int,
    dest: int,
    policy: CapturePolicy,
) -> AddMoveResult {
    if b.squares()[dest].0 is None {
        if policy == CapturePolicy::CaptureOnly {
            AddMoveResult::NoAddMove
        } else {
            AddMoveResult::AddMoveKeepIterating
        }
    } else if policy != CapturePolicy::QuietOnly && spec_capturable(b, src, dest) {
        AddMoveResult::AddMoveStopIterating
    } else {
        AddMoveResult::NoAddMove
    }
}

/// The destinations of the piece on `src` along `rule`, walking from `cur` with at most
/// `steps` steps left.
pub open spec fn ray_from<B: GenericBoard>(
    b: B,
    src: int,
    cur: int,
    rule: RayRule,
    steps: nat,
) -> Seq<u8>
    decreases steps,
{
    if steps == 0 {
        Seq::empty()
    } else {
        match spec_offset(B::spec_side_len() as int, cur, rule.df as int, rule.dr as int) {
            None => Seq::empty(),
            Some(d) => match spec_verdict(b, src, d, rule.policy) {
                AddMoveResult::AddMoveKeepIterating => seq![d as u8] + ray_from(
                    b,
                    src,
                    d,
                    rule,
                    (steps - 1) as nat,
                ),
                AddMoveResult::AddMoveStopIterating => seq![d as u8],
                AddMoveResult::NoAddMove => Seq::empty(),
            },
        }
    }
}

/// The destinations of the piece on `src` along each rule of `rules`, in order.
pub open spec fn rays_from<B: GenericBoard>(b: B, src: int, rules: Seq<RayRule>) -> Seq<u8>
    decreases rules.len(),
{
    if rules.len() == 0 {
        Seq::empty()
    } else {
        rays_from(b, src, rules.drop_last()) + ray_from(
            b,
            src,
            src,
            rules.last(),
            rules.last().max_steps as nat,
        )
    }
}

/// The candidate list of `pos`: empty for an empty square, else the destinations of the
/// rules of its piece.
pub open spec fn candidates<B: GenericBoard>(b: B, pos: int) -> Seq<u8> {
    match b.squares()[pos].0 {
        None => Seq::empty(),
        Some(p) => rays_from(b, pos, B::spec_rules(p.piece, p.color)),
    }
}

/// Geometric legality of `m` for the player of `color`: the source is on the board and holds
/// a piece of that color, and the destination is one of its candidates.
pub open spec fn spec_is_move_legal<B: GenericBoard>(
    b: B,
    color: B::ColorType,
    m: Move,
) -> bool {
    legal_for_index(b, color.spec_index(), m)
}

/// Geometric legality of `m` for the player whose color is numbered `color_index`.
pub open spec fn legal_for_index<B: GenericBoard>(b: B, color_index: nat, m: Move) -> bool {
    &&& m.src < square_count::<B>()
    &&& b.squares()[m.src as int].0 matches Some(p)
    &&& p.color.spec_index() == color_index
    &&& candidates(b, m.src as int).contains(m.dest)
}

/// Whether a piece whose color is not numbered `color_index` could move onto a king whose
/// color is.
pub open spec fn king_attacked<B: GenericBoard>(b: B, color_index: nat) -> bool {
    exists|k: int, a: int|
        0 <= k < square_count::<B>() && 0 <= a < square_count::<B>() && #[trigger] is_king_of(
            b,
            k,
            color_index,
        ) && #[trigger] is_enemy_of(b, a, color_index) && candidates(b, a).contains(k as u8)
}

/// Whether square `k` holds a king whose color is numbered `color_index`.
pub open spec fn is_king_of<B: GenericBoard>(b: B, k: int, color_index: nat) -> bool {
    b.squares()[k].0 matches Some(p) && p.color.spec_index() == color_index && B::spec_is_king(
        p.piece,
    )
}

/// Whether square `a` holds a piece whose color is not numbered `color_index`.
pub open spec fn is_enemy_of<B: GenericBoard>(b: B, a: int, color_index: nat) -> bool {
    b.squares()[a].0 matches Some(q) && q.color.spec_index() != color_index
}

/// Whether, once `m` is applied to `b`, a king of the color numbered `color_index` can be
/// captured.
pub open spec fn exposes_king<B: GenericBoard>(b: B, color_index: nat, m: Move) -> bool {
    exists|after: B|
        after.squares() == spec_apply_move(b.squares(), m) && #[trigger] king_attacked(
            after,
            color_index,
        )
}

/// Whether the piece on `pos` could move to `target`.
pub open spec fn spec_attacks<B: GenericBoard>(b: B, pos: int, target: u8) -> bool {
    b.squares()[pos].0 is Some && candidates(b, pos).contains(target)
}

/// The squares below `i` whose piece could move to `target`, in increasing order.
pub open spec fn attackers_below<B: GenericBoard>(b: B, target: u8, i: int) -> Seq<u8>
    decreases i,
{
    if i <= 0 {
        Seq::empty()
    } else if spec_attacks(b, i - 1, target) {
        attackers_below(b, target, i - 1).push((i - 1) as u8)
    } else {
        attackers_below(b, target, i - 1)
    }
}

/// Whether square `pos` is occupied, by a piece of `color` when one is given.
pub open spec fn occupied_by<B: GenericBoard>(
    b: B,
    pos: int,
    color: Option<B::ColorType>,
) -> bool {
    match b.squares()[pos].0 {
        None => false,
        Some(p) => match color {
            None => true,
            Some(c) => p.color.spec_index() == c.spec_index(),
        },
    }
}

/// The occupied squares below `i` (of `color` when one is given), in increasing order.
pub open spec fn occupied_below<B: GenericBoard>(
    b: B,
    color: Option<B::ColorType>,
    i: int,
) -> Seq<u8>
    decreases i,
{
    if i <= 0 {
        Seq::empty()
    } else if occupied_by(b, i - 1, color) {
        occupied_below(b, color, i - 1).push((i - 1) as u8)
    } else {
        occupied_below(b, color, i - 1)
    }
}

/// The squares after the piece on `m.src` has moved to `m.dest`: the source is emptied,
/// then the mover replaces whatever stood on the destination.
pub open spec fn spec_apply_move<P, C>(squares: Seq<RawSquare<P, C>>, m: Move) -> Seq<RawSquare<P, C>> {
    squares.update(m.src as int, RawSquare(None)).update(m.dest as int, squares[m.src as int])
}

/// Applying a move leaves its source empty and its destination holding the mover, and
/// touches no other square.
pub proof fn lemma_apply_capture<P, C>(squares: Seq<RawSquare<P, C>>, m: Move)
    requires
        m.src < squares.len(),
        m.dest < squares.len(),
        m.src != m.dest,
    ensures
        spec_apply_move(squares, m).len() == squares.len(),
        spec_apply_move(squares, m)[m.src as int].0 is None,
        spec_apply_move(squares, m)[m.dest as int] == squares[m.src as int],
        forall|i: int|
            0 <= i < squares.len() && i != m.src && i != m.dest ==> #[trigger] spec_apply_move(
                squares,
                m,
            )[i] == squares[i],
{
}

/// The square reached from `cur` after `steps` steps along `rule`'s direction, or `None` once
/// a step leaves the board.
pub open spec fn walk<B: GenericBoard>(cur: int, rule: RayRule, steps: nat) -> Option<int>
    decreases steps,
{
    if steps == 0 {
        Some(cur)
    } else {
        match spec_offset(B::spec_side_len() as int, cur, rule.df as int, rule.dr as int) {
            None => None,
            Some(d) => walk::<B>(d, rule, (steps - 1) as nat),
        }
    }
}

/// A sliding rule that may capture stops at the first occupied square of its direction: the
/// destinations are the squares of the direction in order, none lies beyond an occupied
/// square, an occupied destination is a capturable enemy, and when the ray ends early on an
/// occupied square that square is not capturable.
pub proof fn lemma_ray_stop_policy<B: GenericBoard>(
    b: B,
    src: int,
    cur: int,
    rule: RayRule,
    steps: nat,
)
    requires
        rule.policy == CapturePolicy::QuietOrCapture,
        0 <= src < square_count::<B>(),
        0 <= cur < square_count::<B>(),
    ensures
        ({
            let r = ray_from(b, src, cur, rule, steps);
            &&& forall|j: int| 0 <= j < r.len() ==> walk::<B>(cur, rule, (j + 1) as nat) == Some(
                #[trigger] r[j] as int,
            )
            &&& forall|t: int|
                0 <= t < r.len() - 1 ==> (#[trigger] b.squares()[r[t] as int]).0 is None
            &&& forall|j: int|
                0 <= j < r.len() && (#[trigger] b.squares()[r[j] as int]).0 is Some
                    ==> spec_capturable(b, src, r[j] as int)
            &&& forall|d: int|
                r.len() < steps && (r.len() == 0 || b.squares()[r.last() as int].0 is None)
                    && walk::<B>(cur, rule, (r.len() + 1) as nat) == Some(d) && (
                #[trigger] b.squares()[d]).0 is Some ==> !spec_capturable(b, src, d)
        }),
    decreases steps,
{
    b.lemma_squares_len();
    B::lemma_side_len();
    lemma_square_count::<B>();
    let r = ray_from(b, src, cur, rule, steps);
    if steps > 0 {
        lemma_offset_bounds(B::spec_side_len() as int, cur, rule.df as int, rule.dr as int);
        match spec_offset(B::spec_side_len() as int, cur, rule.df as int, rule.dr as int) {
            None => {
                assert(walk::<B>(cur, rule, 1) is None);
            },
            Some(d) => {
                assert(walk::<B>(cur, rule, 1) == walk::<B>(d, rule, 0));
                lemma_ray_stop_policy(b, src, d, rule, (steps - 1) as nat);
                let rest = ray_from(b, src, d, rule, (steps - 1) as nat);
                if spec_verdict(b, src, d, rule.policy) == AddMoveResult::AddMoveStopIterating {
                    assert(r == seq![d as u8]);
                    assert(r[0] as int == d);
                } else if spec_verdict(b, src, d, rule.policy) == AddMoveResult::NoAddMove {
                    assert(r.len() == 0);
                } else {
                    assert(r == seq![d as u8] + rest);
                    assert(b.squares()[d].0 is None);
                    assert(r[0] as int == d);
                    assert forall|j: int| 0 <= j < r.len() implies walk::<B>(
                        cur,
                        rule,
                        (j + 1) as nat,
                    ) == Some(#[trigger] r[j] as int) by {
                        assert(walk::<B>(cur, rule, (j + 1) as nat) == walk::<B>(d, rule, j as nat));
                        if j > 0 {
                            assert(r[j] == rest[j - 1]);
                            assert(walk::<B>(d, rule, ((j - 1) + 1) as nat) == Some(rest[j - 1] as int));
                        }
                    }
                    assert forall|t: int|
                        0 <= t < r.len() - 1 implies (#[trigger] b.squares()[r[t] as int]).0 is None by {
                        if t > 0 {
                            assert(r[t] == rest[t - 1]);
                        }
                    }
                    assert forall|j: int|
                        0 <= j < r.len() && (#[trigger] b.squares()[r[j] as int]).0 is Some
                        implies spec_capturable(b, src, r[j] as int) by {
                        if j > 0 {
                            assert(r[j] == rest[j - 1]);
                        }
                    }
                    assert forall|e: int|
                        r.len() < steps && (r.len() == 0 || b.squares()[r.last() as int].0 is None)
                            && walk::<B>(cur, rule, (r.len() + 1) as nat) == Some(e) && (
                        #[trigger] b.squares()[e]).0 is Some implies !spec_capturable(b, src, e) by {
                        if rest.len() > 0 {
                            assert(r.last() == rest.last());
                        }
                    }
                }
            },
        }
    }
}

/// Every destination of a ray is a square of the board.
pub proof fn lemma_ray_in_range<B: GenericBoard>(
    b: B,
    src: int,
    cur: int,
    rule: RayRule,
    steps: nat,
)
    requires
        0 <= cur < square_count::<B>(),
    ensures
        forall|j: int|
            0 <= j < ray_from(b, src, cur, rule, steps).len() ==> #[trigger] ray_from(
                b,
                src,
                cur,
                rule,
                steps,
            )[j] < square_count::<B>(),
    decreases steps,
{
    B::lemma_side_len();
    lemma_square_count::<B>();
    if steps > 0 {
        lemma_offset_bounds(B::spec_side_len() as int, cur, rule.df as int, rule.dr as int);
        match spec_offset(B::spec_side_len() as int, cur, rule.df as int, rule.dr as int) {
            None => {},
            Some(d) => {
                lemma_ray_in_range(b, src, d, rule, (steps - 1) as nat);
                let rest = ray_from(b, src, d, rule, (steps - 1) as nat);
                let r = ray_from(b, src, cur, rule, steps);
                assert forall|j: int| 0 <= j < r.len() implies #[trigger] r[j] < square_count::<B>() by {
                    if j > 0 && spec_verdict(b, src, d, rule.policy) == AddMoveResult::AddMoveKeepIterating {
                        assert(r[j] == rest[j - 1]);
                    }
                }
            },
        }
    }
}

/// Every candidate destination is a square of the board.
pub proof fn lemma_candidates_in_range<B: GenericBoard>(b: B, pos: int)
    requires
        0 <= pos < square_count::<B>(),
    ensures
        forall|j: int|
            0 <= j < candidates(b, pos).len() ==> #[trigger] candidates(b, pos)[j]
                < square_count::<B>(),
{
    match b.squares()[pos].0 {
        None => {},
        Some(p) => {
            lemma_rays_in_range(b, pos, B::spec_rules(p.piece, p.color));
        },
    }
}

proof fn lemma_rays_in_range<B: GenericBoard>(b: B, src: int, rules: Seq<RayRule>)
    requires
        0 <= src < square_count::<B>(),
    ensures
        forall|j: int|
            0 <= j < rays_from(b, src, rules).len() ==> #[trigger] rays_from(b, src, rules)[j]
                < square_count::<B>(),
    decreases rules.len(),
{
    if rules.len() > 0 {
        lemma_rays_in_range(b, src, rules.drop_last());
        lemma_ray_in_range(b, src, src, rules.last(), rules.last().max_steps as nat);
        let a = rays_from(b, src, rules.drop_last());
        let c = ray_from(b, src, src, rules.last(), rules.last().max_steps as nat);
        let r = rays_from(b, src, rules);
        assert forall|j: int| 0 <= j < r.len() implies #[trigger] r[j] < square_count::<B>() by {
            if j < a.len() {
                assert(r[j] == a[j]);
            } else {
                assert(r[j] == c[j - a.len()]);
            }
        }
    }
}

/// A ray never yields more destinations than the steps it may take.
pub proof fn lemma_ray_len<B: GenericBoard>(b: B, src: int, cur: int, rule: RayRule, steps: nat)
    ensures
        ray_from(b, src, cur, rule, steps).len() <= steps,
    decreases steps,
{
    if steps > 0 {
        match spec_offset(B::spec_side_len() as int, cur, rule.df as int, rule.dr as int) {
            None => {},
            Some(d) => {
                lemma_ray_len(b, src, d, rule, (steps - 1) as nat);
            },
        }
    }
}

/// The board kind's squares fit in storage values.
pub proof fn lemma_square_count<B: GenericBoard>()
    ensures
        1 <= square_count::<B>() <= 225,
{
    B::lemma_side_len();
    let s = B::spec_side_len() as int;
    assert(1 <= s * s <= 225) by (nonlinear_arith)
        requires 1 <= s <= 15;
}

/// A board kind: its geometry, its squares, and its pieces' rule tables. The move generation,
/// legality and attack queries are written once here over those.
pub trait GenericBoard: Sized + Copy {
    type PieceType: GenericPiece;

    type ColorType: GenericColor;

    type FileType: GenericFile;

    type RankType: GenericRank;

    /// The edge length of the board.
    spec fn spec_side_len() -> nat;

    /// The squares, indexed by storage value.
    spec fn squares(&self) -> Seq<RawSquare<Self::PieceType, Self::ColorType>>;

    /// Whether a piece of kind `target` cannot be captured by one of kind `mover`.
    spec fn spec_immune(mover: Self::PieceType, target: Self::PieceType) -> bool;

    /// The squares of the starting position.
    spec fn spec_start_squares() -> Seq<RawSquare<Self::PieceType, Self::ColorType>>;

    /// The rule table of a piece of kind `piece` and color `color`.
    spec fn spec_rules(piece: Self::PieceType, color: Self::ColorType) -> Seq<RayRule>;

    /// Whether pieces of kind `piece` are kings, whose safety full legality protects.
    spec fn spec_is_king(piece: Self::PieceType) -> bool;

    /// Two boards with the same squares are the same board.
    proof fn lemma_squares_determine(&self, other: &Self)
        requires
            self.squares() == other.squares(),
        ensures
            *self == *other,
    ;

    proof fn lemma_side_len()
        ensures
            1 <= Self::spec_side_len() <= MAX_SIDE_LEN,
            Self::FileType::spec_count() == Self::spec_side_len(),
            Self::RankType::spec_count() == Self::spec_side_len(),
    ;

    proof fn lemma_squares_len(&self)
        ensures
            self.squares().len() == (Self::spec_side_len() * Self::spec_side_len()) as int,
    ;

    fn side_len() -> (r: u8)
        ensures
            r as nat == Self::spec_side_len(),
    ;

    /// The storage value of the square at (`file`, `rank`).
    fn to_storage(file: Self::FileType, rank: Self::RankType) -> (r: u8)
        ensures
            r as int == storage_of(
                Self::spec_side_len() as int,
                file.spec_index() as int,
                rank.spec_index() as int,
            ),
    ;

    /// The file and rank of the square with storage value `storage`.
    fn from_storage(storage: u8) -> (r: (Self::FileType, Self::RankType))
        requires
            storage < (Self::spec_side_len() * Self::spec_side_len()) as int,
        ensures
            r.0.spec_index() == file_of(Self::spec_side_len() as int, storage as int),
            r.1.spec_index() == rank_of(Self::spec_side_len() as int, storage as int),
    ;

    /// Creates an empty board.
    fn new() -> (r: Self)
        ensures
            forall|i: int| 0 <= i < (Self::spec_side_len() * Self::spec_side_len()) as int ==> (#[trigger] r.squares()[i]).0 is None,
    ;

    /// Creates a board with the pieces on their starting squares.
    fn default() -> (r: Self)
        ensures
            r.squares() == Self::spec_start_squares(),
    ;

    fn get(&self, pos: u8) -> (r: &RawSquare<Self::PieceType, Self::ColorType>)
        requires
            pos < (Self::spec_side_len() * Self::spec_side_len()) as int,
        ensures
            *r == self.squares()[pos as int],
    ;

    /// Puts `piece` on `pos` and returns what was there.
    fn set(&mut self, pos: u8, piece: RawSquare<Self::PieceType, Self::ColorType>) -> (r: RawSquare<
        Self::PieceType,
        Self::ColorType,
    >)
        requires
            pos < (Self::spec_side_len() * Self::spec_side_len()) as int,
        ensures
            final(self).squares() == old(self).squares().update(pos as int, piece),
            r == old(self).squares()[pos as int],
    ;

    /// Swaps the square at `pos` with the square held in `piece`.
    fn swap(&mut self, pos: u8, piece: &mut RawSquare<Self::PieceType, Self::ColorType>)
        requires
            pos < (Self::spec_side_len() * Self::spec_side_len()) as int,
        ensures
            final(self).squares() == old(self).squares().update(pos as int, *old(piece)),
            *final(piece) == old(self).squares()[pos as int],
    ;

    fn immune(mover: Self::PieceType, target: Self::PieceType) -> (r: bool)
        ensures
            r == Self::spec_immune(mover, target),
    ;

    fn is_king(piece: Self::PieceType) -> (r: bool)
        ensures
            r == Self::spec_is_king(piece),
    ;

    /// The rule table of a piece.
    fn rules(piece: Self::PieceType, color: Self::ColorType) -> (r: Vec<RayRule>)
        ensures
            r@ == Self::spec_rules(piece, color),
            r@.len() <= MAX_RULES,
    ;
}

/// Move generation, legality and attack queries, written once over the primitives of
/// `GenericBoard`.
pub trait MoveGeneration: GenericBoard {
    /// Empties every square.
    fn clear(&mut self)
        ensures
            final(self).squares().len() == old(self).squares().len(),
            forall|i: int|
                0 <= i < square_count::<Self>() ==> (#[trigger] final(self).squares()[i]).0 is None,
    {
        proof {
            lemma_square_count::<Self>();
            self.lemma_squares_len();
        }
        let n: u8 = Self::side_len() * Self::side_len();
        let mut pos: u8 = 0;
        while pos < n
            invariant
                n == square_count::<Self>(),
                n <= 225,
                pos <= n,
                self.squares().len() == n,
                forall|i: int| 0 <= i < pos ==> (#[trigger] self.squares()[i]).0 is None,
            decreases n - pos,
        {
            self.set(pos, RawSquare(None));
            pos = pos + 1;
        }
    }

    /// The square `df` files and `dr` ranks away from `pos`, or `None` when that is off
    /// the board.
    fn offset_pos(pos: u8, df: i8, dr: i8) -> (r: Option<u8>)
        requires
            pos < square_count::<Self>(),
        ensures
            r is None <==> spec_offset(
                Self::spec_side_len() as int,
                pos as int,
                df as int,
                dr as int,
            ) is None,
            r matches Some(d) ==> spec_offset(
                Self::spec_side_len() as int,
                pos as int,
                df as int,
                dr as int,
            ) == Some(d as int),
            r matches Some(d) ==> d < square_count::<Self>(),
    {
        proof {
            Self::lemma_side_len();
        }
        offset(Self::side_len(), pos, df, dr)
    }

    /// The square `df` files and `dr` ranks away from `pos`, when that square is on the board
    /// and empty.
    fn is_square_empty_offset(&self, pos: u8, df: i8, dr: i8) -> (r: Option<u8>)
        requires
            pos < square_count::<Self>(),
        ensures
            r == (match spec_offset(Self::spec_side_len() as int, pos as int, df as int, dr as int) {
                Some(d) => if self.squares()[d].0 is None {
                    Some(d as u8)
                } else {
                    None
                },
                None => None,
            }),
    {
        proof {
            lemma_square_count::<Self>();
        }
        match Self::offset_pos(pos, df, dr) {
            None => None,
            Some(d) => {
                let square = *self.get(d);
                match square.0 {
                    None => Some(d),
                    Some(_) => None,
                }
            },
        }
    }

    /// The verdict of a ray of the piece on `src` at `dest`.
    fn verdict(&self, src: u8, dest: u8, policy: CapturePolicy) -> (r: AddMoveResult)
        requires
            src < square_count::<Self>(),
            dest < square_count::<Self>(),
        ensures
            r == spec_verdict(*self, src as int, dest as int, policy),
    {
        let target = *self.get(dest);
        match target.0 {
            None => match policy {
                CapturePolicy::CaptureOnly => AddMoveResult::NoAddMove,
                _ => AddMoveResult::AddMoveKeepIterating,
            },
            Some(t) => {
                let mover = *self.get(src);
                match mover.0 {
                    None => AddMoveResult::NoAddMove,
                    Some(m) => {
                        let may_capture = match policy {
                            CapturePolicy::QuietOnly => false,
                            _ => true,
                        };
                        if may_capture && m.color.into_index() != t.color.into_index()
                            && !Self::immune(m.piece, t.piece) {
                            AddMoveResult::AddMoveStopIterating
                        } else {
                            AddMoveResult::NoAddMove
                        }
                    },
                }
            },
        }
    }

    /// Appends the destinations of the piece on `src` along `rule` to `list`.
    fn add_ray_moves(&self, src: u8, rule: RayRule, list: &mut MoveList)
        requires
            src < square_count::<Self>(),
            old(list)@.len() + rule.max_steps < 65536,
        ensures
            final(list)@ == old(list)@ + ray_from(
                *self,
                src as int,
                src as int,
                rule,
                rule.max_steps as nat,
            ),
    {
        let ghost target = old(list)@ + ray_from(
            *self,
            src as int,
            src as int,
            rule,
            rule.max_steps as nat,
        );
        let mut cur: u8 = src;
        let mut steps: u8 = rule.max_steps;
        let mut done = false;
        proof {
            assert(list@ + ray_from(*self, src as int, cur as int, rule, steps as nat) == target);
            lemma_ray_len(*self, src as int, cur as int, rule, steps as nat);
        }
        while !done && steps > 0
            invariant
                src < square_count::<Self>(),
                cur < square_count::<Self>(),
                done ==> list@ == target,
                !done ==> list@ + ray_from(*self, src as int, cur as int, rule, steps as nat)
                    == target,
                !done ==> list@.len() + steps <= old(list)@.len() + rule.max_steps,
                list@.len() <= old(list)@.len() + rule.max_steps,
                old(list)@.len() + rule.max_steps < 65536,
            decreases steps + (if done { 0int } else { 1int }),
        {
            proof {
                lemma_square_count::<Self>();
                Self::lemma_side_len();
                lemma_offset_bounds(
                    Self::spec_side_len() as int,
                    cur as int,
                    rule.df as int,
                    rule.dr as int,
                );
            }
            match Self::offset_pos(cur, rule.df, rule.dr) {
                None => {
                    assert(list@ =~= list@ + Seq::<u8>::empty());
                    done = true;
                },
                Some(d) => {
                    let ghost before = list@;
                    match self.verdict(src, d, rule.policy) {
                        AddMoveResult::AddMoveKeepIterating => {
                            list.push(d);
                            proof {
                                let rest = ray_from(
                                    *self,
                                    src as int,
                                    d as int,
                                    rule,
                                    (steps - 1) as nat,
                                );
                                assert(before + (seq![d] + rest) =~= before.push(d) + rest);
                            }
                            cur = d;
                            steps = steps - 1;
                        },
                        AddMoveResult::AddMoveStopIterating => {
                            list.push(d);
                            assert(before + seq![d] =~= before.push(d));
                            done = true;
                        },
                        AddMoveResult::NoAddMove => {
                            assert(before =~= before + Seq::<u8>::empty());
                            done = true;
                        },
                    }
                },
            }
        }
        if !done {
            assert(list@ =~= list@ + Seq::<u8>::empty());
        }
    }

    /// The candidate list of the piece on `pos`: every destination its rules reach, without
    /// regard to whether its own king is left attacked.
    fn moves_for_piece(&self, pos: u8) -> (r: MoveList)
        requires
            pos < square_count::<Self>(),
        ensures
            r@ == candidates(*self, pos as int),
    {
        let mut list = MoveList::new();
        let square = *self.get(pos);
        match square.0 {
            None => {
                assert(list@ =~= Seq::<u8>::empty());
                list
            },
            Some(p) => {
                let rules = Self::rules(p.piece, p.color);
                let mut i: usize = 0;
                assert(rules@.subrange(0, 0) =~= Seq::<RayRule>::empty());
                while i < rules.len()
                    invariant
                        pos < square_count::<Self>(),
                        rules@.len() <= MAX_RULES,
                        i <= rules@.len(),
                        list@ == rays_from(*self, pos as int, rules@.subrange(0, i as int)),
                        list@.len() <= 255 * i,
                    decreases rules@.len() - i,
                {
                    let rule = rules[i];
                    self.add_ray_moves(pos, rule, &mut list);
                    proof {
                        lemma_ray_len(*self, pos as int, pos as int, rule, rule.max_steps as nat);
                        assert(rules@.subrange(0, i as int + 1).drop_last() =~= rules@.subrange(
                            0,
                            i as int,
                        ));
                    }
                    i = i + 1;
                }
                assert(rules@.subrange(0, rules@.len() as int) =~= rules@);
                list
            },
        }
    }

    /// Whether `m` is geometrically legal for the player of `color`: its source holds a piece
    /// of that color and its destination is a candidate of that piece.
    fn is_move_legal(&self, color: Self::ColorType, m: Move) -> (r: bool)
        ensures
            r == spec_is_move_legal(*self, color, m),
    {
        proof {
            lemma_square_count::<Self>();
        }
        let n: u8 = Self::side_len() * Self::side_len();
        if m.src >= n {
            return false;
        }
        let square = *self.get(m.src);
        match square.0 {
            None => false,
            Some(p) => {
                if p.color.into_index() != color.into_index() {
                    false
                } else {
                    self.moves_for_piece(m.src).contains(m.dest)
                }
            },
        }
    }

    /// Whether a piece of another color than `color` could move onto a king of `color`.
    fn is_king_attacked(&self, color: Self::ColorType) -> (r: bool)
        ensures
            r == king_attacked(*self, color.spec_index()),
    {
        proof {
            lemma_square_count::<Self>();
        }
        let ci = color.into_index();
        let n: u8 = Self::side_len() * Self::side_len();
        let mut k: u8 = 0;
        while k < n
            invariant
                n == square_count::<Self>(),
                n <= 225,
                k <= n,
                ci == color.spec_index(),
                forall|k2: int, a2: int|
                    0 <= k2 < k && 0 <= a2 < n && #[trigger] is_king_of(*self, k2, ci as nat)
                        && #[trigger] is_enemy_of(*self, a2, ci as nat) ==> !candidates(
                        *self,
                        a2,
                    ).contains(k2 as u8),
            decreases n - k,
        {
            let target = *self.get(k);
            let king_here = match target.0 {
                None => false,
                Some(p) => p.color.into_index() == ci && Self::is_king(p.piece),
            };
            if king_here {
                let mut a: u8 = 0;
                while a < n
                    invariant
                        n == square_count::<Self>(),
                        n <= 225,
                        k < n,
                        a <= n,
                        ci == color.spec_index(),
                        is_king_of(*self, k as int, ci as nat),
                        forall|a2: int|
                            0 <= a2 < a && #[trigger] is_enemy_of(*self, a2, ci as nat)
                                ==> !candidates(*self, a2).contains(k),
                    decreases n - a,
                {
                    let attacker = *self.get(a);
                    match attacker.0 {
                        None => {},
                        Some(q) => {
                            if q.color.into_index() != ci && self.moves_for_piece(a).contains(k) {
                                assert(is_king_of(*self, k as int, ci as nat) && is_enemy_of(
                                    *self,
                                    a as int,
                                    ci as nat,
                                ) && candidates(*self, a as int).contains((k as int) as u8));
                                return true;
                            }
                        },
                    }
                    a = a + 1;
                }
            }
            k = k + 1;
        }
        false
    }

    /// Full legality of `m` for the player of `color`: it is geometrically legal, and once
    /// it is made on a scratch copy no king of `color` can be captured.
    fn is_move_fully_legal(&self, color: Self::ColorType, m: Move) -> (r: bool)
        ensures
            r == (spec_is_move_legal(*self, color, m) && !exposes_king(
                *self,
                color.spec_index(),
                m,
            )),
    {
        if !self.is_move_legal(color, m) {
            return false;
        }
        proof {
            lemma_candidates_in_range(*self, m.src as int);
        }
        let mut scratch = *self;
        scratch.apply_raw_move(m);
        let attacked = scratch.is_king_attacked(color);
        proof {
            assert forall|after: Self|
                after.squares() == spec_apply_move(self.squares(), m) implies #[trigger] king_attacked(
                after,
                color.spec_index(),
            ) == attacked by {
                after.lemma_squares_determine(&scratch);
            }
        }
        !attacked
    }

    /// The squares whose piece could move to `target`, in increasing order.
    fn get_attackers_of_square(&self, target: u8) -> (r: Vec<u8>)
        ensures
            r@ == attackers_below(*self, target, square_count::<Self>()),
    {
        proof {
            lemma_square_count::<Self>();
        }
        let n: u8 = Self::side_len() * Self::side_len();
        let mut result: Vec<u8> = Vec::new();
        let mut pos: u8 = 0;
        while pos < n
            invariant
                n == square_count::<Self>(),
                n <= 225,
                pos <= n,
                result@ == attackers_below(*self, target, pos as int),
            decreases n - pos,
        {
            let square = *self.get(pos);
            match square.0 {
                None => {},
                Some(p) => {
                    if self.is_move_legal(p.color, Move::new(pos, target)) {
                        result.push(pos);
                    }
                },
            }
            pos = pos + 1;
        }
        result
    }

    /// Moves the piece on `m.src` to `m.dest` without checking legality, and returns what
    /// stood on the destination before.
    fn apply_raw_move(&mut self, m: Move) -> (r: RawSquare<Self::PieceType, Self::ColorType>)
        requires
            m.src < square_count::<Self>(),
            m.dest < square_count::<Self>(),
        ensures
            final(self).squares() == spec_apply_move(old(self).squares(), m),
            r == (if m.src == m.dest {
                RawSquare(None)
            } else {
                old(self).squares()[m.dest as int]
            }),
    {
        proof {
            self.lemma_squares_len();
        }
        let piece = self.set(m.src, RawSquare(None));
        self.set(m.dest, piece)
    }

    /// Every storage value of the board, in increasing order.
    fn raw_square_iter(&self) -> (r: Vec<u8>)
        ensures
            r@.len() == square_count::<Self>(),
            forall|i: int| 0 <= i < r@.len() ==> r@[i] == i,
    {
        proof {
            lemma_square_count::<Self>();
        }
        let n: u8 = Self::side_len() * Self::side_len();
        let mut result: Vec<u8> = Vec::new();
        let mut pos: u8 = 0;
        while pos < n
            invariant
                n == square_count::<Self>(),
                n <= 225,
                pos <= n,
                result@.len() == pos,
                forall|i: int| 0 <= i < pos ==> result@[i] == i,
            decreases n - pos,
        {
            result.push(pos);
            pos = pos + 1;
        }
        result
    }

    /// The occupied squares, of `color` when one is given, in increasing order.
    fn occupied_squares(&self, color: Option<Self::ColorType>) -> (r: Vec<u8>)
        ensures
            r@ == occupied_below(*self, color, square_count::<Self>()),
    {
        proof {
            lemma_square_count::<Self>();
        }
        let n: u8 = Self::side_len() * Self::side_len();
        let mut result: Vec<u8> = Vec::new();
        let mut pos: u8 = 0;
        while pos < n
            invariant
                n == square_count::<Self>(),
                n <= 225,
                pos <= n,
                result@ == occupied_below(*self, color, pos as int),
            decreases n - pos,
        {
            let square = *self.get(pos);
            match square.0 {
                None => {},
                Some(p) => {
                    let keep = match color {
                        None => true,
                        Some(c) => p.color.into_index() == c.into_index(),
                    };
                    if keep {
                        result.push(pos);
                    }
                },
            }
            pos = pos + 1;
        }
        result
    }

    /// The squares that hold a piece, in increasing order.
    fn pieces(&self) -> (r: Vec<u8>)
        ensures
            r@ == occupied_below(*self, None, square_count::<Self>()),
    {
        self.occupied_squares(None)
    }

    /// The squares that hold a piece of `color`, in increasing order.
    fn pieces_for_color(&self, color: Self::ColorType) -> (r: Vec<u8>)
        ensures
            r@ == occupied_below(*self, Some(color), square_count::<Self>()),
    {
        self.occupied_squares(Some(color))
    }
}

} // verus!
