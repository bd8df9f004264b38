use crate::chess_like::{CapturePolicy, RayRule};
use vstd::prelude::*;

verus! {

/// The four orthogonal directions, each walked at most `max_steps` steps.
pub open spec fn orthogonal(max_steps: u8, policy: CapturePolicy) -> Seq<RayRule> {
    seq![
        RayRule { df: 1i8, dr: 0i8, max_steps, policy },
        RayRule { df: -1i8, dr: 0i8, max_steps, policy },
        RayRule { df: 0i8, dr: 1i8, max_steps, policy },
        RayRule { df: 0i8, dr: -1i8, max_steps, policy },
    ]
}

/// The four diagonal directions, each walked at most `max_steps` steps.
pub open spec fn diagonal(max_steps: u8, policy: CapturePolicy) -> Seq<RayRule> {
    seq![
        RayRule { df: 1i8, dr: 1i8, max_steps, policy },
        RayRule { df: -1i8, dr: 1i8, max_steps, policy },
        RayRule { df: 1i8, dr: -1i8, max_steps, policy },
        RayRule { df: -1i8, dr: -1i8, max_steps, policy },
    ]
}

/// The eight jumps of a knight.
pub open spec fn knight_jumps() -> Seq<RayRule> {
    let p = CapturePolicy::QuietOrCapture;
    seq![
        RayRule { df: 1i8, dr: 2i8, max_steps: 1u8, policy: p },
        RayRule { df: 2i8, dr: 1i8, max_steps: 1u8, policy: p },
        RayRule { df: 2i8, dr: -1i8, max_steps: 1u8, policy: p },
        RayRule { df: 1i8, dr: -2i8, max_steps: 1u8, policy: p },
        RayRule { df: -1i8, dr: -2i8, max_steps: 1u8, policy: p },
        RayRule { df: -2i8, dr: -1i8, max_steps: 1u8, policy: p },
        RayRule { df: -2i8, dr: 1i8, max_steps: 1u8, policy: p },
        RayRule { df: -1i8, dr: 2i8, max_steps: 1u8, policy: p },
    ]
}

pub fn orthogonal_rules(max_steps: u8, policy: CapturePolicy) -> (r: Vec<RayRule>)
    ensures
        r@ == orthogonal(max_steps, policy),
{
    let r = vec![
        RayRule::new(1, 0, max_steps, policy),
        RayRule::new(-1, 0, max_steps, policy),
        RayRule::new(0, 1, max_steps, policy),
        RayRule::new(0, -1, max_steps, policy),
    ];
    assert(r@ =~= orthogonal(max_steps, policy));
    r
}

pub fn diagonal_rules(max_steps: u8, policy: CapturePolicy) -> (r: Vec<RayRule>)
    ensures
        r@ == diagonal(max_steps, policy),
{
    let r = vec![
        RayRule::new(1, 1, max_steps, policy),
        RayRule::new(-1, 1, max_steps, policy),
        RayRule::new(1, -1, max_steps, policy),
        RayRule::new(-1, -1, max_steps, policy),
    ];
    assert(r@ =~= diagonal(max_steps, policy));
    r
}

/// Both the orthogonal and the diagonal directions.
pub fn all_direction_rules(max_steps: u8, policy: CapturePolicy) -> (r: Vec<RayRule>)
    ensures
        r@ == orthogonal(max_steps, policy) + diagonal(max_steps, policy),
{
    let mut r = orthogonal_rules(max_steps, policy);
    let mut d = diagonal_rules(max_steps, policy);
    r.append(&mut d);
    r
}

pub fn knight_rules() -> (r: Vec<RayRule>)
    ensures
        r@ == knight_jumps(),
{
    let p = CapturePolicy::QuietOrCapture;
    let r = vec![
        RayRule::new(1, 2, 1, p),
        RayRule::new(2, 1, 1, p),
        RayRule::new(2, -1, 1, p),
        RayRule::new(1, -2, 1, p),
        RayRule::new(-1, -2, 1, p),
        RayRule::new(-2, -1, 1, p),
        RayRule::new(-2, 1, 1, p),
        RayRule::new(-1, 2, 1, p),
    ];
    assert(r@ =~= knight_jumps());
    r
}

} // verus!
