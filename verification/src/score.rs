//! Goal detection and the two score counters. A ball whose trailing edge
//! crosses the right arena boundary scores for the left (player) side, and
//! one crossing the left boundary for the right (machine) side; the
//! counter moves by exactly one per goal event, and the ball's reset to
//! the center keeps the same crossing from ever being counted twice.

use vstd::prelude::*;
use crate::ball::Ball;
use crate::paddle::Owner;

verus! {

/// The two non-negative score counters, one per side, mutated only by a
/// goal event.
#[derive(Clone, Copy, PartialEq, Eq, Structural, Debug)]
pub struct Score {
    pub player: u32,
    pub ai: u32,
}

/// A goal event, attributed to the side the goal counts for.
#[derive(Clone, Copy, PartialEq, Eq, Structural, Debug)]
pub struct Scored {
    pub scorer: Owner,
}

/// The ball's trailing edge has crossed the right arena boundary: a goal
/// for the player on the left.
pub open spec fn crossed_right(ball: Ball, half_width: int) -> bool {
    ball.position.0.x - ball.radius > half_width
}

/// The ball's trailing edge has crossed the left arena boundary: a goal
/// for the machine on the right.
pub open spec fn crossed_left(ball: Ball, half_width: int) -> bool {
    ball.position.0.x + ball.radius < -half_width
}

/// Tests the ball against the arena's side boundaries and attributes a
/// goal: `None` while any part of the ball is still inside.
pub fn detect_goal(ball: &Ball, half_width: i64) -> (r: Option<Scored>)
    requires
        0 < half_width,
        0 < ball.radius,
        -9_000_000_000 <= ball.position.0.x as int <= 9_000_000_000,
        ball.radius <= 2_000_000_000,
        half_width <= 2_000_000_000,
    ensures
        crossed_right(*ball, half_width as int) ==> r == Some(Scored { scorer: Owner::Player }),
        !crossed_right(*ball, half_width as int) && crossed_left(*ball, half_width as int) ==> r
            == Some(Scored { scorer: Owner::Ai }),
        !crossed_right(*ball, half_width as int) && !crossed_left(*ball, half_width as int) ==> r
            is None,
        r is Some <==> crossed_right(*ball, half_width as int) || crossed_left(
            *ball,
            half_width as int,
        ),
{
    if ball.position.0.x - ball.radius > half_width {
        Some(Scored { scorer: Owner::Player })
    } else if ball.position.0.x + ball.radius < -half_width {
        Some(Scored { scorer: Owner::Ai })
    } else {
        None
    }
}

/// Counts a goal event: the attributed side's counter moves up by exactly
/// one and the other counter is untouched.
pub fn update_score(score: &mut Score, event: &Scored)
    requires
        event.scorer is Player ==> old(score).player < 0xffff_ffff,
        event.scorer is Ai ==> old(score).ai < 0xffff_ffff,
    ensures
        event.scorer is Player ==> final(score).player == old(score).player + 1
            && final(score).ai == old(score).ai,
        event.scorer is Ai ==> final(score).ai == old(score).ai + 1
            && final(score).player == old(score).player,
        final(score).player >= old(score).player,
        final(score).ai >= old(score).ai,
{
    match event.scorer {
        Owner::Player => {
            score.player = score.player + 1;
        },
        Owner::Ai => {
            score.ai = score.ai + 1;
        },
    }
}

/// A ball standing at the arena center is inside both boundaries, so the
/// tick after a goal's reset cannot detect the same crossing again.
pub proof fn lemma_centered_ball_no_goal(ball: Ball, half_width: int)
    requires
        ball.position.0.x == 0,
        0 < ball.radius,
        0 < half_width,
    ensures
        !crossed_right(ball, half_width),
        !crossed_left(ball, half_width),
{
}

} // verus!
