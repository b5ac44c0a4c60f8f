//! Drag/coast interaction state.
//!
//! Orientation is a pair of accumulated rotation angles, and angular
//! velocity a pair of per-frame deltas, all in integer angle units:
//! `TURN` units make one full revolution, so a pointer traversal of the
//! whole viewport width turns the cube exactly once.  Angles are kept
//! reduced to `[0, TURN)`; an angle is equivalent to itself plus any
//! number of whole turns.
//!
//! While dragging, each pointer move overwrites the velocity with the
//! instantaneous delta and advances the orientation by it.  While
//! coasting, each frame tick first decays the velocity by the
//! amortization factor 19/20 and then advances the orientation by the
//! decayed velocity.

use vstd::prelude::*;
use vstd::arithmetic::div_mod::{
    lemma_add_mod_noop, lemma_add_mod_noop_right, lemma_div_is_ordered,
    lemma_div_multiples_vanish, lemma_div_nonincreasing, lemma_div_pos_is_pos,
    lemma_fundamental_div_mod, lemma_fundamental_div_mod_converse_mod, lemma_mod_bound,
    lemma_small_mod,
};
use vstd::arithmetic::mul::{
    lemma_mul_inequality, lemma_mul_is_associative, lemma_mul_is_commutative,
};
use vstd::arithmetic::power::{lemma_pow0, lemma_pow1, lemma_pow_adds, lemma_pow_positive, pow};

verus! {

/// Angle units in one full revolution.
pub const TURN: i64 = 1048576;

/// Largest angular-velocity magnitude the state ever holds: a pointer
/// delta of at most `MOVE_MAX` pixels over a viewport of width at least
/// one pixel yields at most `MOVE_MAX * TURN` angle units per frame.
pub const VEL_MAX: i64 = 2251799813685248;

/// Largest pointer delta accepted from the host event layer (pixel
/// deltas fit in 32 bits).
pub const MOVE_MAX: i64 = 2147483648;

/// Pixel dimensions of the drawing surface, captured when the state is
/// created and used to normalize pointer deltas to angles.
#[derive(Clone, Copy, Debug)]
pub struct Viewport {
    pub width: u32,
    pub height: u32,
}

/// The shared interaction state: accumulated angles, angular velocity,
/// and drag engagement.
#[derive(Clone, Copy, Debug)]
pub struct InteractionState {
    /// Yaw, in angle units, reduced to `[0, TURN)`.
    pub theta: i64,
    /// Pitch, in angle units, reduced to `[0, TURN)`.
    pub phi: i64,
    /// Yaw velocity in angle units per frame.
    pub dx: i64,
    /// Pitch velocity in angle units per frame.
    pub dy: i64,
    /// True while the pointer button is held over the surface.
    pub dragging: bool,
    /// Dimensions used to turn pixel deltas into angles.
    pub viewport: Viewport,
}

/// Reduction of an arbitrary angle to `[0, TURN)`.
pub open spec fn wrap_spec(a: int) -> int {
    a % (TURN as int)
}

/// The angle delta of a pointer delta `m` over a viewport dimension
/// `dim`: `m * TURN / dim`, rounded toward zero.
pub open spec fn vel_of(m: int, dim: int) -> int {
    if m >= 0 {
        (m * TURN) / dim
    } else {
        -((-m * TURN) / dim)
    }
}

/// One amortization step: 19/20 of the velocity, rounded toward zero.
pub open spec fn decay_spec(v: int) -> int {
    if v >= 0 {
        (v * 19) / 20
    } else {
        -((-v * 19) / 20)
    }
}

impl InteractionState {
    /// Well-formedness: angles reduced, velocities bounded.
    pub open spec fn wf(self) -> bool {
        &&& 0 <= self.theta < TURN
        &&& 0 <= self.phi < TURN
        &&& -VEL_MAX <= self.dx <= VEL_MAX
        &&& -VEL_MAX <= self.dy <= VEL_MAX
    }

    /// Fresh state: at rest, not dragging, facing the camera.
    pub fn new(width: u32, height: u32) -> (s: Self)
        ensures
            s.wf(),
            s.theta == 0,
            s.phi == 0,
            s.dx == 0,
            s.dy == 0,
            !s.dragging,
            s.viewport.width == width,
            s.viewport.height == height,
    {
        InteractionState {
            theta: 0,
            phi: 0,
            dx: 0,
            dy: 0,
            dragging: false,
            viewport: Viewport { width, height },
        }
    }

    /// Pointer button pressed over the surface: engage dragging.
    /// Nothing else changes.
    pub fn pointer_down(&mut self)
        requires
            old(self).wf(),
        ensures
            final(self).wf(),
            final(self).dragging,
            final(self).theta == old(self).theta,
            final(self).phi == old(self).phi,
            final(self).dx == old(self).dx,
            final(self).dy == old(self).dy,
            final(self).viewport == old(self).viewport,
    {
        self.dragging = true;
    }

    /// Pointer button released: disengage dragging and start coasting
    /// with whatever velocity the last move left behind.
    pub fn pointer_up(&mut self)
        requires
            old(self).wf(),
        ensures
            final(self).wf(),
            !final(self).dragging,
            final(self).theta == old(self).theta,
            final(self).phi == old(self).phi,
            final(self).dx == old(self).dx,
            final(self).dy == old(self).dy,
            final(self).viewport == old(self).viewport,
    {
        self.dragging = false;
    }

    /// Pointer left the surface: treated exactly like a release, a
    /// deliberate simplification of the interaction model.
    pub fn pointer_leave(&mut self)
        requires
            old(self).wf(),
        ensures
            final(self).wf(),
            !final(self).dragging,
            final(self).theta == old(self).theta,
            final(self).phi == old(self).phi,
            final(self).dx == old(self).dx,
            final(self).dy == old(self).dy,
            final(self).viewport == old(self).viewport,
    {
        self.dragging = false;
    }

    /// Pointer moved by `(movement_x, movement_y)` pixels.
    ///
    /// While dragging over a non-degenerate viewport, the velocity is
    /// overwritten with the normalized delta and the angles advance by
    /// it.  While not dragging the move is ignored (deltas are not
    /// buffered), and a zero viewport dimension is a guarded no-op
    /// rather than a division fault.
    pub fn pointer_move(&mut self, movement_x: i64, movement_y: i64)
        requires
            old(self).wf(),
            -MOVE_MAX <= movement_x <= MOVE_MAX,
            -MOVE_MAX <= movement_y <= MOVE_MAX,
        ensures
            final(self).wf(),
            old(self).dragging && old(self).viewport.width > 0 && old(self).viewport.height > 0
                ==> {
                &&& final(self).dx == vel_of(movement_x as int, old(self).viewport.width as int)
                &&& final(self).dy == vel_of(movement_y as int, old(self).viewport.height as int)
                &&& final(self).theta == wrap_spec(
                    old(self).theta + vel_of(movement_x as int, old(self).viewport.width as int),
                )
                &&& final(self).phi == wrap_spec(
                    old(self).phi + vel_of(movement_y as int, old(self).viewport.height as int),
                )
                &&& final(self).dragging == old(self).dragging
                &&& final(self).viewport == old(self).viewport
            },
            !(old(self).dragging && old(self).viewport.width > 0 && old(self).viewport.height > 0)
                ==> *final(self) == *old(self),
    {
        if self.dragging && self.viewport.width > 0 && self.viewport.height > 0 {
            let vx: i64 = velocity_component(movement_x, self.viewport.width);
            let vy: i64 = velocity_component(movement_y, self.viewport.height);
            self.dx = vx;
            self.dy = vy;
            self.theta = wrap_angle(self.theta + vx);
            self.phi = wrap_angle(self.phi + vy);
        }
    }

    /// One frame tick.
    ///
    /// While dragging the tick changes nothing (moves already advanced
    /// the angles); while coasting it decays the velocity and advances
    /// the angles by the decayed velocity.
    pub fn tick(&mut self)
        requires
            old(self).wf(),
        ensures
            final(self).wf(),
            old(self).dragging ==> *final(self) == *old(self),
            !old(self).dragging ==> {
                &&& final(self).dx == decay_spec(old(self).dx as int)
                &&& final(self).dy == decay_spec(old(self).dy as int)
                &&& final(self).theta == wrap_spec(old(self).theta + decay_spec(old(self).dx as int))
                &&& final(self).phi == wrap_spec(old(self).phi + decay_spec(old(self).dy as int))
                &&& final(self).dragging == old(self).dragging
                &&& final(self).viewport == old(self).viewport
            },
    {
        if !self.dragging {
            let vx: i64 = decayed(self.dx);
            let vy: i64 = decayed(self.dy);
            self.dx = vx;
            self.dy = vy;
            self.theta = wrap_angle(self.theta + vx);
            self.phi = wrap_angle(self.phi + vy);
        }
    }
}

/// Reduce an angle to `[0, TURN)`.
pub fn wrap_angle(a: i64) -> (r: i64)
    requires
        -(VEL_MAX + TURN) <= a <= VEL_MAX + TURN,
    ensures
        r == wrap_spec(a as int),
        0 <= r < TURN,
{
    proof {
        lemma_mod_bound(a as int, TURN as int);
    }
    if a >= 0 {
        ((a as u64) % (TURN as u64)) as i64
    } else {
        let n: u64 = (-a) as u64;
        let m: u64 = n % (TURN as u64);
        proof {
            lemma_fundamental_div_mod(n as int, TURN as int);
            let q: int = n as int / TURN as int;
            if m == 0 {
                lemma_fundamental_div_mod_converse_mod(a as int, TURN as int, -q, 0);
            } else {
                lemma_fundamental_div_mod_converse_mod(
                    a as int,
                    TURN as int,
                    -q - 1,
                    TURN - m as int,
                );
            }
        }
        if m == 0 {
            0
        } else {
            TURN - (m as i64)
        }
    }
}

/// Normalize a pointer delta to an angle delta: `movement * TURN / dim`,
/// rounded toward zero, so a full-width traversal is one revolution.
pub fn velocity_component(movement: i64, dim: u32) -> (r: i64)
    requires
        -MOVE_MAX <= movement <= MOVE_MAX,
        dim >= 1,
    ensures
        r == vel_of(movement as int, dim as int),
        -VEL_MAX <= r <= VEL_MAX,
{
    if movement >= 0 {
        let p: u64 = (movement as u64) * (TURN as u64);
        proof {
            lemma_div_nonincreasing(p as int, dim as int);
        }
        (p / (dim as u64)) as i64
    } else {
        let neg: u64 = (-movement) as u64;
        let p: u64 = neg * 1048576;
        proof {
            assert(p == -movement * TURN);
            lemma_div_nonincreasing(p as int, dim as int);
        }
        -((p / (dim as u64)) as i64)
    }
}

/// One amortization step of a velocity component: 19/20 of it, rounded
/// toward zero, so the magnitude never grows.
pub fn decayed(v: i64) -> (r: i64)
    requires
        -VEL_MAX <= v <= VEL_MAX,
    ensures
        r == decay_spec(v as int),
        v >= 0 ==> 0 <= r <= v,
        v < 0 ==> v <= r <= 0,
{
    if v >= 0 {
        let p: u64 = (v as u64) * 19;
        proof {
            lemma_div_is_ordered(p as int, v as int * 20, 20);
            lemma_div_multiples_vanish(v as int, 20);
            assert(v as int * 20 == 20 * (v as int));
        }
        ((p / 20) as i64)
    } else {
        let p: u64 = ((-v) as u64) * 19;
        proof {
            lemma_div_is_ordered(p as int, (-v) as int * 20, 20);
            lemma_div_multiples_vanish((-v) as int, 20);
            assert((-v) as int * 20 == 20 * ((-v) as int));
        }
        -((p / 20) as i64)
    }
}

/// The angle reached from `angle0` by a sequence of drag moves over a
/// viewport dimension `dim`, one component at a time: each move wraps
/// the angle advanced by its normalized delta, exactly as
/// [`InteractionState::pointer_move`] does while dragging.
pub open spec fn drag_fold(angle0: int, moves: Seq<i64>, dim: int) -> int
    decreases moves.len(),
{
    if moves.len() == 0 {
        angle0
    } else {
        wrap_spec(drag_fold(angle0, moves.drop_last(), dim) + vel_of(moves.last() as int, dim))
    }
}

/// The plain sum of the normalized deltas of a sequence of drag moves.
pub open spec fn drag_sum(moves: Seq<i64>, dim: int) -> int
    decreases moves.len(),
{
    if moves.len() == 0 {
        0
    } else {
        drag_sum(moves.drop_last(), dim) + vel_of(moves.last() as int, dim)
    }
}

/// Law: over any sequence of drag moves, the angle accumulates exactly
/// the sum of each move's `movement * TURN / dim` contribution, up to
/// whole turns.
pub proof fn lemma_drag_accumulates(angle0: int, moves: Seq<i64>, dim: int)
    requires
        0 <= angle0 < TURN,
    ensures
        drag_fold(angle0, moves, dim) == wrap_spec(angle0 + drag_sum(moves, dim)),
    decreases moves.len(),
{
    if moves.len() == 0 {
        lemma_small_mod(angle0 as nat, TURN as nat);
    } else {
        lemma_drag_accumulates(angle0, moves.drop_last(), dim);
        let s: int = angle0 + drag_sum(moves.drop_last(), dim);
        let v: int = vel_of(moves.last() as int, dim);
        lemma_add_mod_noop(s, v, TURN as int);
        lemma_add_mod_noop_right(s % (TURN as int), v, TURN as int);
    }
}

/// The velocity left after `n` coasting ticks, each one an
/// amortization step.
pub open spec fn decay_iter(v: int, n: nat) -> int
    decreases n,
{
    if n == 0 {
        v
    } else {
        decay_spec(decay_iter(v, (n - 1) as nat))
    }
}

/// The total angle advance over `n` coasting ticks: tick `k` advances
/// the angle by the `k`-times-decayed velocity.
pub open spec fn coast_sum(v: int, n: nat) -> int
    decreases n,
{
    if n == 0 {
        0
    } else {
        coast_sum(v, (n - 1) as nat) + decay_iter(v, n)
    }
}

/// The angle reached from `angle0` after `n` coasting ticks with
/// starting velocity `v`, wrapping at each tick exactly as
/// [`InteractionState::tick`] does while not dragging.
pub open spec fn coast_fold(angle0: int, v: int, n: nat) -> int
    decreases n,
{
    if n == 0 {
        angle0
    } else {
        wrap_spec(coast_fold(angle0, v, (n - 1) as nat) + decay_iter(v, n))
    }
}

/// Law: one amortization step never grows the velocity magnitude and
/// never flips its sign.
pub proof fn lemma_decay_magnitude(v: int)
    ensures
        v >= 0 ==> 0 <= decay_spec(v) <= v,
        v < 0 ==> v <= decay_spec(v) <= 0,
{
    if v >= 0 {
        lemma_div_pos_is_pos(v * 19, 20);
        lemma_div_is_ordered(v * 19, v * 20, 20);
        lemma_div_multiples_vanish(v, 20);
        assert(v * 20 == 20 * v);
    } else {
        let u: int = -v;
        lemma_div_pos_is_pos(u * 19, 20);
        lemma_div_is_ordered(u * 19, u * 20, 20);
        lemma_div_multiples_vanish(u, 20);
        assert(u * 20 == 20 * u);
    }
}

/// Law: the velocity left after `n` coasting ticks never exceeds the
/// starting velocity in magnitude and never flips its sign.
pub proof fn lemma_decay_iter_magnitude(v: int, n: nat)
    ensures
        v >= 0 ==> 0 <= decay_iter(v, n) <= v,
        v < 0 ==> v <= decay_iter(v, n) <= 0,
    decreases n,
{
    if n > 0 {
        lemma_decay_iter_magnitude(v, (n - 1) as nat);
        lemma_decay_magnitude(decay_iter(v, (n - 1) as nat));
    }
}

/// Law: `n` coasting ticks shrink a non-negative velocity at least
/// geometrically: the velocity left is at most `v * (19/20)^n`, stated
/// over integers as `decay_iter(v, n) * 20^n <= v * 19^n`.
pub proof fn lemma_decay_iter_geometric(v: int, n: nat)
    requires
        v >= 0,
    ensures
        decay_iter(v, n) * pow(20, n) <= v * pow(19, n),
    decreases n,
{
    if n == 0 {
        lemma_pow0(20);
        lemma_pow0(19);
    } else {
        let m: nat = (n - 1) as nat;
        let u: int = decay_iter(v, m);
        let d: int = decay_spec(u);
        lemma_decay_iter_magnitude(v, m);
        lemma_decay_iter_geometric(v, m);
        lemma_fundamental_div_mod(u * 19, 20);
        lemma_mod_bound(u * 19, 20);
        assert(20 * d <= 19 * u);
        let p20: int = pow(20, m);
        let p19: int = pow(19, m);
        lemma_pow_positive(20, m);
        lemma_pow_positive(19, m);
        lemma_pow1(20);
        lemma_pow1(19);
        lemma_pow_adds(20, 1, m);
        lemma_pow_adds(19, 1, m);
        assert(pow(20, n) == 20 * p20);
        assert(pow(19, n) == 19 * p19);
        lemma_mul_is_associative(d, 20, p20);
        lemma_mul_is_commutative(d, 20);
        lemma_mul_inequality(20 * d, 19 * u, p20);
        lemma_mul_is_associative(19, u, p20);
        lemma_mul_inequality(u * p20, v * p19, 19);
        lemma_mul_is_commutative(u * p20, 19);
        lemma_mul_is_commutative(v * p19, 19);
        lemma_mul_is_associative(19, v, p19);
        lemma_mul_is_commutative(19, v);
        lemma_mul_is_associative(v, 19, p19);
    }
}

/// Law: after `n` coasting ticks the angle has advanced by exactly the
/// sum of the successively decayed velocities, up to whole turns.
pub proof fn lemma_coasting_accumulates(angle0: int, v: int, n: nat)
    requires
        0 <= angle0 < TURN,
    ensures
        coast_fold(angle0, v, n) == wrap_spec(angle0 + coast_sum(v, n)),
    decreases n,
{
    if n == 0 {
        lemma_small_mod(angle0 as nat, TURN as nat);
    } else {
        lemma_coasting_accumulates(angle0, v, (n - 1) as nat);
        let s: int = angle0 + coast_sum(v, (n - 1) as nat);
        let d: int = decay_iter(v, n);
        lemma_add_mod_noop(s, d, TURN as int);
        lemma_add_mod_noop_right(s % (TURN as int), d, TURN as int);
    }
}

} // verus!
