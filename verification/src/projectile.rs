//! Projectiles: a frozen heading, straight-line travel at a fixed stride per
//! tick, and expiry after a fixed lifetime.

use vstd::prelude::*;
use crate::space::{clamp_coord, clamp_to_coord, Vec2};
use crate::timing::Timer;

verus! {

/// Length of the stride a projectile makes on every tick: three world units.
pub const STRIDE: u64 = 3_000;

/// How long a projectile lives, in milliseconds.
pub const PROJECTILE_LIFETIME_MS: u64 = 4_000;

/// Largest magnitude of a heading's component.
pub const HEADING_LIMIT: i64 = 1_099_511_627_776;

/// `r` is the integer part of the square root of `n`.
pub open spec fn is_floor_sqrt(n: nat, r: nat) -> bool {
    r * r <= n < (r + 1) * (r + 1)
}

/// The integer part of the square root of `n`.
pub open spec fn floor_sqrt(n: nat) -> nat {
    choose|r: nat| is_floor_sqrt(n, r)
}

/// A number has only one integer square root.
pub proof fn lemma_floor_sqrt_unique(n: nat, r1: nat, r2: nat)
    requires
        is_floor_sqrt(n, r1),
        is_floor_sqrt(n, r2),
    ensures
        r1 == r2,
{
    if r1 < r2 {
        assert((r1 + 1) * (r1 + 1) <= r2 * r2) by (nonlinear_arith)
            requires
                r1 + 1 <= r2,
        ;
    } else if r2 < r1 {
        assert((r2 + 1) * (r2 + 1) <= r1 * r1) by (nonlinear_arith)
            requires
                r2 + 1 <= r1,
        ;
    }
}

/// The integer square root never exceeds a bound whose square covers `n`.
pub proof fn lemma_floor_sqrt_bounded(n: nat, r: nat, bound: nat)
    requires
        is_floor_sqrt(n, r),
        n <= bound * bound,
    ensures
        r <= bound,
{
    if r > bound {
        assert((bound + 1) * (bound + 1) <= r * r) by (nonlinear_arith)
            requires
                bound + 1 <= r,
        ;
        assert(bound * bound < (bound + 1) * (bound + 1)) by (nonlinear_arith);
    }
}

/// Computes the integer part of the square root of `n` by bisection.
pub fn isqrt(n: u128) -> (r: u64)
    ensures
        is_floor_sqrt(n as nat, r as nat),
        r == floor_sqrt(n as nat),
{
    let mut lo: u128 = 0;
    let mut hi: u128 = 18_446_744_073_709_551_616u128;
    assert(18_446_744_073_709_551_616int * 18_446_744_073_709_551_616int > u128::MAX);
    while hi - lo > 1
        invariant
            lo < hi <= 18_446_744_073_709_551_616u128,
            lo * lo <= n < hi * hi,
        decreases hi - lo,
    {
        let mid: u128 = lo + (hi - lo) / 2;
        assert(mid * mid <= 18_446_744_073_709_551_615int * 18_446_744_073_709_551_615int)
            by (nonlinear_arith)
            requires
                0 <= mid <= 18_446_744_073_709_551_615int,
        ;
        assert(18_446_744_073_709_551_615int * 18_446_744_073_709_551_615int <= u128::MAX);
        if mid * mid <= n {
            lo = mid;
        } else {
            hi = mid;
        }
    }
    let r: u64 = lo as u64;
    proof {
        assert(hi == lo + 1);
        assert(is_floor_sqrt(n as nat, r as nat));
        lemma_floor_sqrt_unique(n as nat, r as nat, floor_sqrt(n as nat));
    }
    r
}

/// The direction a projectile was aimed along when it was launched. It is
/// fixed at launch and never changes; the projectile travels against it.
#[derive(Clone, Copy, Debug, PartialEq, Eq, Structural)]
pub struct Heading {
    pub dx: i64,
    pub dy: i64,
}

impl Heading {
    /// Both components are within the limit, so that the stride can be
    /// computed exactly in machine integers.
    pub open spec fn wf(self) -> bool {
        &&& -HEADING_LIMIT <= self.dx <= HEADING_LIMIT
        &&& -HEADING_LIMIT <= self.dy <= HEADING_LIMIT
    }

    /// The squared length of the heading.
    pub open spec fn norm_sq(self) -> nat {
        (self.dx * self.dx + self.dy * self.dy) as nat
    }

    /// A heading with the given components, if they are within the limit.
    pub fn new(dx: i64, dy: i64) -> (h: Option<Heading>)
        ensures
            h.is_some() <==> (Heading { dx, dy }).wf(),
            h.is_some() ==> h.unwrap() == (Heading { dx, dy }),
    {
        if -HEADING_LIMIT <= dx && dx <= HEADING_LIMIT && -HEADING_LIMIT <= dy && dy
            <= HEADING_LIMIT {
            Some(Heading { dx, dy })
        } else {
            None
        }
    }
}

/// Magnitude of one component of the stride: the integer part of
/// `STRIDE * |d| / sqrt(norm_sq)`.
pub open spec fn stride_magnitude(d: int, norm_sq: nat) -> nat
    recommends
        norm_sq > 0,
{
    floor_sqrt(((STRIDE * STRIDE * d * d) / (norm_sq as int)) as nat)
}

/// One component of the stride, signed like the heading's component `d`.
/// A heading of length zero gives no motion.
pub open spec fn stride_component(d: int, norm_sq: nat) -> int {
    if norm_sq == 0 {
        0
    } else if d >= 0 {
        stride_magnitude(d, norm_sq) as int
    } else {
        -(stride_magnitude(d, norm_sq) as int)
    }
}

/// The horizontal part of the stride along `h`.
pub open spec fn stride_x(h: Heading) -> int {
    stride_component(h.dx as int, h.norm_sq())
}

/// The vertical part of the stride along `h`.
pub open spec fn stride_y(h: Heading) -> int {
    stride_component(h.dy as int, h.norm_sq())
}

fn magnitude(d: i64) -> (m: u128)
    requires
        -HEADING_LIMIT <= d <= HEADING_LIMIT,
    ensures
        m == if d >= 0 { d as int } else { -d },
        m <= HEADING_LIMIT,
        m * m == d * d,
{
    let m: u128 = if d >= 0 {
        d as u128
    } else {
        (-d) as u128
    };
    assert(m * m == d * d) by (nonlinear_arith)
        requires
            m == d || m == -d,
    ;
    m
}

fn stride_part(m: u128, q: u128) -> (part: u64)
    requires
        m <= HEADING_LIMIT,
        m * m <= q,
        q > 0,
    ensures
        part == floor_sqrt(((STRIDE * STRIDE * m * m) / (q as int)) as nat),
        part <= STRIDE,
{
    assert(m * m <= HEADING_LIMIT * HEADING_LIMIT) by (nonlinear_arith)
        requires
            0 <= m <= HEADING_LIMIT,
    ;
    assert(HEADING_LIMIT * HEADING_LIMIT == 1_208_925_819_614_629_174_706_176int);
    let square: u128 = m * m;
    let scaled: u128 = 9_000_000u128 * square;
    let ratio: u128 = scaled / q;
    let part: u64 = isqrt(ratio);
    proof {
        assert(scaled == STRIDE * STRIDE * m * m) by (nonlinear_arith)
            requires
                scaled == 9_000_000 * square,
                square == m * m,
                STRIDE == 3_000,
        ;
        assert(scaled <= 9_000_000 * q) by (nonlinear_arith)
            requires
                scaled == 9_000_000 * square,
                square <= q,
        ;
        assert(ratio <= 9_000_000) by (nonlinear_arith)
            requires
                ratio == scaled as int / q as int,
                scaled <= 9_000_000 * q,
                q > 0,
        ;
        lemma_floor_sqrt_bounded(ratio as nat, part as nat, 3_000);
    }
    part
}

/// The stride along `h`: `STRIDE` steps of length in the direction of `h`,
/// each component rounded toward zero.
pub fn stride_along(h: Heading) -> (s: Vec2)
    requires
        h.wf(),
    ensures
        s.x == stride_x(h),
        s.y == stride_y(h),
        -STRIDE <= s.x <= STRIDE,
        -STRIDE <= s.y <= STRIDE,
{
    let ax: u128 = magnitude(h.dx);
    let ay: u128 = magnitude(h.dy);
    assert(ax * ax <= HEADING_LIMIT * HEADING_LIMIT) by (nonlinear_arith)
        requires
            0 <= ax <= HEADING_LIMIT,
    ;
    assert(ay * ay <= HEADING_LIMIT * HEADING_LIMIT) by (nonlinear_arith)
        requires
            0 <= ay <= HEADING_LIMIT,
    ;
    assert(HEADING_LIMIT * HEADING_LIMIT == 1_208_925_819_614_629_174_706_176int);
    let q: u128 = ax * ax + ay * ay;
    assert(q == h.norm_sq());
    if q == 0 {
        return Vec2 { x: 0, y: 0 };
    }
    assert(ay * ay >= 0) by (nonlinear_arith);
    assert(ax * ax >= 0) by (nonlinear_arith);
    let mx: u64 = stride_part(ax, q);
    let my: u64 = stride_part(ay, q);
    assert(STRIDE * STRIDE * ax * ax == STRIDE * STRIDE * h.dx * h.dx) by (nonlinear_arith)
        requires
            ax * ax == h.dx * h.dx,
    ;
    assert(STRIDE * STRIDE * ay * ay == STRIDE * STRIDE * h.dy * h.dy) by (nonlinear_arith)
        requires
            ay * ay == h.dy * h.dy,
    ;
    let sx: i32 = if h.dx >= 0 {
        mx as i32
    } else {
        -(mx as i32)
    };
    let sy: i32 = if h.dy >= 0 {
        my as i32
    } else {
        -(my as i32)
    };
    Vec2 { x: sx, y: sy }
}

/// A projectile in flight.
#[derive(Clone, Copy, Debug, PartialEq, Eq, Structural)]
pub struct Projectile {
    pub position: Vec2,
    /// Frozen at launch.
    pub heading: Heading,
    /// Opens at launch and lasts the projectile's lifetime.
    pub timer: Timer,
}

impl Projectile {
    pub open spec fn wf(self) -> bool {
        self.heading.wf()
    }

    /// The projectile launched from `position` at `now_ms`.
    pub open spec fn launched(position: Vec2, heading: Heading, now_ms: u64) -> Projectile {
        Projectile {
            position,
            heading,
            timer: Timer { duration_ms: PROJECTILE_LIFETIME_MS, started_ms: now_ms },
        }
    }

    pub fn launch(position: Vec2, heading: Heading, now_ms: u64) -> (p: Projectile)
        requires
            heading.wf(),
        ensures
            p == Projectile::launched(position, heading, now_ms),
            p.wf(),
    {
        Projectile { position, heading, timer: Timer::start(PROJECTILE_LIFETIME_MS, now_ms) }
    }

    /// The projectile one tick later: one stride against its heading, stopping
    /// at the edge of the coordinate range. Heading and timer stay as they are.
    pub open spec fn moved(self) -> Projectile {
        Projectile {
            position: Vec2 {
                x: clamp_coord(self.position.x - stride_x(self.heading)) as i32,
                y: clamp_coord(self.position.y - stride_y(self.heading)) as i32,
            },
            heading: self.heading,
            timer: self.timer,
        }
    }

    /// The projectile's lifetime is over at `now_ms`.
    pub open spec fn spent_at(self, now_ms: u64) -> bool {
        self.timer.expired_at(now_ms)
    }

    /// What a tick at `now_ms` leaves of the projectile: nothing once its
    /// lifetime is over, else the projectile one stride further.
    pub open spec fn after_tick(self, now_ms: u64) -> Option<Projectile> {
        if self.spent_at(now_ms) {
            None
        } else {
            Some(self.moved())
        }
    }

    /// Moves the projectile by one stride.
    pub fn advance(&mut self)
        requires
            old(self).wf(),
        ensures
            *final(self) == old(self).moved(),
            final(self).wf(),
    {
        let s: Vec2 = stride_along(self.heading);
        let x: i64 = self.position.x as i64 - s.x as i64;
        let y: i64 = self.position.y as i64 - s.y as i64;
        self.position = Vec2 { x: clamp_to_coord(x), y: clamp_to_coord(y) };
    }

    pub fn spent(&self, now_ms: u64) -> (done: bool)
        ensures
            done == self.spent_at(now_ms),
    {
        self.timer.expired(now_ms)
    }
}

/// Advances every projectile by one tick at `now_ms`: those whose lifetime is
/// over are removed, whether or not they hit anything; the others make one
/// stride and keep their order.
pub fn advance_projectiles(projectiles: &mut Vec<Projectile>, now_ms: u64)
    requires
        forall|i: int| 0 <= i < old(projectiles).len() ==> (#[trigger] old(projectiles)[i]).wf(),
    ensures
        final(projectiles)@ == old(projectiles)@.filter_map(
            |p: Projectile| p.after_tick(now_ms),
        ),
        forall|i: int|
            0 <= i < final(projectiles).len() ==> (#[trigger] final(projectiles)[i]).wf(),
{
    let ghost tick = |p: Projectile| p.after_tick(now_ms);
    let mut kept: Vec<Projectile> = Vec::new();
    let mut i: usize = 0;
    while i < projectiles.len()
        invariant
            0 <= i <= projectiles.len(),
            *projectiles == *old(projectiles),
            forall|k: int| 0 <= k < projectiles.len() ==> (#[trigger] projectiles[k]).wf(),
            tick == |p: Projectile| p.after_tick(now_ms),
            kept@ == projectiles@.take(i as int).filter_map(tick),
            forall|k: int| 0 <= k < kept.len() ==> (#[trigger] kept[k]).wf(),
        decreases projectiles.len() - i,
    {
        let mut p: Projectile = projectiles[i];
        proof {
            projectiles@.lemma_filter_map_take_succ(tick, i as int);
        }
        if !p.spent(now_ms) {
            p.advance();
            kept.push(p);
        }
        i = i + 1;
    }
    proof {
        assert(projectiles@.take(i as int) == projectiles@);
    }
    *projectiles = kept;
}

/// Each component of the stride is exact to the coordinate step: it is the
/// largest whole number whose share of the heading's length does not exceed
/// the true component.
pub proof fn lemma_stride_exact(d: int, norm_sq: nat)
    requires
        norm_sq > 0,
    ensures
        ({
            let m = stride_magnitude(d, norm_sq);
            m * m * norm_sq <= STRIDE * STRIDE * d * d < (m + 1) * (m + 1) * norm_sq
        }),
{
    let total: int = STRIDE * STRIDE * d * d;
    assert(total >= 0) by (nonlinear_arith)
        requires
            total == STRIDE * STRIDE * d * d,
    ;
    let q: int = norm_sq as int;
    let ratio: int = total / q;
    assert(ratio >= 0 && ratio * q <= total < (ratio + 1) * q) by (nonlinear_arith)
        requires
            ratio == total / q,
            q > 0,
            total >= 0,
    ;
    lemma_floor_sqrt_exists(ratio as nat);
    let m = stride_magnitude(d, norm_sq);
    assert(is_floor_sqrt(ratio as nat, m));
    assert(m * m * q <= total) by (nonlinear_arith)
        requires
            m * m <= ratio,
            ratio * q <= total,
            q > 0,
    ;
    assert(total < (m + 1) * (m + 1) * q) by (nonlinear_arith)
        requires
            ratio + 1 <= (m + 1) * (m + 1),
            total < (ratio + 1) * q,
            q > 0,
    ;
}

/// Every number has an integer square root.
pub proof fn lemma_floor_sqrt_exists(n: nat)
    ensures
        is_floor_sqrt(n, floor_sqrt(n)),
    decreases n,
{
    if n == 0 {
        assert((0nat + 1) * (0nat + 1) == 1) by (nonlinear_arith);
        assert(is_floor_sqrt(0, 0));
    } else {
        lemma_floor_sqrt_exists((n - 1) as nat);
        let r = floor_sqrt((n - 1) as nat);
        if n < (r + 1) * (r + 1) {
            assert(is_floor_sqrt(n, r));
        } else {
            assert((r + 2) * (r + 2) > (r + 1) * (r + 1)) by (nonlinear_arith);
            assert(is_floor_sqrt(n, r + 1));
        }
    }
}

/// A stride is never longer than `STRIDE`, and falls short of it by less than
/// one coordinate step in each component.
pub proof fn lemma_stride_length(h: Heading)
    requires
        h.norm_sq() > 0,
    ensures
        stride_x(h) * stride_x(h) + stride_y(h) * stride_y(h) <= STRIDE * STRIDE,
        (stride_magnitude(h.dx as int, h.norm_sq()) + 1) * (stride_magnitude(
            h.dx as int,
            h.norm_sq(),
        ) + 1) + (stride_magnitude(h.dy as int, h.norm_sq()) + 1) * (stride_magnitude(
            h.dy as int,
            h.norm_sq(),
        ) + 1) > STRIDE * STRIDE,
{
    let q = h.norm_sq();
    let mx = stride_magnitude(h.dx as int, q);
    let my = stride_magnitude(h.dy as int, q);
    lemma_stride_exact(h.dx as int, q);
    lemma_stride_exact(h.dy as int, q);
    let dx2: int = h.dx * h.dx;
    let dy2: int = h.dy * h.dy;
    assert(dx2 >= 0 && dy2 >= 0) by (nonlinear_arith)
        requires
            dx2 == h.dx * h.dx,
            dy2 == h.dy * h.dy,
    ;
    assert(dx2 + dy2 == q);
    let k: int = STRIDE * STRIDE;
    assert(mx * mx * q <= k * dx2) by (nonlinear_arith)
        requires
            mx * mx * q <= STRIDE * STRIDE * h.dx * h.dx,
            k == STRIDE * STRIDE,
            dx2 == h.dx * h.dx,
    ;
    assert(my * my * q <= k * dy2) by (nonlinear_arith)
        requires
            my * my * q <= STRIDE * STRIDE * h.dy * h.dy,
            k == STRIDE * STRIDE,
            dy2 == h.dy * h.dy,
    ;
    assert(k * dx2 < (mx + 1) * (mx + 1) * q) by (nonlinear_arith)
        requires
            STRIDE * STRIDE * h.dx * h.dx < (mx + 1) * (mx + 1) * q,
            k == STRIDE * STRIDE,
            dx2 == h.dx * h.dx,
    ;
    assert(k * dy2 < (my + 1) * (my + 1) * q) by (nonlinear_arith)
        requires
            STRIDE * STRIDE * h.dy * h.dy < (my + 1) * (my + 1) * q,
            k == STRIDE * STRIDE,
            dy2 == h.dy * h.dy,
    ;
    assert(mx * mx + my * my <= k) by (nonlinear_arith)
        requires
            mx * mx * q <= k * dx2,
            my * my * q <= k * dy2,
            dx2 + dy2 == q,
            q > 0,
    ;
    assert((mx + 1) * (mx + 1) + (my + 1) * (my + 1) > k) by (nonlinear_arith)
        requires
            k * dx2 < (mx + 1) * (mx + 1) * q,
            k * dy2 < (my + 1) * (my + 1) * q,
            dx2 + dy2 == q,
            q > 0,
    ;
    assert(stride_x(h) * stride_x(h) == mx * mx) by (nonlinear_arith)
        requires
            stride_x(h) == mx || stride_x(h) == -mx,
    ;
    assert(stride_y(h) * stride_y(h) == my * my) by (nonlinear_arith)
        requires
            stride_y(h) == my || stride_y(h) == -my,
    ;
}

/// A projectile travels against its heading: no stride takes it further along
/// a component of the heading, and its heading and timer never change.
pub proof fn lemma_travel_is_against_heading(p: Projectile)
    ensures
        p.heading.dx >= 0 ==> p.moved().position.x <= p.position.x,
        p.heading.dx <= 0 ==> p.moved().position.x >= p.position.x,
        p.heading.dy >= 0 ==> p.moved().position.y <= p.position.y,
        p.heading.dy <= 0 ==> p.moved().position.y >= p.position.y,
        p.moved().heading == p.heading,
        p.moved().timer == p.timer,
{
    let q = p.heading.norm_sq();
    if q > 0 {
        lemma_floor_sqrt_exists(0);
        let r = floor_sqrt(0);
        assert(r == 0) by (nonlinear_arith)
            requires
                r * r <= 0,
        ;
        assert((STRIDE * STRIDE * 0 * 0) / (q as int) == 0);
    }
}

} // verus!
