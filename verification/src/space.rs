//! Fixed-point plane geometry: points, boxes, and the classification of a
//! contact between a moving box and an obstacle.
//!
//! Every coordinate is an integer count of thousandths of a world unit, so
//! the whole simulation is exact and repeatable.

use vstd::prelude::*;

verus! {

/// Coordinate steps in one world unit.
pub const UNIT: i32 = 1000;

/// Half the width of a fighter's box.
pub const MOVER_HALF_WIDTH: i64 = 32_000;

/// Half the height of a fighter's box.
pub const MOVER_HALF_HEIGHT: i64 = 64_000;

/// How far below the fighter's position the centre of its box sits.
pub const MOVER_DROP: i64 = 15_000;

/// Half the width of the box of solid ground.
pub const SOLID_HALF_WIDTH: u32 = 350_000;

/// Half the height of the box of solid ground.
pub const SOLID_HALF_HEIGHT: u32 = 25_000;

/// Half the side of the square box of a projectile or of the melee weapon.
pub const SMALL_HALF_SIDE: u32 = 16_000;

/// A point or a displacement in the plane.
#[derive(Clone, Copy, Debug, PartialEq, Eq, Structural)]
pub struct Vec2 {
    pub x: i32,
    pub y: i32,
}

/// The coordinate nearest to `v`.
pub open spec fn clamp_coord(v: int) -> int {
    if v < i32::MIN {
        i32::MIN as int
    } else if v > i32::MAX {
        i32::MAX as int
    } else {
        v
    }
}

/// Brings a wide intermediate result back into the coordinate range, stopping
/// at the edge of the range instead of wrapping round.
pub fn clamp_to_coord(v: i64) -> (c: i32)
    ensures
        c == clamp_coord(v as int),
{
    if v < -2_147_483_648i64 {
        -2_147_483_648i32
    } else if v > 2_147_483_647i64 {
        2_147_483_647i32
    } else {
        v as i32
    }
}

/// The quotient of `v` by a positive `d`, rounded toward zero.
pub open spec fn div_toward_zero(v: int, d: int) -> int {
    if v >= 0 {
        v / d
    } else {
        -((-v) / d)
    }
}

pub fn divide_toward_zero(v: i64, d: i64) -> (q: i64)
    requires
        d > 0,
    ensures
        q == div_toward_zero(v as int, d as int),
{
    v / d
}

/// An axis-aligned box given by its four edges. A box whose edges cross is
/// empty and overlaps nothing that matters; no function here needs the edges
/// to be ordered.
#[derive(Clone, Copy, Debug, PartialEq, Eq, Structural)]
pub struct Rect {
    pub left: i64,
    pub right: i64,
    pub bottom: i64,
    pub top: i64,
}

impl Rect {
    /// The box with the given centre and half extents.
    pub open spec fn centered_at(center: Vec2, half_width: u32, half_height: u32) -> Rect {
        Rect {
            left: (center.x - half_width) as i64,
            right: (center.x + half_width) as i64,
            bottom: (center.y - half_height) as i64,
            top: (center.y + half_height) as i64,
        }
    }

    pub fn centered(center: Vec2, half_width: u32, half_height: u32) -> (r: Rect)
        ensures
            r == Rect::centered_at(center, half_width, half_height),
            r.left == center.x - half_width,
            r.right == center.x + half_width,
            r.bottom == center.y - half_height,
            r.top == center.y + half_height,
    {
        let cx: i64 = center.x as i64;
        let cy: i64 = center.y as i64;
        let hw: i64 = half_width as i64;
        let hh: i64 = half_height as i64;
        Rect { left: cx - hw, right: cx + hw, bottom: cy - hh, top: cy + hh }
    }

    /// The interiors of the two boxes share a point.
    pub open spec fn overlaps(self, other: Rect) -> bool {
        &&& self.left < other.right
        &&& self.right > other.left
        &&& self.bottom < other.top
        &&& self.top > other.bottom
    }
}

/// The side of an obstacle that a mover is in contact with.
#[derive(Clone, Copy, Debug, PartialEq, Eq, Structural)]
pub enum Side {
    Left,
    Right,
    Top,
    Bottom,
}

/// The horizontal side of `b` that `a` straddles, if it straddles exactly one.
pub open spec fn horizontal_side(a: Rect, b: Rect) -> Option<Side> {
    if a.left < b.left && a.right > b.left && a.right < b.right {
        Some(Side::Left)
    } else if a.left > b.left && a.left < b.right && a.right > b.right {
        Some(Side::Right)
    } else {
        None
    }
}

/// The vertical side of `b` that `a` straddles, if it straddles exactly one.
pub open spec fn vertical_side(a: Rect, b: Rect) -> Option<Side> {
    if a.bottom < b.bottom && a.top > b.bottom && a.top < b.top {
        Some(Side::Bottom)
    } else if a.bottom > b.bottom && a.bottom < b.top && a.top > b.top {
        Some(Side::Top)
    } else {
        None
    }
}

/// How far `a` reaches into `b` across the given side of `b`.
pub open spec fn penetration(a: Rect, b: Rect, side: Side) -> int {
    match side {
        Side::Left => a.right - b.left,
        Side::Right => b.right - a.left,
        Side::Bottom => a.top - b.bottom,
        Side::Top => b.top - a.bottom,
    }
}

/// The classified contact of mover `a` with obstacle `b`.
///
/// There is no contact unless the boxes overlap and `a` straddles an edge of
/// `b`. Where it straddles one horizontal and one vertical edge, the side
/// with the shallower penetration is the side of contact, the horizontal one
/// on a tie.
pub open spec fn contact_side(a: Rect, b: Rect) -> Option<Side> {
    if !a.overlaps(b) {
        None
    } else {
        match (horizontal_side(a, b), vertical_side(a, b)) {
            (Some(h), Some(v)) => if penetration(a, b, v) < penetration(a, b, h) {
                Some(v)
            } else {
                Some(h)
            },
            (Some(h), None) => Some(h),
            (None, Some(v)) => Some(v),
            (None, None) => None,
        }
    }
}

fn reach(far: i64, near: i64) -> (d: i128)
    ensures
        d == far - near,
{
    let f: i128 = far as i128;
    let n: i128 = near as i128;
    f - n
}

/// Tests mover `a` against obstacle `b` and classifies the contact.
pub fn collide(a: Rect, b: Rect) -> (hit: Option<Side>)
    ensures
        hit == contact_side(a, b),
        hit.is_some() ==> a.overlaps(b),
{
    if !(a.left < b.right && a.right > b.left && a.bottom < b.top && a.top > b.bottom) {
        return None;
    }
    let across: Option<(Side, i128)> = if a.left < b.left && a.right < b.right {
        Some((Side::Left, reach(a.right, b.left)))
    } else if a.left > b.left && a.right > b.right {
        Some((Side::Right, reach(b.right, a.left)))
    } else {
        None
    };
    let along: Option<(Side, i128)> = if a.bottom < b.bottom && a.top < b.top {
        Some((Side::Bottom, reach(a.top, b.bottom)))
    } else if a.bottom > b.bottom && a.top > b.top {
        Some((Side::Top, reach(b.top, a.bottom)))
    } else {
        None
    };
    match (across, along) {
        (Some((h, h_depth)), Some((v, v_depth))) => if v_depth < h_depth {
            Some(v)
        } else {
            Some(h)
        },
        (Some((h, _)), None) => Some(h),
        (None, Some((v, _))) => Some(v),
        (None, None) => None,
    }
}

/// A mover reported on top of an obstacle has its lower edge strictly inside
/// the obstacle's height and its upper edge above the obstacle.
pub proof fn lemma_top_contact_rests_above(a: Rect, b: Rect)
    requires
        contact_side(a, b) == Some(Side::Top),
    ensures
        b.bottom < a.bottom < b.top < a.top,
        a.overlaps(b),
{
}

/// Boxes that do not overlap are never in contact, and neither is a mover
/// that lies wholly inside the obstacle or wholly covers it.
pub proof fn lemma_no_edge_no_contact(a: Rect, b: Rect)
    requires
        !a.overlaps(b) || (b.left <= a.left && a.right <= b.right && b.bottom <= a.bottom && a.top
            <= b.top) || (a.left <= b.left && b.right <= a.right && a.bottom <= b.bottom && b.top
            <= a.top),
    ensures
        contact_side(a, b).is_none(),
{
}

/// The side that faces `side`.
pub open spec fn opposite(side: Side) -> Side {
    match side {
        Side::Left => Side::Right,
        Side::Right => Side::Left,
        Side::Top => Side::Bottom,
        Side::Bottom => Side::Top,
    }
}

/// Contact is mutual: if a first box touches a side of a second, the second
/// touches the facing side of the first, and if one has no contact with the
/// other, neither has the other with it.
pub proof fn lemma_contact_is_mutual(a: Rect, b: Rect)
    ensures
        contact_side(b, a) == match contact_side(a, b) {
            Some(side) => Some(opposite(side)),
            None => None,
        },
{
}

/// What kind of thing an obstacle is.
#[derive(Clone, Copy, Debug, PartialEq, Eq, Structural)]
pub enum ColliderTag {
    /// Static ground.
    Solid,
    /// A projectile in flight.
    Projectile,
    /// The hit-box of the melee weapon.
    MeleeHitbox,
}

/// Something a fighter can be in contact with.
#[derive(Clone, Copy, Debug, PartialEq, Eq, Structural)]
pub struct Obstacle {
    pub tag: ColliderTag,
    pub position: Vec2,
}

/// The box of a fighter standing at `position`.
pub open spec fn mover_rect(position: Vec2) -> Rect {
    Rect {
        left: (position.x - MOVER_HALF_WIDTH) as i64,
        right: (position.x + MOVER_HALF_WIDTH) as i64,
        bottom: (position.y - MOVER_DROP - MOVER_HALF_HEIGHT) as i64,
        top: (position.y - MOVER_DROP + MOVER_HALF_HEIGHT) as i64,
    }
}

pub fn mover_box(position: Vec2) -> (r: Rect)
    ensures
        r == mover_rect(position),
{
    let x: i64 = position.x as i64;
    let y: i64 = position.y as i64;
    Rect {
        left: x - MOVER_HALF_WIDTH,
        right: x + MOVER_HALF_WIDTH,
        bottom: y - MOVER_DROP - MOVER_HALF_HEIGHT,
        top: y - MOVER_DROP + MOVER_HALF_HEIGHT,
    }
}

/// The box of an obstacle: wide and flat for solid ground, a small square for
/// everything else.
pub open spec fn obstacle_rect(obstacle: Obstacle) -> Rect {
    if obstacle.tag == ColliderTag::Solid {
        Rect::centered_at(obstacle.position, SOLID_HALF_WIDTH, SOLID_HALF_HEIGHT)
    } else {
        Rect::centered_at(obstacle.position, SMALL_HALF_SIDE, SMALL_HALF_SIDE)
    }
}

pub fn obstacle_box(obstacle: Obstacle) -> (r: Rect)
    ensures
        r == obstacle_rect(obstacle),
{
    match obstacle.tag {
        ColliderTag::Solid => Rect::centered(
            obstacle.position,
            SOLID_HALF_WIDTH,
            SOLID_HALF_HEIGHT,
        ),
        _ => Rect::centered(obstacle.position, SMALL_HALF_SIDE, SMALL_HALF_SIDE),
    }
}

/// The fighter at `position` stands on top of this obstacle, which is solid.
pub open spec fn lands_on(position: Vec2, obstacle: Obstacle) -> bool {
    obstacle.tag == ColliderTag::Solid && contact_side(
        mover_rect(position),
        obstacle_rect(obstacle),
    ) == Some(Side::Top)
}

/// The fighter at `position` is in contact, on any side, with this obstacle,
/// which carries the tag `harm`.
pub open spec fn touched_by(position: Vec2, obstacle: Obstacle, harm: ColliderTag) -> bool {
    obstacle.tag == harm && contact_side(mover_rect(position), obstacle_rect(obstacle)).is_some()
}

/// The fighter stands on top of some solid obstacle of the list.
pub open spec fn landed_among(position: Vec2, obstacles: Seq<Obstacle>) -> bool {
    exists|i: int| 0 <= i < obstacles.len() && lands_on(position, #[trigger] obstacles[i])
}

/// The fighter touches some obstacle of the list that carries the tag `harm`.
pub open spec fn struck_among(position: Vec2, obstacles: Seq<Obstacle>, harm: ColliderTag) -> bool {
    exists|i: int| 0 <= i < obstacles.len() && touched_by(position, #[trigger] obstacles[i], harm)
}

/// What one pass over the obstacles found for one fighter.
#[derive(Clone, Copy, Debug, PartialEq, Eq, Structural)]
pub struct Contacts {
    /// The fighter stands on solid ground.
    pub landed: bool,
    /// The fighter touches something that harms it.
    pub struck: bool,
}

/// Tests the fighter at `position` against every obstacle. Only a contact on
/// top of a solid obstacle counts as a landing; a contact on any side of an
/// obstacle tagged `harm` counts as a strike.
pub fn scan_contacts(position: Vec2, obstacles: &Vec<Obstacle>, harm: ColliderTag) -> (found:
    Contacts)
    ensures
        found.landed == landed_among(position, obstacles@),
        found.struck == struck_among(position, obstacles@, harm),
{
    let mover: Rect = mover_box(position);
    let mut landed: bool = false;
    let mut struck: bool = false;
    let mut i: usize = 0;
    while i < obstacles.len()
        invariant
            0 <= i <= obstacles.len(),
            mover == mover_rect(position),
            landed == landed_among(position, obstacles@.take(i as int)),
            struck == struck_among(position, obstacles@.take(i as int), harm),
        decreases obstacles.len() - i,
    {
        let obstacle: Obstacle = obstacles[i];
        let hit: Option<Side> = collide(mover, obstacle_box(obstacle));
        let lands: bool = obstacle.tag == ColliderTag::Solid && hit == Some(Side::Top);
        let touches: bool = obstacle.tag == harm && hit.is_some();
        proof {
            let before = obstacles@.take(i as int);
            let after = obstacles@.take(i as int + 1);
            assert(after == before.push(obstacle));
            assert(lands == lands_on(position, obstacle));
            assert(touches == touched_by(position, obstacle, harm));
            if landed_among(position, before) {
                let k = choose|k: int| 0 <= k < before.len() && lands_on(position, before[k]);
                assert(lands_on(position, after[k]));
            }
            if struck_among(position, before, harm) {
                let k = choose|k: int|
                    0 <= k < before.len() && touched_by(position, before[k], harm);
                assert(touched_by(position, after[k], harm));
            }
            if lands {
                assert(lands_on(position, after[i as int]));
            }
            if touches {
                assert(touched_by(position, after[i as int], harm));
            }
            if landed_among(position, after) && !lands {
                let k = choose|k: int| 0 <= k < after.len() && lands_on(position, after[k]);
                assert(k < i);
                assert(lands_on(position, before[k]));
            }
            if struck_among(position, after, harm) && !touches {
                let k = choose|k: int| 0 <= k < after.len() && touched_by(position, after[k], harm);
                assert(k < i);
                assert(touched_by(position, before[k], harm));
            }
        }
        landed = landed || lands;
        struck = struck || touches;
        i = i + 1;
    }
    proof {
        assert(obstacles@.take(i as int) == obstacles@);
    }
    Contacts { landed, struck }
}

} // verus!
