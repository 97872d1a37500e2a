//! Points of the authoring grid and the exact world positions they are snapped from.

use vstd::prelude::*;

verus! {

/// Largest magnitude of a [`WorldPoint`] numerator: 2^60.
pub const NUMERATOR_LIMIT: i64 = 0x1000_0000_0000_0000;

/// Largest [`WorldPoint`] denominator: 2^31.
pub const DENOMINATOR_LIMIT: i64 = 0x8000_0000;

/// A position on the snapping grid. Both coordinates count half world units,
/// so `GridPoint { x: 3, y: -4 }` is the world position (1.5, -2).
#[derive(Clone, Copy, Debug, PartialEq, Eq, Hash, Structural)]
pub struct GridPoint {
    pub x: i64,
    pub y: i64,
}

/// Three grid points that span one fragment of a triangulated outline.
#[derive(Clone, Copy, Debug, PartialEq, Eq, Hash, Structural)]
pub struct Triangle {
    pub a: GridPoint,
    pub b: GridPoint,
    pub c: GridPoint,
}

/// An exact world position: the point (`x / den`, `y / den`).
///
/// The denominator is at least 1 and at most [`DENOMINATOR_LIMIT`], and neither
/// numerator exceeds [`NUMERATOR_LIMIT`] in magnitude.
#[derive(Clone, Copy, Debug, PartialEq, Eq, Hash, Structural)]
pub struct WorldPoint {
    x: i64,
    y: i64,
    den: i64,
}

/// The world position (`x / den`, `y / den`) as a mathematical value.
pub struct Position {
    pub x: int,
    pub y: int,
    pub den: int,
}

/// The number of half units nearest to `num / den`, for `den > 0`. A value
/// exactly between two half units goes to the one farther from zero.
pub open spec fn nearest_half_step(num: int, den: int) -> int {
    if num >= 0 {
        (4 * num + den) / (2 * den)
    } else {
        -((den - 4 * num) / (2 * den))
    }
}

impl Position {
    /// Whether a [`WorldPoint`] can hold the position.
    pub open spec fn representable(self) -> bool {
        &&& 1 <= self.den <= DENOMINATOR_LIMIT
        &&& -NUMERATOR_LIMIT <= self.x <= NUMERATOR_LIMIT
        &&& -NUMERATOR_LIMIT <= self.y <= NUMERATOR_LIMIT
    }

    /// The grid point that the position snaps to.
    pub open spec fn snapped(self) -> GridPoint {
        GridPoint {
            x: nearest_half_step(self.x, self.den) as i64,
            y: nearest_half_step(self.y, self.den) as i64,
        }
    }
}

impl GridPoint {
    pub fn new(x: i64, y: i64) -> (p: GridPoint)
        ensures
            p == (GridPoint { x, y }),
    {
        GridPoint { x, y }
    }

    /// Where the grid point lies in the world: its coordinates over 2.
    pub open spec fn position(self) -> Position {
        Position { x: self.x as int, y: self.y as int, den: 2 }
    }
}

impl View for WorldPoint {
    type V = Position;

    closed spec fn view(&self) -> Position {
        Position { x: self.x as int, y: self.y as int, den: self.den as int }
    }
}

impl WorldPoint {
    #[verifier::type_invariant]
    spec fn well_formed(self) -> bool {
        self@.representable()
    }

    /// The position (`x / den`, `y / den`), or `None` where `den` is not
    /// positive or one of the three is beyond its limit.
    pub fn new(x: i64, y: i64, den: i64) -> (p: Option<WorldPoint>)
        ensures
            p is Some <==> (Position { x: x as int, y: y as int, den: den as int }).representable(),
            p matches Some(w) ==> w@ == (Position { x: x as int, y: y as int, den: den as int }),
    {
        if 1 <= den && den <= DENOMINATOR_LIMIT && -NUMERATOR_LIMIT <= x && x <= NUMERATOR_LIMIT
            && -NUMERATOR_LIMIT <= y && y <= NUMERATOR_LIMIT {
            Some(WorldPoint { x, y, den })
        } else {
            None
        }
    }

    /// The position (`x / den`, `y / den`) of values within the limits.
    pub(crate) fn within_limits(x: i64, y: i64, den: i64) -> (p: WorldPoint)
        requires
            (Position { x: x as int, y: y as int, den: den as int }).representable(),
        ensures
            p@ == (Position { x: x as int, y: y as int, den: den as int }),
    {
        WorldPoint { x, y, den }
    }

    /// The world origin.
    pub fn origin() -> (p: WorldPoint)
        ensures
            p@ == (Position { x: 0, y: 0, den: 1 }),
    {
        WorldPoint { x: 0, y: 0, den: 1 }
    }

    /// The exact position of a grid point, or `None` where a coordinate of
    /// `g` is beyond [`NUMERATOR_LIMIT`].
    pub fn from_grid(g: GridPoint) -> (p: Option<WorldPoint>)
        ensures
            p is Some <==> g.position().representable(),
            p matches Some(w) ==> w@ == g.position(),
    {
        WorldPoint::new(g.x, g.y, 2)
    }

    /// Numerator of the horizontal coordinate.
    pub fn x(&self) -> (n: i64)
        ensures
            n == self@.x,
    {
        self.x
    }

    /// Numerator of the vertical coordinate.
    pub fn y(&self) -> (n: i64)
        ensures
            n == self@.y,
    {
        self.y
    }

    /// The denominator that both coordinates share.
    pub fn den(&self) -> (d: i64)
        ensures
            d == self@.den,
            self@.representable(),
    {
        proof {
            use_type_invariant(self);
        }
        self.den
    }

    /// Snaps the position to the half-unit grid: doubles each coordinate,
    /// rounds it to the nearest integer (halves away from zero) and counts
    /// the result in half units.
    pub fn snap(&self) -> (g: GridPoint)
        ensures
            g == self@.snapped(),
            g.x == nearest_half_step(self@.x, self@.den),
            g.y == nearest_half_step(self@.y, self@.den),
    {
        proof {
            use_type_invariant(self);
        }
        GridPoint {
            x: round_to_half_steps(self.x, self.den),
            y: round_to_half_steps(self.y, self.den),
        }
    }
}

fn round_to_half_steps(num: i64, den: i64) -> (h: i64)
    requires
        1 <= den <= DENOMINATOR_LIMIT,
        -NUMERATOR_LIMIT <= num <= NUMERATOR_LIMIT,
    ensures
        h == nearest_half_step(num as int, den as int),
{
    proof {
        nearest_half_step_is_bounded(num as int, den as int);
    }
    if num >= 0 {
        (4 * num + den) / (2 * den)
    } else {
        let q: i64 = (den - 4 * num) / (2 * den);
        -q
    }
}

/// Two world points at the same position, written with the same
/// denominator, are the same world point.
pub proof fn world_points_agree(a: WorldPoint, b: WorldPoint)
    requires
        a@ == b@,
    ensures
        a == b,
{
}

/// The snapped coordinate lies within a quarter unit of `num / den`: four
/// times the distance, scaled by `den`, is at most `den`. Where two half
/// units are equally near, the result is the one farther from zero.
pub proof fn nearest_half_step_is_nearest(num: int, den: int)
    requires
        den >= 1,
    ensures
        num >= 0 ==> -den <= 4 * num - 2 * den * nearest_half_step(num, den) < den,
        num < 0 ==> -den < 4 * num - 2 * den * nearest_half_step(num, den) <= den,
{
    if num >= 0 {
        let t = 4 * num + den;
        vstd::arithmetic::div_mod::lemma_fundamental_div_mod(t, 2 * den);
        vstd::arithmetic::div_mod::lemma_mod_bound(t, 2 * den);
        assert((2 * den) * (t / (2 * den)) == 2 * den * (t / (2 * den))) by (nonlinear_arith);
    } else {
        let t = den - 4 * num;
        vstd::arithmetic::div_mod::lemma_fundamental_div_mod(t, 2 * den);
        vstd::arithmetic::div_mod::lemma_mod_bound(t, 2 * den);
        let q = t / (2 * den);
        assert(2 * den * (-q) == -((2 * den) * q)) by (nonlinear_arith);
    }
}

/// Snapping keeps the sign of a coordinate and at most doubles its
/// numerator, give or take one half unit.
pub proof fn nearest_half_step_is_bounded(num: int, den: int)
    requires
        den >= 1,
    ensures
        num >= 0 ==> 0 <= nearest_half_step(num, den) <= 2 * num + 1,
        num < 0 ==> 2 * num - 1 <= nearest_half_step(num, den) <= 0,
{
    nearest_half_step_is_nearest(num, den);
    let h = nearest_half_step(num, den);
    if num >= 0 {
        assert(h >= 0 && h <= 2 * num + 1) by (nonlinear_arith)
            requires
                den >= 1,
                num >= 0,
                -den <= 4 * num - 2 * den * h < den,
        ;
    } else {
        assert(h <= 0 && h >= 2 * num - 1) by (nonlinear_arith)
            requires
                den >= 1,
                num < 0,
                -den < 4 * num - 2 * den * h <= den,
        ;
    }
}

/// A coordinate that already counts half units snaps to itself.
pub proof fn half_step_snaps_to_itself(h: int)
    ensures
        nearest_half_step(h, 2) == h,
{
    if h >= 0 {
        assert((4 * h + 2) / 4 == h);
    } else {
        assert((2 - 4 * h) / 4 == -h);
    }
}

/// Snapping is idempotent: the grid point that a position snaps to snaps to
/// itself.
pub proof fn snap_is_idempotent(p: Position)
    ensures
        p.snapped().position().snapped() == p.snapped(),
{
    let g = p.snapped();
    half_step_snaps_to_itself(g.x as int);
    half_step_snaps_to_itself(g.y as int);
}

} // verus!
