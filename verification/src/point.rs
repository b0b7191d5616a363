use vstd::prelude::*;

verus! {

/// Number of sub-units that make up one canvas unit.
pub const SUBUNITS_PER_UNIT: i64 = 65536;

/// Largest distance, in sub-units, at which a press still picks a control
/// point: five canvas units.
pub const HIT_RADIUS: i64 = 327680;

/// Radius, in sub-units, of the marker drawn at each control point: two and a
/// half canvas units.
pub const MARKER_RADIUS: i64 = 163840;

/// Width, in sub-units, of the stroke of the refined curve: one canvas unit.
pub const STROKE_WIDTH: i64 = 65536;

/// A position on the canvas, in sub-units.
#[derive(Clone, Copy, Debug, PartialEq, Eq, Structural)]
pub struct Point {
    pub x: i64,
    pub y: i64,
}

/// Square of the Euclidean distance between two positions.
pub open spec fn distance_squared(a: Point, b: Point) -> int {
    (a.x - b.x) * (a.x - b.x) + (a.y - b.y) * (a.y - b.y)
}

/// Whether `p` lies within the hit radius of `at`, the border included.
pub open spec fn in_hit_radius(p: Point, at: Point) -> bool {
    distance_squared(p, at) <= HIT_RADIUS * HIT_RADIUS
}

/// The lowest index whose point lies within the hit radius of `at`, if any.
pub open spec fn first_hit(points: Seq<Point>, at: Point) -> Option<int> {
    if exists|i: int| 0 <= i < points.len() && in_hit_radius(#[trigger] points[i], at) {
        Some(choose|i: int| is_first_hit(points, at, i))
    } else {
        None
    }
}

/// `i` is in range, its point is within the hit radius, and no earlier point is.
pub open spec fn is_first_hit(points: Seq<Point>, at: Point, i: int) -> bool {
    &&& 0 <= i < points.len()
    &&& in_hit_radius(points[i], at)
    &&& forall|j: int| 0 <= j < i ==> !in_hit_radius(#[trigger] points[j], at)
}

proof fn lemma_square_beyond(d: int, r: int)
    requires
        0 <= r,
        d > r || d < -r,
    ensures
        d * d > r * r,
{
    assert(d * d > r * r) by (nonlinear_arith)
        requires
            0 <= r,
            d > r || d < -r,
    ;
}

proof fn lemma_square_within(d: int, r: int)
    requires
        -r <= d <= r,
    ensures
        0 <= d * d <= r * r,
{
    assert(0 <= d * d <= r * r) by (nonlinear_arith)
        requires
            -r <= d <= r,
    ;
}

impl Point {
    pub fn new(x: i64, y: i64) -> (p: Point)
        ensures
            p == (Point { x, y }),
    {
        Point { x, y }
    }
}

/// Decides the hit test exactly, without ever leaving 128-bit integers.
pub fn within_hit_radius(p: Point, at: Point) -> (hit: bool)
    ensures
        hit == in_hit_radius(p, at),
{
    let r: i128 = HIT_RADIUS as i128;
    let dx: i128 = p.x as i128 - at.x as i128;
    let dy: i128 = p.y as i128 - at.y as i128;
    proof {
        assert(0 <= dx * dx) by (nonlinear_arith);
        assert(0 <= dy * dy) by (nonlinear_arith);
    }
    if dx > r || dx < -r {
        proof {
            lemma_square_beyond(dx as int, r as int);
        }
        return false;
    }
    if dy > r || dy < -r {
        proof {
            lemma_square_beyond(dy as int, r as int);
        }
        return false;
    }
    proof {
        lemma_square_within(dx as int, r as int);
        lemma_square_within(dy as int, r as int);
        assert(r * r == 107374182400) by (nonlinear_arith)
            requires
                r == 327680,
        ;
    }
    dx * dx + dy * dy <= r * r
}

/// Finds the control point that a press at `at` picks: the first one in
/// sequence order that lies within the hit radius.
pub fn find_hit(points: &Vec<Point>, at: Point) -> (found: Option<usize>)
    ensures
        match found {
            Some(i) => is_first_hit(points@, at, i as int),
            None => forall|j: int| 0 <= j < points@.len() ==> !in_hit_radius(#[trigger] points@[j], at),
        },
        found matches Some(i) ==> first_hit(points@, at) == Some(i as int),
        found is None ==> first_hit(points@, at) is None,
{
    let mut i: usize = 0;
    while i < points.len()
        invariant
            i <= points@.len(),
            forall|j: int| 0 <= j < i ==> !in_hit_radius(#[trigger] points@[j], at),
        decreases points@.len() - i,
    {
        if within_hit_radius(points[i], at) {
            proof {
                lemma_first_hit_unique(points@, at, i as int);
            }
            return Some(i);
        }
        i += 1;
    }
    None
}

/// At most one index is the first hit, so `first_hit` names it.
pub proof fn lemma_first_hit_unique(points: Seq<Point>, at: Point, i: int)
    requires
        is_first_hit(points, at, i),
    ensures
        first_hit(points, at) == Some(i),
{
    let k = choose|k: int| is_first_hit(points, at, k);
    assert(is_first_hit(points, at, k));
    if k < i {
        assert(!in_hit_radius(points[k], at));
    }
    if i < k {
        assert(!in_hit_radius(points[i], at));
    }
}

/// Where `first_hit` names an index, that index is the first hit.
pub proof fn lemma_first_hit_in_range(points: Seq<Point>, at: Point)
    requires
        first_hit(points, at) is Some,
    ensures
        is_first_hit(points, at, first_hit(points, at)->Some_0),
{
    let i = choose|i: int| 0 <= i < points.len() && in_hit_radius(#[trigger] points[i], at);
    lemma_least_hit(points, at, i);
}

proof fn lemma_least_hit(points: Seq<Point>, at: Point, i: int)
    requires
        0 <= i < points.len(),
        in_hit_radius(points[i], at),
    ensures
        exists|k: int| is_first_hit(points, at, k),
    decreases i,
{
    if exists|j: int| 0 <= j < i && in_hit_radius(#[trigger] points[j], at) {
        let j = choose|j: int| 0 <= j < i && in_hit_radius(#[trigger] points[j], at);
        lemma_least_hit(points, at, j);
    } else {
        assert(is_first_hit(points, at, i));
    }
}

} // verus!
