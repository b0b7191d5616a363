use vstd::prelude::*;
use vstd::arithmetic::power2::{
    lemma2_to64, lemma_pow2_strictly_increases, lemma_pow2_unfold, pow2,
};
use crate::point::Point;

verus! {

/// Why a refinement was refused.
#[derive(Clone, Copy, Debug, PartialEq, Eq, Structural)]
pub enum RefineError {
    /// A pass was asked of fewer than two points.
    InvalidRefinementInput,
}

/// Three quarters of `a` plus one quarter of `b`, rounded down to a whole
/// sub-unit.
pub open spec fn weighted(a: int, b: int) -> int {
    (3 * a + b) / 4
}

/// The point a quarter of the way from `p0` to `p1`.
pub open spec fn cut(p0: Point, p1: Point) -> Point {
    Point { x: weighted(p0.x as int, p1.x as int) as i64, y: weighted(p0.y as int, p1.y as int) as i64 }
}

/// One corner-cutting pass: the first point, then for each consecutive pair the
/// two points a quarter and three quarters of the way along it, then the last
/// point.
pub open spec fn refine_pass(s: Seq<Point>) -> Seq<Point>
    recommends
        s.len() >= 2,
{
    Seq::new(
        2 * s.len(),
        |i: int|
            if i == 0 {
                s[0]
            } else if i == 2 * s.len() - 1 {
                s[s.len() - 1]
            } else if i % 2 == 1 {
                cut(s[(i - 1) / 2], s[(i + 1) / 2])
            } else {
                cut(s[i / 2], s[i / 2 - 1])
            },
    )
}

/// What a pass makes of each pair of neighbours: the pair `s[k]`, `s[k + 1]`
/// gives the points at `2 * k + 1` and `2 * k + 2`, the first a quarter of the
/// way from `s[k]` to `s[k + 1]`, the second a quarter of the way back from
/// `s[k + 1]`. No inner point of `s` is left in the result.
pub proof fn lemma_refine_pass_pairs(s: Seq<Point>, k: int)
    requires
        0 <= k < s.len() - 1,
    ensures
        refine_pass(s).len() == 2 * s.len(),
        refine_pass(s)[0] == s[0],
        refine_pass(s)[2 * k + 1] == cut(s[k], s[k + 1]),
        refine_pass(s)[2 * k + 2] == cut(s[k + 1], s[k]),
        refine_pass(s)[2 * s.len() - 1] == s[s.len() - 1],
{
}

/// `n` passes, each applied to the result of the one before.
pub open spec fn refine(s: Seq<Point>, n: nat) -> Seq<Point>
    decreases n,
{
    if n == 0 {
        s
    } else {
        refine(refine_pass(s), (n - 1) as nat)
    }
}

/// The weighted mean of two coordinates lies between them, so it is a
/// coordinate again, and it is off from the exact value by less than one
/// sub-unit.
pub proof fn lemma_weighted_bounds(a: int, b: int)
    ensures
        4 * weighted(a, b) <= 3 * a + b < 4 * weighted(a, b) + 4,
        a <= b ==> a <= weighted(a, b) <= b,
        b <= a ==> b <= weighted(a, b) <= a,
{
}

fn weighted_mean(a: i64, b: i64) -> (r: i64)
    ensures
        r == weighted(a as int, b as int),
{
    proof {
        lemma_weighted_bounds(a as int, b as int);
    }
    let sum: i128 = 3 * (a as i128) + (b as i128);
    let shifted: u128 = (sum + 0x4_0000_0000_0000_0000i128) as u128;
    let quotient: u128 = shifted / 4;
    assert(quotient == weighted(a as int, b as int) + 0x1_0000_0000_0000_0000int);
    ((quotient as i128) - 0x1_0000_0000_0000_0000i128) as i64
}

fn cut_corner(p0: Point, p1: Point) -> (q: Point)
    ensures
        q == cut(p0, p1),
{
    proof {
        lemma_weighted_bounds(p0.x as int, p1.x as int);
        lemma_weighted_bounds(p0.y as int, p1.y as int);
    }
    Point { x: weighted_mean(p0.x, p1.x), y: weighted_mean(p0.y, p1.y) }
}

/// One corner-cutting pass over at least two points.
pub fn refine_once(points: &Vec<Point>) -> (out: Vec<Point>)
    requires
        points@.len() >= 2,
        2 * points@.len() <= usize::MAX,
    ensures
        out@ == refine_pass(points@),
{
    let n: usize = points.len();
    let mut out: Vec<Point> = Vec::new();
    out.push(points[0]);
    let mut i: usize = 0;
    while i < n - 1
        invariant
            n == points@.len(),
            n >= 2,
            i <= n - 1,
            out@.len() == 1 + 2 * i,
            forall|j: int| 0 <= j < out@.len() ==> out@[j] == refine_pass(points@)[j],
        decreases n - 1 - i,
    {
        let p0: Point = points[i];
        let p1: Point = points[i + 1];
        out.push(cut_corner(p0, p1));
        out.push(cut_corner(p1, p0));
        i += 1;
    }
    out.push(points[n - 1]);
    assert(out@ =~= refine_pass(points@));
    out
}

pub(crate) fn copy_points(points: &Vec<Point>) -> (out: Vec<Point>)
    ensures
        out@ == points@,
{
    let mut out: Vec<Point> = Vec::new();
    let mut i: usize = 0;
    while i < points.len()
        invariant
            i <= points@.len(),
            out@ == points@.subrange(0, i as int),
        decreases points@.len() - i,
    {
        out.push(points[i]);
        i += 1;
    }
    assert(out@ =~= points@);
    out
}

/// What `chaikin` returns for a sequence and a number of passes: the sequence
/// itself for no pass, an error for a pass over fewer than two points, and
/// otherwise the sequence refined that many times.
pub open spec fn refine_outcome(s: Seq<Point>, n: nat) -> Result<Seq<Point>, RefineError> {
    if n == 0 {
        Ok(s)
    } else if s.len() < 2 {
        Err(RefineError::InvalidRefinementInput)
    } else {
        Ok(refine(s, n))
    }
}

/// Refines `points` by `iterations` corner-cutting passes.
///
/// With no pass to make, the points come back unchanged, however few they are.
/// A pass over fewer than two points is refused. The bound on the length is the
/// one that lets the result, `2^iterations` times as long as the input, be
/// counted in a `usize`.
pub fn chaikin(points: &Vec<Point>, iterations: usize) -> (result: Result<Vec<Point>, RefineError>)
    requires
        iterations > 0 && points@.len() >= 2 ==> points@.len() * pow2(iterations as nat)
            <= usize::MAX,
    ensures
        match result {
            Ok(v) => refine_outcome(points@, iterations as nat) == Ok::<Seq<Point>, RefineError>(v@),
            Err(e) => refine_outcome(points@, iterations as nat) == Err::<Seq<Point>, RefineError>(e),
        },
{
    if iterations == 0 {
        Ok(copy_points(points))
    } else if points.len() < 2 {
        Err(RefineError::InvalidRefinementInput)
    } else {
        Ok(refine_points(points, iterations))
    }
}

/// Makes `passes` corner-cutting passes over at least two points.
pub(crate) fn refine_points(points: &Vec<Point>, passes: usize) -> (out: Vec<Point>)
    requires
        points@.len() >= 2,
        points@.len() * pow2(passes as nat) <= usize::MAX,
    ensures
        out@ == refine(points@, passes as nat),
{
    let mut current: Vec<Point> = copy_points(points);
    let mut done: usize = 0;
    while done < passes
        invariant
            done <= passes,
            points@.len() >= 2,
            points@.len() * pow2(passes as nat) <= usize::MAX,
            current@ == refine(points@, done as nat),
        decreases passes - done,
    {
        proof {
            lemma_refine_keeps_endpoints(points@, done as nat);
            lemma_refine_len(points@, (done + 1) as nat);
            lemma_refine_append(points@, done as nat);
            lemma_scaled_len_grows(points@.len(), (done + 1) as nat, passes as nat);
        }
        current = refine_once(&current);
        done += 1;
    }
    current
}

pub(crate) proof fn lemma_scaled_len_grows(len: nat, a: nat, b: nat)
    requires
        a <= b,
    ensures
        len * pow2(a) <= len * pow2(b),
{
    if a < b {
        lemma_pow2_strictly_increases(a, b);
    }
    assert(len * pow2(a) <= len * pow2(b)) by (nonlinear_arith)
        requires
            pow2(a) <= pow2(b),
    ;
}

/// No pass leaves the sequence as it is.
pub proof fn lemma_refine_zero(s: Seq<Point>)
    ensures
        refine(s, 0) == s,
{
}

/// One pass more is the same as refining the result of a single pass.
pub proof fn lemma_refine_unfold(s: Seq<Point>, n: nat)
    ensures
        refine(s, n + 1) == refine(refine(s, 1), n),
{
    reveal_with_fuel(refine, 2);
    assert(refine(s, 1) == refine_pass(s));
}

/// One pass more is also the same as one further pass over the refined
/// sequence: the passes may be made one at a time.
pub proof fn lemma_refine_append(s: Seq<Point>, n: nat)
    ensures
        refine(s, n + 1) == refine_pass(refine(s, n)),
    decreases n,
{
    reveal_with_fuel(refine, 2);
    if n > 0 {
        lemma_refine_append(refine_pass(s), (n - 1) as nat);
    }
}

/// A pass doubles the number of points, so `n` passes multiply it by `2^n`.
pub proof fn lemma_refine_len(s: Seq<Point>, n: nat)
    ensures
        refine_pass(s).len() == 2 * s.len(),
        refine(s, n).len() == s.len() * pow2(n),
    decreases n,
{
    if n == 0 {
        assert(pow2(0) == 1) by {
            lemma2_to64();
        }
    } else {
        lemma_refine_len(refine_pass(s), (n - 1) as nat);
        lemma_pow2_unfold(n);
        assert(2 * s.len() * pow2((n - 1) as nat) == s.len() * (2 * pow2((n - 1) as nat)))
            by (nonlinear_arith);
    }
}

/// Refinement of at least two points keeps the first and the last point where
/// they are.
pub proof fn lemma_refine_keeps_endpoints(s: Seq<Point>, n: nat)
    requires
        s.len() >= 2,
    ensures
        refine(s, n).len() >= 2,
        refine(s, n).first() == s.first(),
        refine(s, n).last() == s.last(),
    decreases n,
{
    if n > 0 {
        lemma_refine_keeps_endpoints(refine_pass(s), (n - 1) as nat);
    }
}

} // verus!
