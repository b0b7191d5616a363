//! How the fixed-point refinement relates to corner cutting over the rational
//! numbers: on points that lie on a coarse enough grid, nothing is rounded.

use vstd::prelude::*;
use crate::point::{Point, SUBUNITS_PER_UNIT};
use crate::refine::{cut, lemma_weighted_bounds, refine, refine_pass, weighted};

verus! {

/// Four to the power of `n`.
pub open spec fn four_to(n: nat) -> int
    decreases n,
{
    if n == 0 {
        1
    } else {
        4 * four_to((n - 1) as nat)
    }
}

/// Whether every coordinate of `s` is a multiple of `g`.
pub open spec fn on_grid(s: Seq<Point>, g: int) -> bool {
    forall|i: int| 0 <= i < s.len() ==> ((#[trigger] s[i]).x as int) % g == 0 && (s[i].y as int) % g == 0
}

/// The coordinates of `s`, each multiplied by `k`.
pub open spec fn scaled(s: Seq<Point>, k: int) -> Seq<(int, int)> {
    Seq::new(s.len(), |i: int| (k * s[i].x, k * s[i].y))
}

/// Four times the point a quarter of the way from `p0` to `p1`, without any
/// rounding.
pub open spec fn exact_cut(p0: (int, int), p1: (int, int)) -> (int, int) {
    (3 * p0.0 + p1.0, 3 * p0.1 + p1.1)
}

/// One corner-cutting pass without any rounding: the result holds four times
/// the coordinates of the refined points.
pub open spec fn exact_pass(s: Seq<(int, int)>) -> Seq<(int, int)>
    recommends
        s.len() >= 2,
{
    Seq::new(
        2 * s.len(),
        |i: int|
            if i == 0 {
                (4 * s[0].0, 4 * s[0].1)
            } else if i == 2 * s.len() - 1 {
                (4 * s[s.len() - 1].0, 4 * s[s.len() - 1].1)
            } else if i % 2 == 1 {
                exact_cut(s[(i - 1) / 2], s[(i + 1) / 2])
            } else {
                exact_cut(s[i / 2], s[i / 2 - 1])
            },
    )
}

/// `n` passes without any rounding: the result holds `4^n` times the
/// coordinates of the refined points.
pub open spec fn exact_refine(s: Seq<(int, int)>, n: nat) -> Seq<(int, int)>
    decreases n,
{
    if n == 0 {
        s
    } else {
        exact_refine(exact_pass(s), (n - 1) as nat)
    }
}

proof fn lemma_four_to_positive(n: nat)
    ensures
        four_to(n) >= 1,
    decreases n,
{
    if n > 0 {
        lemma_four_to_positive((n - 1) as nat);
    }
}

/// Between multiples of `4 * g` the weighted mean is exact and a multiple of
/// `g`.
proof fn lemma_weighted_exact(a: int, b: int, g: int, k: int)
    requires
        g >= 1,
        a % (4 * g) == 0,
        b % (4 * g) == 0,
    ensures
        4 * weighted(a, b) == 3 * a + b,
        weighted(a, b) % g == 0,
        (4 * k) * weighted(a, b) == 3 * (k * a) + k * b,
        a % g == 0,
        (4 * k) * a == 4 * (k * a),
{
    let qa = a / (4 * g);
    let qb = b / (4 * g);
    vstd::arithmetic::div_mod::lemma_fundamental_div_mod(a, 4 * g);
    vstd::arithmetic::div_mod::lemma_fundamental_div_mod(b, 4 * g);
    assert(a == 4 * (g * qa)) by (nonlinear_arith)
        requires
            a == (4 * g) * qa + 0,
    ;
    assert(b == 4 * (g * qb)) by (nonlinear_arith)
        requires
            b == (4 * g) * qb + 0,
    ;
    let w = 3 * (g * qa) + g * qb;
    assert(3 * a + b == 4 * w);
    assert(weighted(a, b) == w);
    assert(w == (3 * qa + qb) * g) by (nonlinear_arith)
        requires
            w == 3 * (g * qa) + g * qb,
    ;
    vstd::arithmetic::div_mod::lemma_mod_multiples_basic(3 * qa + qb, g);
    assert(a == (4 * qa) * g) by (nonlinear_arith)
        requires
            a == 4 * (g * qa),
    ;
    vstd::arithmetic::div_mod::lemma_mod_multiples_basic(4 * qa, g);
    assert((4 * k) * w == 3 * (k * a) + k * b) by (nonlinear_arith)
        requires
            4 * w == 3 * a + b,
    ;
    assert((4 * k) * a == 4 * (k * a)) by (nonlinear_arith);
}

proof fn lemma_cut_exact(p0: Point, p1: Point, g: int, k: int)
    requires
        g >= 1,
        (p0.x as int) % (4 * g) == 0,
        (p0.y as int) % (4 * g) == 0,
        (p1.x as int) % (4 * g) == 0,
        (p1.y as int) % (4 * g) == 0,
    ensures
        (cut(p0, p1).x as int) % g == 0,
        (cut(p0, p1).y as int) % g == 0,
        ((4 * k) * cut(p0, p1).x, (4 * k) * cut(p0, p1).y) == exact_cut(
            (k * p0.x, k * p0.y),
            (k * p1.x, k * p1.y),
        ),
{
    lemma_weighted_bounds(p0.x as int, p1.x as int);
    lemma_weighted_bounds(p0.y as int, p1.y as int);
    lemma_weighted_exact(p0.x as int, p1.x as int, g, k);
    lemma_weighted_exact(p0.y as int, p1.y as int, g, k);
}

/// A pass over points on the grid of `4 * g` rounds nothing and leaves the
/// points on the grid of `g`.
pub proof fn lemma_pass_exact(s: Seq<Point>, g: int, k: int)
    requires
        s.len() >= 2,
        g >= 1,
        on_grid(s, 4 * g),
    ensures
        on_grid(refine_pass(s), g),
        scaled(refine_pass(s), 4 * k) == exact_pass(scaled(s, k)),
{
    let r = refine_pass(s);
    let e = exact_pass(scaled(s, k));
    assert forall|i: int| 0 <= i < r.len() implies ((#[trigger] r[i]).x as int) % g == 0 && (r[i].y as int) % g
        == 0
        && ((4 * k) * r[i].x, (4 * k) * r[i].y) == e[i] by {
        if i == 0 {
            lemma_weighted_exact(s[0].x as int, s[0].x as int, g, k);
            lemma_weighted_exact(s[0].y as int, s[0].y as int, g, k);
        } else if i == 2 * s.len() - 1 {
            let last = s[s.len() - 1];
            lemma_weighted_exact(last.x as int, last.x as int, g, k);
            lemma_weighted_exact(last.y as int, last.y as int, g, k);
        } else if i % 2 == 1 {
            lemma_cut_exact(s[(i - 1) / 2], s[(i + 1) / 2], g, k);
        } else {
            lemma_cut_exact(s[i / 2], s[i / 2 - 1], g, k);
        }
    }
    assert(scaled(r, 4 * k) =~= e);
}

/// On points whose coordinates are multiples of `4^n`, `n` passes round
/// nothing: `4^n` times the refined coordinates are the numerators that exact
/// corner cutting gives over the denominator `4^n`. The factor `k` scales both
/// sides alike; with `k` equal to 1 this is the plain statement.
pub proof fn lemma_refine_exact(s: Seq<Point>, n: nat, k: int)
    requires
        s.len() >= 2,
        on_grid(s, four_to(n)),
    ensures
        scaled(refine(s, n), k * four_to(n)) == exact_refine(scaled(s, k), n),
    decreases n,
{
    if n == 0 {
        assert(scaled(s, k * 1) =~= scaled(s, k));
    } else {
        let g = four_to((n - 1) as nat);
        lemma_four_to_positive((n - 1) as nat);
        lemma_pass_exact(s, g, k);
        lemma_refine_exact(refine_pass(s), (n - 1) as nat, 4 * k);
        assert((4 * k) * g == k * (4 * g)) by (nonlinear_arith);
    }
}

/// Control points on whole canvas units are refined without any rounding for
/// up to eight passes.
pub proof fn lemma_whole_units_refine_exactly(s: Seq<Point>, n: nat)
    requires
        s.len() >= 2,
        on_grid(s, SUBUNITS_PER_UNIT as int),
        n <= 8,
    ensures
        scaled(refine(s, n), four_to(n)) == exact_refine(scaled(s, 1), n),
{
    reveal_with_fuel(four_to, 10);
    assert(four_to(8) == 65536);
    assert forall|i: int| 0 <= i < s.len() implies ((#[trigger] s[i]).x as int) % four_to(n) == 0 && (
    s[i].y as int) % four_to(n) == 0 by {
        lemma_coarse_grid_is_fine(s[i].x as int, n);
        lemma_coarse_grid_is_fine(s[i].y as int, n);
    }
    lemma_refine_exact(s, n, 1);
    assert(1 * four_to(n) == four_to(n));
}

proof fn lemma_coarse_grid_is_fine(a: int, n: nat)
    requires
        a % 65536 == 0,
        n <= 8,
    ensures
        a % four_to(n) == 0,
{
    reveal_with_fuel(four_to, 10);
    if n == 0 {
    } else if n == 1 {
        assert(a % 4 == 0);
    } else if n == 2 {
        assert(a % 16 == 0);
    } else if n == 3 {
        assert(a % 64 == 0);
    } else if n == 4 {
        assert(a % 256 == 0);
    } else if n == 5 {
        assert(a % 1024 == 0);
    } else if n == 6 {
        assert(a % 4096 == 0);
    } else if n == 7 {
        assert(a % 16384 == 0);
    } else {
        assert(a % 65536 == 0);
    }
}

} // verus!
