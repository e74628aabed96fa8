//! The inclusion rule of each solid, decided exactly in integer arithmetic.
//!
//! Every rule samples a cell at its index `(x, y, z)`. Along an axis of `n`
//! cells the centre lies at `(n - 1) / 2` and the radius is `n / 2`, so the
//! normalised coordinate of index `i` is `(2 * i + 1 - n) / n`. The rules
//! compare sums of squares of such fractions; they are stated here with the
//! denominators cleared, which keeps them exact.

use vstd::prelude::*;
use vstd::arithmetic::div_mod::{lemma_fundamental_div_mod, lemma_mod_bound};
use crate::arith::{mul_wide, product_le, square};
use crate::shapes::{Shape, ShapeType};

verus! {

/// Twice the signed distance from index `i` to the centre of an axis of `n` cells.
pub open spec fn axis_offset(i: int, n: int) -> int {
    2 * i + 1 - n
}

/// Numerator of the squared normalised coordinate of index `i` on an axis of
/// `n` cells. An axis without extent has radius zero; its coordinate counts as 0.
pub open spec fn axis_num(i: int, n: int) -> int {
    if n == 0 {
        0
    } else {
        axis_offset(i, n) * axis_offset(i, n)
    }
}

/// Denominator of the squared normalised coordinate on an axis of `n` cells.
pub open spec fn axis_den(n: int) -> int {
    if n == 0 {
        1
    } else {
        n * n
    }
}

/// `dx^2 + dz^2` over the common denominator `ellipse_den(w, d)`.
pub open spec fn ellipse_num(w: int, d: int, x: int, z: int) -> int {
    axis_num(x, w) * axis_den(d) + axis_num(z, d) * axis_den(w)
}

/// The common denominator of the two squared coordinates of the footprint.
pub open spec fn ellipse_den(w: int, d: int) -> int {
    axis_den(w) * axis_den(d)
}

/// `dx^2 + dz^2 <= 1`: the index lies in the ellipse inscribed in the `w` by `d` footprint.
pub open spec fn in_ellipse(w: int, d: int, x: int, z: int) -> bool {
    ellipse_num(w, d, x, z) <= ellipse_den(w, d)
}

/// `dx^2 + dy^2 + dz^2 <= 1`: the index lies in the ellipsoid inscribed in the grid.
pub open spec fn in_ellipsoid(w: int, h: int, d: int, x: int, y: int, z: int) -> bool {
    axis_num(x, w) * axis_den(h) * axis_den(d) + axis_num(y, h) * axis_den(w) * axis_den(d)
        + axis_num(z, d) * axis_den(w) * axis_den(h) <= axis_den(w) * axis_den(h) * axis_den(d)
}

/// `dx^2 + dz^2 <= f^2` with the height factor `f = 1 - y / h`: the index lies in
/// the cone whose base is the inscribed ellipse. A cone without height holds nothing.
pub open spec fn in_cone(w: int, h: int, d: int, x: int, y: int, z: int) -> bool {
    h != 0 && ellipse_num(w, d, x, z) * (h * h) <= (h - y) * (h - y) * ellipse_den(w, d)
}

/// `a / b` rounded up, for `a >= 0` and `b > 0`.
pub open spec fn ceil_div(a: int, b: int) -> int {
    if a % b == 0 {
        a / b
    } else {
        a / b + 1
    }
}

/// Half the extent of the pyramid along an axis of `n` cells at layer `y`:
/// `ceil(n * f / 2)` with the height factor `f = 1 - y / h`.
pub open spec fn half_extent(n: int, h: int, y: int) -> int {
    ceil_div(n * (h - y), 2 * h)
}

/// Index `i` lies within `bound` cells of the centre cell `n / 2`: in
/// `[n / 2 - bound, n / 2 + bound)`, the lower end clamped at 0.
pub open spec fn in_span(n: int, bound: int, i: int) -> bool {
    let centre = n / 2;
    let lower = if bound > centre {
        0
    } else {
        centre - bound
    };
    lower <= i < centre + bound
}

/// The index lies in the square pyramid: within the half extents of layer `y`
/// on both horizontal axes. A pyramid without height holds nothing.
pub open spec fn in_pyramid(w: int, h: int, d: int, x: int, y: int, z: int) -> bool {
    h != 0 && in_span(w, half_extent(w, h, y), x) && in_span(d, half_extent(d, h, y), z)
}

/// Whether the solid `shape` occupies the grid cell `cell`.
pub open spec fn occupied(shape: Shape, cell: (int, int, int)) -> bool {
    let (w, h, d) = (shape.width as int, shape.height as int, shape.depth as int);
    let (x, y, z) = cell;
    match shape.shape_type {
        ShapeType::Cube => true,
        ShapeType::Sphere => in_ellipsoid(w, h, d, x, y, z),
        ShapeType::Circle => y == 0 && in_ellipse(w, d, x, z),
        ShapeType::Cylinder => in_ellipse(w, d, x, z),
        ShapeType::Cone => in_cone(w, h, d, x, y, z),
        ShapeType::SquarePyramid => in_pyramid(w, h, d, x, y, z),
    }
}

/// Squared coordinates are fractions with a non-negative numerator and a positive denominator.
pub proof fn lemma_axis_signs(i: int, n: int)
    ensures
        axis_num(i, n) >= 0,
        axis_den(n) > 0,
{
    let a = axis_offset(i, n);
    assert(a * a >= 0) by (nonlinear_arith);
    assert(n != 0 ==> n * n > 0) by (nonlinear_arith);
}

/// The footprint's sum of squares is a fraction of the same kind.
pub proof fn lemma_ellipse_signs(w: int, d: int, x: int, z: int)
    ensures
        ellipse_num(w, d, x, z) >= 0,
        ellipse_den(w, d) > 0,
{
    lemma_axis_signs(x, w);
    lemma_axis_signs(z, d);
    let (ax, az, dw, dd) = (axis_num(x, w), axis_num(z, d), axis_den(w), axis_den(d));
    assert(ax * dd + az * dw >= 0 && dw * dd > 0) by (nonlinear_arith)
        requires
            ax >= 0,
            az >= 0,
            dw > 0,
            dd > 0,
    ;
}

/// The rule of the ellipsoid, with the two horizontal axes taken together:
/// the footprint's sum of squares and the vertical square stay within 1.
pub proof fn lemma_ellipsoid_over_footprint(w: int, h: int, d: int, x: int, y: int, z: int)
    ensures
        in_ellipsoid(w, h, d, x, y, z) <==> ellipse_num(w, d, x, z) * axis_den(h) + axis_num(y, h)
            * ellipse_den(w, d) <= ellipse_den(w, d) * axis_den(h),
{
    let (ax, ay, az) = (axis_num(x, w), axis_num(y, h), axis_num(z, d));
    let (dw, dh, dd) = (axis_den(w), axis_den(h), axis_den(d));
    assert(ax * dh * dd == ax * dd * dh) by (nonlinear_arith);
    assert((ax * dd + az * dw) * dh == ax * dd * dh + az * dw * dh) by (nonlinear_arith);
    assert(ay * dw * dd == ay * (dw * dd)) by (nonlinear_arith);
    assert(dw * dh * dd == dw * dd * dh) by (nonlinear_arith);
}

/// Rounding up keeps the order of the numerators.
pub proof fn lemma_ceil_div_is_monotonic(a: int, b: int, c: int)
    requires
        0 <= a <= b,
        0 < c,
    ensures
        ceil_div(a, c) <= ceil_div(b, c),
{
    lemma_fundamental_div_mod(a, c);
    lemma_fundamental_div_mod(b, c);
    lemma_mod_bound(a, c);
    lemma_mod_bound(b, c);
    let (qa, ra, qb, rb) = (a / c, a % c, b / c, b % c);
    assert(qa < qb || (qa == qb && ra <= rb)) by (nonlinear_arith)
        requires
            a == c * qa + ra,
            b == c * qb + rb,
            0 <= ra < c,
            0 <= rb < c,
            a <= b,
            0 < c,
    ;
}

/// The pyramid narrows upwards: a higher layer has no larger half extent.
pub proof fn lemma_half_extent_narrows(n: int, h: int, y: int)
    requires
        0 <= n,
        0 <= y,
        y + 1 < h,
    ensures
        half_extent(n, h, y + 1) <= half_extent(n, h, y),
{
    assert(0 <= n * (h - (y + 1)) <= n * (h - y)) by (nonlinear_arith)
        requires
            0 <= n,
            0 <= y,
            y + 1 < h,
    ;
    lemma_ceil_div_is_monotonic(n * (h - (y + 1)), n * (h - y), 2 * h);
}

/// The square of `axis_offset(i, n)` for an index on the axis.
fn axis_square(i: u32, n: u32) -> (r: u64)
    requires
        i < n,
    ensures
        r == axis_num(i as int, n as int),
{
    let twice: u64 = 2 * (i as u64) + 1;
    let gap: u64 = if twice >= n as u64 {
        twice - n as u64
    } else {
        n as u64 - twice
    };
    assert(gap * gap == axis_offset(i as int, n as int) * axis_offset(i as int, n as int))
        by (nonlinear_arith)
        requires
            gap == axis_offset(i as int, n as int) || gap == -axis_offset(i as int, n as int),
    ;
    square(gap as u32)
}

/// By how much the footprint's sum of squares stays within 1, over the
/// denominator `ellipse_den(w, d)`; `None` where it exceeds 1.
fn ellipse_margin(w: u32, d: u32, x: u32, z: u32) -> (margin: Option<u128>)
    requires
        x < w,
        z < d,
    ensures
        margin matches Some(m) ==> m == ellipse_den(w as int, d as int) - ellipse_num(
            w as int,
            d as int,
            x as int,
            z as int,
        ),
        margin is Some <==> in_ellipse(w as int, d as int, x as int, z as int),
{
    let w2: u64 = square(w);
    let d2: u64 = square(d);
    let full: u128 = mul_wide(w2, d2);
    let along_x: u128 = mul_wide(axis_square(x, w), d2);
    let along_z: u128 = mul_wide(axis_square(z, d), w2);
    if along_x > full || along_z > full - along_x {
        None
    } else {
        Some(full - along_x - along_z)
    }
}

/// Decides the rule of the circle and the cylinder.
pub fn ellipse_test(w: u32, d: u32, x: u32, z: u32) -> (inside: bool)
    requires
        x < w,
        z < d,
    ensures
        inside == in_ellipse(w as int, d as int, x as int, z as int),
{
    ellipse_margin(w, d, x, z).is_some()
}

/// Decides the rule of the sphere.
pub fn sphere_test(w: u32, h: u32, d: u32, x: u32, y: u32, z: u32) -> (inside: bool)
    requires
        x < w,
        y < h,
        z < d,
    ensures
        inside == in_ellipsoid(w as int, h as int, d as int, x as int, y as int, z as int),
{
    let ghost num = ellipse_num(w as int, d as int, x as int, z as int);
    let ghost den = ellipse_den(w as int, d as int);
    let ghost ay = axis_num(y as int, h as int);
    let ghost dh = axis_den(h as int);
    proof {
        lemma_axis_signs(y as int, h as int);
        lemma_ellipse_signs(w as int, d as int, x as int, z as int);
        lemma_ellipsoid_over_footprint(w as int, h as int, d as int, x as int, y as int, z as int);
    }
    match ellipse_margin(w, d, x, z) {
        None => {
            assert(num * dh + ay * den > den * dh) by (nonlinear_arith)
                requires
                    num > den,
                    dh > 0,
                    ay >= 0,
                    den >= 0,
            ;
            false
        },
        Some(margin) => {
            let full: u128 = mul_wide(square(w), square(d));
            assert((num * dh + ay * den <= den * dh) == (ay * den <= dh * margin))
                by (nonlinear_arith)
                requires
                    margin == den - num,
            ;
            product_le(axis_square(y, h), full, square(h), margin)
        },
    }
}

/// Decides the rule of the cone.
pub fn cone_test(w: u32, h: u32, d: u32, x: u32, y: u32, z: u32) -> (inside: bool)
    requires
        x < w,
        y < h,
        z < d,
    ensures
        inside == in_cone(w as int, h as int, d as int, x as int, y as int, z as int),
{
    let ghost num = ellipse_num(w as int, d as int, x as int, z as int);
    let ghost den = ellipse_den(w as int, d as int);
    proof {
        lemma_ellipse_signs(w as int, d as int, x as int, z as int);
    }
    match ellipse_margin(w, d, x, z) {
        None => {
            assert(num * (h * h) > (h - y) * (h - y) * den) by (nonlinear_arith)
                requires
                    num > den,
                    den >= 0,
                    0 <= y < h,
            ;
            false
        },
        Some(margin) => {
            let full: u128 = mul_wide(square(w), square(d));
            assert((h * h) * (full - margin) == num * (h * h)) by (nonlinear_arith)
                requires
                    full - margin == num,
            ;
            product_le(square(h), full - margin, square(h - y), full)
        },
    }
}

/// Computes `half_extent(n, h, y)` for a layer of the grid.
fn layer_half_extent(n: u32, h: u32, y: u32) -> (bound: u64)
    requires
        y < h,
    ensures
        bound == half_extent(n as int, h as int, y as int),
        bound <= n,
{
    let span: u64 = mul_span(n, h - y);
    let twice: u64 = 2 * (h as u64);
    let ghost q = span as int / twice as int;
    assert(q <= n) by (nonlinear_arith)
        requires
            q == span as int / twice as int,
            span == n * (h - y),
            twice == 2 * h,
            0 <= y < h,
    ;
    if span % twice == 0 {
        span / twice
    } else {
        assert(span as int / twice as int + 1 <= n) by (nonlinear_arith)
            requires
                span == n * (h - y),
                twice == 2 * h,
                0 <= y < h,
                span as int % twice as int != 0,
        ;
        span / twice + 1
    }
}

/// `a * b` in 64 bits.
fn mul_span(a: u32, b: u32) -> (r: u64)
    ensures
        r == a * b,
{
    assert(a * b <= 0xffff_ffff * 0xffff_ffff) by (nonlinear_arith)
        requires
            a <= 0xffff_ffff,
            b <= 0xffff_ffff,
    ;
    (a as u64) * (b as u64)
}

/// Decides `in_span(n, bound, i)`.
fn span_test(n: u32, bound: u64, i: u32) -> (inside: bool)
    requires
        bound <= n,
    ensures
        inside == in_span(n as int, bound as int, i as int),
{
    let centre: u64 = (n / 2) as u64;
    let lower: u64 = if bound > centre {
        0
    } else {
        centre - bound
    };
    lower <= i as u64 && (i as u64) < centre + bound
}

/// Decides the rule of the square pyramid.
pub fn pyramid_test(w: u32, h: u32, d: u32, x: u32, y: u32, z: u32) -> (inside: bool)
    requires
        x < w,
        y < h,
        z < d,
    ensures
        inside == in_pyramid(w as int, h as int, d as int, x as int, y as int, z as int),
{
    span_test(w, layer_half_extent(w, h, y), x) && span_test(d, layer_half_extent(d, h, y), z)
}

} // verus!
