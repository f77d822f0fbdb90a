//! One explicit Euler step of the Lorenz system, with sigma = 10,
//! rho = 28, beta = 8/3 and time step dt = 0.001.
//!
//! In fixed point each new coordinate is the old one plus its increment,
//! rounded toward zero to a whole unit; all three increments are computed
//! from the point before the step. Rounding toward zero keeps the system's
//! symmetry under (x, y, z) -> (-x, -y, z).
use vstd::prelude::*;
use crate::arith::{div_trunc, lemma_quot_bounds, quot};
use crate::point::{Point3, SCALE};

verus! {

/// A step's new coordinate is held when its magnitude is at most
/// `i64::MAX`; the bound is symmetric so that the domain is too.
pub open spec fn fits(v: int) -> bool {
    -(i64::MAX as int) <= v <= i64::MAX
}

/// The points that the integrator can step in this representation: those
/// from which all three new coordinates fit.
pub open spec fn in_domain(p: Point3) -> bool {
    &&& fits(next_x(p))
    &&& fits(next_y(p))
    &&& fits(next_z(p))
}

/// x + dt * sigma * (y - x), the increment rounded toward zero.
pub open spec fn next_x(p: Point3) -> int {
    p.x + quot(p.y - p.x, 100)
}

/// y + dt * (x * (rho - z) - y), the increment rounded toward zero.
pub open spec fn next_y(p: Point3) -> int {
    p.y + quot(p.x * (28 * SCALE - p.z) - SCALE * p.y, 1000 * SCALE)
}

/// z + dt * (x * y - beta * z), the increment rounded toward zero.
pub open spec fn next_z(p: Point3) -> int {
    p.z + quot(3 * p.x * p.y - 8 * SCALE * p.z, 3000 * SCALE)
}

/// One Euler step from `p`: each coordinate depends on the old (x, y, z) only.
pub open spec fn euler_step(p: Point3) -> Point3 {
    Point3 { x: next_x(p) as i64, y: next_y(p) as i64, z: next_z(p) as i64 }
}

/// What the integrator makes of `p`: the step wherever its result can be
/// held; otherwise the trajectory has diverged past what an `i64` holds and
/// stays where it is.
pub open spec fn advance(p: Point3) -> Point3 {
    if in_domain(p) {
        euler_step(p)
    } else {
        p
    }
}

proof fn lemma_mul_bound(a: int, b: int, ba: int, bb: int)
    requires
        -ba <= a <= ba,
        -bb <= b <= bb,
    ensures
        -(ba * bb) <= a * b <= ba * bb,
{
    assert(-(ba * bb) <= a * b <= ba * bb) by (nonlinear_arith)
        requires
            -ba <= a <= ba,
            -bb <= b <= bb,
    ;
}

/// `2^63`, a bound on the magnitude of every `i64`.
pub const BIG: i128 = 9_223_372_036_854_775_808;

/// Where the product of x and y is larger in magnitude than this, the new z
/// cannot fit an `i64`.
pub const XY_BOUND: i128 = 42_535_295_865_117_307_932_921_825_928_971_026_432;

/// A product `x * y` beyond `XY_BOUND` puts the new z out of range.
proof fn lemma_z_out_of_range(p: Point3)
    requires
        p.x * p.y > XY_BOUND || p.x * p.y < -XY_BOUND,
    ensures
        !fits(next_z(p)),
{
    let s = SCALE as int;
    let b = 3000 * s;
    let num = 3 * p.x * p.y - 8 * s * p.z;
    let k = 127_605_813_808_375_628_960_559_013_786_913_079_296int;
    assert(3 * p.x * p.y == 3 * (p.x * p.y)) by (nonlinear_arith);
    lemma_mul_bound(8 * s, p.z as int, 8 * s, BIG as int);
    assert(8 * s * BIG == 73_786_976_294_838_206_464_000_000_000_000int);
    assert(b == 3_000_000_000_000_000int);
    assert(k / 3_000_000_000_000_000int == 42_535_271_269_458_542_986_853int);
    if p.x * p.y > XY_BOUND {
        assert(num >= k);
        vstd::arithmetic::div_mod::lemma_div_is_ordered(k, num, b);
    } else {
        assert(-num >= k);
        vstd::arithmetic::div_mod::lemma_div_is_ordered(k, -num, b);
    }
}

/// The mirror (x, y, z) -> (-x, -y, z), a symmetry of the Lorenz system.
pub open spec fn mirror(p: Point3) -> Point3 {
    Point3 { x: (-p.x) as i64, y: (-p.y) as i64, z: p.z }
}

/// Stepping the mirrored point gives the mirrored step, for every point
/// whose mirror is representable.
pub proof fn lemma_step_mirror_symmetric(p: Point3)
    requires
        p.x != i64::MIN,
        p.y != i64::MIN,
    ensures
        advance(mirror(p)) == mirror(advance(p)),
{
    let q = mirror(p);
    let s = SCALE as int;
    assert((-p.x) * (28 * s - p.z) == -(p.x * (28 * s - p.z))) by (nonlinear_arith);
    assert(3 * (-p.x) * (-p.y) == 3 * p.x * p.y) by (nonlinear_arith);
    assert(q.x == -p.x && q.y == -p.y);
    assert(next_x(q) == -next_x(p));
    assert(next_y(q) == -next_y(p));
    assert(next_z(q) == next_z(p));
}

/// Advances a point by one step of the Lorenz system. All three
/// coordinates of the result are computed from the point as it was; a point
/// from which the step cannot be held in an `i64` is returned unchanged.
pub fn lorenz(p: &Point3) -> (r: Point3)
    ensures
        r == advance(*p),
        in_domain(*p) ==> r.x == next_x(*p) && r.y == next_y(*p) && r.z == next_z(*p),
{
    let x = p.x as i128;
    let y = p.y as i128;
    let z = p.z as i128;
    let s = SCALE as i128;
    let ghost m = BIG as int;
    proof {
        lemma_mul_bound(x as int, 28 * s - z, m, m + 28 * SCALE);
        lemma_mul_bound(x as int, y as int, m, m);
        lemma_mul_bound(8 * s, z as int, 8 * SCALE, m);
        lemma_mul_bound(s as int, y as int, SCALE as int, m);
        assert(m * (m + 28 * SCALE) + SCALE * m
            == 85_070_859_208_023_684_654_342_083_857_942_052_864int);
        assert(m * m == 85_070_591_730_234_615_865_843_651_857_942_052_864int);
        assert(8 * SCALE * m == 73_786_976_294_838_206_464_000_000_000_000int);
    }
    let xy = x * y;
    if xy > XY_BOUND || xy < -XY_BOUND {
        proof {
            lemma_z_out_of_range(*p);
        }
        return *p;
    }
    let ny_num = x * (28 * s - z) - s * y;
    let nz_num = 3 * xy - 8 * s * z;
    proof {
        lemma_quot_bounds(y - x, 100, 2 * m);
        lemma_quot_bounds(ny_num as int, 1000 * s, 85_070_859_208_023_684_654_342_083_857_942_052_864int);
        lemma_quot_bounds(nz_num as int, 3000 * s, 127_605_961_382_328_218_636_971_941_786_913_079_296int);
        assert(3 * x * y == 3 * (x * y)) by (nonlinear_arith);
    }
    let nx = x + div_trunc(y - x, 100);
    let ny = y + div_trunc(ny_num, 1000 * s);
    let nz = z + div_trunc(nz_num, 3000 * s);
    let top = i64::MAX as i128;
    if -top <= nx && nx <= top && -top <= ny && ny <= top && -top <= nz && nz <= top {
        Point3 { x: nx as i64, y: ny as i64, z: nz as i64 }
    } else {
        *p
    }
}

} // verus!
