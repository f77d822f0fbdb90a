//! The centroid of a sequence of points: the mean of each coordinate,
//! rounded toward zero to a whole unit.
use vstd::prelude::*;
use crate::arith::{div_trunc, quot};
use crate::point::Point3;

verus! {

/// The sum of a sequence of integers, added left to right.
pub open spec fn sum(s: Seq<int>) -> int
    decreases s.len(),
{
    if s.len() == 0 {
        0
    } else {
        sum(s.drop_last()) + s.last()
    }
}

/// The x coordinates of a sequence of points.
pub open spec fn xs(s: Seq<Point3>) -> Seq<int> {
    s.map_values(|p: Point3| p.x as int)
}

/// The y coordinates.
pub open spec fn ys(s: Seq<Point3>) -> Seq<int> {
    s.map_values(|p: Point3| p.y as int)
}

/// The z coordinates.
pub open spec fn zs(s: Seq<Point3>) -> Seq<int> {
    s.map_values(|p: Point3| p.z as int)
}

/// The mean point of a non-empty sequence, each coordinate rounded toward zero.
pub open spec fn centroid(s: Seq<Point3>) -> Point3 {
    Point3 {
        x: quot(sum(xs(s)), s.len() as int) as i64,
        y: quot(sum(ys(s)), s.len() as int) as i64,
        z: quot(sum(zs(s)), s.len() as int) as i64,
    }
}

/// The sum of `n` values of an `i64` lies between `n` times the least and
/// `n` times the greatest `i64`.
proof fn lemma_mean_fits(total: int, n: int)
    requires
        n > 0,
        n * (i64::MIN as int) <= total <= n * (i64::MAX as int),
    ensures
        i64::MIN <= quot(total, n) <= i64::MAX,
{
    let big = 0x8000_0000_0000_0000int;
    if total >= 0 {
        vstd::arithmetic::div_mod::lemma_div_is_ordered(total, n * (i64::MAX as int), n);
        vstd::arithmetic::div_mod::lemma_div_multiples_vanish(i64::MAX as int, n);
        vstd::arithmetic::div_mod::lemma_div_pos_is_pos(total, n);
    } else {
        let lo = i64::MIN as int;
        assert(lo == -big);
        assert(n * lo == -(n * big)) by (nonlinear_arith)
            requires
                lo == -big,
        ;
        vstd::arithmetic::div_mod::lemma_div_is_ordered(-total, n * big, n);
        vstd::arithmetic::div_mod::lemma_div_multiples_vanish(big, n);
        vstd::arithmetic::div_mod::lemma_div_pos_is_pos(-total, n);
    }
}

/// The centroid of `points`, which must not be empty.
pub fn find_center(points: &Vec<Point3>) -> (r: Point3)
    requires
        points@.len() > 0,
    ensures
        r == centroid(points@),
{
    let n = points.len();
    let mut sx: i128 = 0;
    let mut sy: i128 = 0;
    let mut sz: i128 = 0;
    let mut i: usize = 0;
    while i < n
        invariant
            n == points@.len(),
            i <= n,
            sx == sum(xs(points@.take(i as int))),
            sy == sum(ys(points@.take(i as int))),
            sz == sum(zs(points@.take(i as int))),
            i * (i64::MIN as int) <= sx <= i * (i64::MAX as int),
            i * (i64::MIN as int) <= sy <= i * (i64::MAX as int),
            i * (i64::MIN as int) <= sz <= i * (i64::MAX as int),
        decreases n - i,
    {
        let p = points[i];
        proof {
            let t = points@.take(i as int);
            let t1 = points@.take(i + 1);
            assert(t1.drop_last() =~= t);
            assert(xs(t1).drop_last() =~= xs(t));
            assert(ys(t1).drop_last() =~= ys(t));
            assert(zs(t1).drop_last() =~= zs(t));
            assert(t1.last() == p);
        }
        sx = sx + p.x as i128;
        sy = sy + p.y as i128;
        sz = sz + p.z as i128;
        i = i + 1;
    }
    proof {
        assert(points@.take(n as int) =~= points@);
        lemma_mean_fits(sx as int, n as int);
        lemma_mean_fits(sy as int, n as int);
        lemma_mean_fits(sz as int, n as int);
    }
    let d = n as i128;
    Point3 { x: div_trunc(sx, d) as i64, y: div_trunc(sy, d) as i64, z: div_trunc(sz, d) as i64 }
}

/// The centroid of a single point is that point.
pub proof fn lemma_centroid_of_one(p: Point3)
    ensures
        centroid(seq![p]) == p,
{
    let s = seq![p];
    assert(xs(s).drop_last() =~= Seq::<int>::empty());
    assert(ys(s).drop_last() =~= Seq::<int>::empty());
    assert(zs(s).drop_last() =~= Seq::<int>::empty());
    assert(sum(Seq::<int>::empty()) == 0);
    assert(xs(s).last() == p.x && ys(s).last() == p.y && zs(s).last() == p.z);
    assert(sum(xs(s)) == p.x);
    assert(sum(ys(s)) == p.y);
    assert(sum(zs(s)) == p.z);
}

} // verus!
