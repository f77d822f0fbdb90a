//! The simulated path: a growing sequence of points that starts again from
//! the seed point once it outgrows a limit.
use vstd::prelude::*;
use crate::centroid::{centroid, find_center};
use crate::integrator::{advance, lorenz};
use crate::point::{seed_point, Point3};

verus! {

/// The point reached from `p` after `k` steps of the integrator.
pub open spec fn iterate(p: Point3, k: nat) -> Point3
    decreases k,
{
    if k == 0 {
        p
    } else {
        advance(iterate(p, (k - 1) as nat))
    }
}

/// The `n` points that follow `p`, one step apart.
pub open spec fn steps_from(p: Point3, n: nat) -> Seq<Point3> {
    Seq::new(n, |i: int| iterate(p, (i + 1) as nat))
}

/// The path so far, in the order in which it was simulated. It is never empty.
pub struct TrajectoryBuffer {
    points: Vec<Point3>,
}

impl View for TrajectoryBuffer {
    type V = Seq<Point3>;

    closed spec fn view(&self) -> Seq<Point3> {
        self.points@
    }
}

impl TrajectoryBuffer {
    /// A buffer holds at least one point.
    pub open spec fn wf(&self) -> bool {
        self@.len() >= 1
    }

    /// A buffer holding the seed point alone.
    pub fn new() -> (r: TrajectoryBuffer)
        ensures
            r.wf(),
            r@ == seq![seed_point()],
    {
        let r = TrajectoryBuffer { points: vec![Point3::seed()] };
        assert(r@ =~= seq![seed_point()]);
        r
    }

    /// The points, oldest first.
    pub fn points(&self) -> (r: &Vec<Point3>)
        ensures
            r@ == self@,
    {
        &self.points
    }

    /// The number of points.
    pub fn len(&self) -> (r: usize)
        ensures
            r == self@.len(),
    {
        self.points.len()
    }

    /// The newest point.
    pub fn last(&self) -> (r: Point3)
        requires
            self.wf(),
        ensures
            r == self@.last(),
    {
        self.points[self.points.len() - 1]
    }

    /// Runs the integrator `n` times from the newest point and appends each
    /// result; no point is removed.
    pub fn append_steps(&mut self, n: usize)
        requires
            old(self).wf(),
            old(self)@.len() + n <= usize::MAX,
        ensures
            final(self).wf(),
            final(self)@ == old(self)@ + steps_from(old(self)@.last(), n as nat),
            final(self)@.len() == old(self)@.len() + n,
    {
        let ghost start = self@;
        let ghost from = self@.last();
        let mut i: usize = 0;
        while i < n
            invariant
                i <= n,
                start.len() + n <= usize::MAX,
                start.len() >= 1,
                from == start.last(),
                self@ == start + steps_from(from, i as nat),
                self@.last() == iterate(from, i as nat),
            decreases n - i,
        {
            let last = self.points[self.points.len() - 1];
            let next = lorenz(&last);
            self.points.push(next);
            proof {
                assert(steps_from(from, (i + 1) as nat) =~= steps_from(from, i as nat).push(
                    iterate(from, (i + 1) as nat),
                ));
                assert(self@ =~= start + steps_from(from, (i + 1) as nat));
            }
            i = i + 1;
        }
    }

    /// Starts again from the seed point alone when the buffer holds more
    /// than `max_len` points; otherwise leaves it as it is.
    pub fn maybe_reset(&mut self, max_len: usize)
        requires
            old(self).wf(),
        ensures
            final(self).wf(),
            old(self)@.len() > max_len ==> final(self)@ == seq![seed_point()],
            old(self)@.len() <= max_len ==> final(self)@ == old(self)@,
    {
        if self.points.len() > max_len {
            self.points = vec![Point3::seed()];
            assert(self@ =~= seq![seed_point()]);
        }
    }

    /// The centroid of all the points.
    pub fn centroid(&self) -> (r: Point3)
        requires
            self.wf(),
        ensures
            r == centroid(self@),
    {
        find_center(&self.points)
    }
}

} // verus!
