//! The per-frame update of the viewer: trim the trail, extend it, turn the
//! camera and aim it at the trail's centroid. Angles are in tenths of a
//! degree.
use vstd::prelude::*;
use crate::bounce::{bounce_step, BouncingVariable};
use crate::centroid::centroid;
use crate::point::{seed_point, Point3};
use crate::trail::{steps_from, TrajectoryBuffer};

verus! {

/// The trail starts again once it holds more points than this.
pub const MAX_TRAIL_LEN: usize = 200_000;

/// Integrator steps appended per frame.
pub const STEPS_PER_FRAME: usize = 30;

/// The pitch bounces between these angles, in tenths of a degree.
pub const PITCH_MIN: i32 = -750;

/// See `PITCH_MIN`.
pub const PITCH_MAX: i32 = 750;

/// The pitch moves by this much per frame, in tenths of a degree.
pub const PITCH_STEP: i32 = 1;

/// The last azimuth before the camera's circle closes, in tenths of a degree.
pub const AZIMUTH_LAST: i32 = 3599;

/// What a frame hands to the renderer.
#[derive(Clone, Copy, Debug, PartialEq, Eq, Structural)]
pub struct Frame {
    /// The point the camera looks at.
    pub target: Point3,
    /// The camera's angle around the target, in tenths of a degree.
    pub azimuth: i32,
    /// The camera's elevation, in tenths of a degree.
    pub pitch: i32,
}

/// The azimuth one frame later: a tenth of a degree further, back to zero
/// after a full turn.
pub open spec fn next_azimuth(a: int) -> int {
    if a == AZIMUTH_LAST {
        0
    } else {
        a + 1
    }
}

/// The trail as the frame finds it after the reset check.
pub open spec fn trimmed(s: Seq<Point3>) -> Seq<Point3> {
    if s.len() > MAX_TRAIL_LEN {
        seq![seed_point()]
    } else {
        s
    }
}

/// The trail after one frame: the reset check, then `STEPS_PER_FRAME` steps.
pub open spec fn frame_trail(s: Seq<Point3>) -> Seq<Point3> {
    trimmed(s) + steps_from(trimmed(s).last(), STEPS_PER_FRAME as nat)
}

/// The trail after `k` frames.
pub open spec fn frames(s: Seq<Point3>, k: nat) -> Seq<Point3>
    decreases k,
{
    if k == 0 {
        s
    } else {
        frame_trail(frames(s, (k - 1) as nat))
    }
}

/// Between resets the trail only grows: over `k` frames in none of which the
/// reset fires, it gains exactly `STEPS_PER_FRAME` points per frame and keeps
/// every point it had.
pub proof fn lemma_trail_grows_between_resets(s: Seq<Point3>, k: nat)
    requires
        s.len() >= 1,
        k == 0 || s.len() + STEPS_PER_FRAME * (k - 1) <= MAX_TRAIL_LEN,
    ensures
        frames(s, k).len() == s.len() + STEPS_PER_FRAME * k,
        frames(s, k).subrange(0, s.len() as int) == s,
    decreases k,
{
    if k == 0 {
        assert(s.subrange(0, s.len() as int) =~= s);
    } else {
        let k1 = (k - 1) as nat;
        lemma_trail_grows_between_resets(s, k1);
        let prev = frames(s, k1);
        assert(prev.len() <= MAX_TRAIL_LEN);
        assert(trimmed(prev) == prev);
        let next = frames(s, k);
        assert(next == prev + steps_from(prev.last(), STEPS_PER_FRAME as nat));
        assert(next.subrange(0, s.len() as int) =~= prev.subrange(0, s.len() as int));
    }
}

/// Everything the viewer simulates between frames.
pub struct Simulation {
    pub trail: TrajectoryBuffer,
    pub pitch: BouncingVariable,
    pub azimuth: i32,
}

impl Simulation {
    /// The trail is non-empty, the pitch is well-formed and the azimuth lies
    /// within one turn.
    pub open spec fn wf(&self) -> bool {
        &&& self.trail.wf()
        &&& self.pitch.wf()
        &&& 0 <= self.azimuth <= AZIMUTH_LAST
    }

    /// The trail at the seed point, the camera level and facing along x.
    pub fn new() -> (r: Simulation)
        ensures
            r.wf(),
            r.trail@ == seq![seed_point()],
            r.pitch@.value == 0 && r.pitch@.direction == 1,
            r.pitch@.min == PITCH_MIN && r.pitch@.max == PITCH_MAX,
            r.pitch@.step == PITCH_STEP,
            r.azimuth == 0,
    {
        Simulation {
            trail: TrajectoryBuffer::new(),
            pitch: BouncingVariable::new(0, PITCH_MIN, PITCH_MAX, PITCH_STEP),
            azimuth: 0,
        }
    }

    /// Advances the simulation by one frame: the trail starts again if it
    /// outgrew its limit and gains `STEPS_PER_FRAME` points, the camera
    /// turns by one step, and the frame aims at the trail's centroid with the
    /// pitch as it was before the pitch takes its step.
    pub fn advance_frame(&mut self) -> (r: Frame)
        requires
            old(self).wf(),
        ensures
            final(self).wf(),
            final(self).trail@ == frame_trail(old(self).trail@),
            final(self).trail@.len() <= MAX_TRAIL_LEN + STEPS_PER_FRAME,
            final(self).pitch@ == bounce_step(old(self).pitch@),
            final(self).azimuth == next_azimuth(old(self).azimuth as int),
            r.target == centroid(final(self).trail@),
            r.azimuth == final(self).azimuth,
            r.pitch == old(self).pitch@.value,
    {
        self.trail.maybe_reset(MAX_TRAIL_LEN);
        self.trail.append_steps(STEPS_PER_FRAME);
        if self.azimuth == AZIMUTH_LAST {
            self.azimuth = 0;
        } else {
            self.azimuth = self.azimuth + 1;
        }
        let pitch = self.pitch.value();
        self.pitch.step();
        let target = self.trail.centroid();
        Frame { target, azimuth: self.azimuth, pitch }
    }
}

} // verus!
