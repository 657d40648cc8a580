use vstd::prelude::*;
use crate::codec::BeamPoint;

verus! {

/// Walks an animation — an ordered, non-empty sequence of non-empty
/// frames — point by point, with optional whole-frame repetition, looping
/// over the whole animation forever.  There is no terminal state: every
/// request yields a point.
pub struct Playback {
    pub frames: Vec<Vec<BeamPoint>>,
    pub repeat_frames: bool,
    pub frame_repeat_number: u8,
    pub frame_index: usize,
    pub point_index: usize,
    pub repeat_count: u8,
}

impl Playback {
    /// Well-formedness: the animation is non-empty, every frame is
    /// non-empty, and the cursor points no further than one past the end
    /// of the animation and of the current frame.
    pub open spec fn wf(self) -> bool {
        &&& self.frames@.len() > 0
        &&& forall|i: int| 0 <= i < self.frames@.len() ==> self.frames@[i]@.len() > 0
        &&& self.frame_index <= self.frames@.len()
        &&& (self.frame_index < self.frames@.len() ==> self.point_index
            <= self.frames@[self.frame_index as int]@.len())
    }

    /// The yielded point and the successor state for one request, by the
    /// three transition rules: past the last frame, loop back to the start
    /// and yield the very first point; at the end of a frame, either play
    /// the frame again (repetition enabled and repeats left) or advance to
    /// the next frame (looping back if it was the last); otherwise yield
    /// the point under the cursor and move past it.
    pub open spec fn step(self) -> (Playback, BeamPoint) {
        if self.frame_index >= self.frames@.len() {
            (
                Playback { frame_index: 0, point_index: 1, repeat_count: 0, ..self },
                self.frames@[0]@[0],
            )
        } else if self.point_index >= self.frames@[self.frame_index as int]@.len() {
            if self.repeat_frames && self.repeat_count < self.frame_repeat_number {
                (
                    Playback {
                        point_index: 1,
                        repeat_count: (self.repeat_count + 1) as u8,
                        ..self
                    },
                    self.frames@[self.frame_index as int]@[0],
                )
            } else if self.frame_index as int + 1 >= self.frames@.len() {
                (
                    Playback { frame_index: 0, point_index: 1, repeat_count: 0, ..self },
                    self.frames@[0]@[0],
                )
            } else {
                (
                    Playback {
                        frame_index: (self.frame_index + 1) as usize,
                        point_index: 1,
                        repeat_count: 0,
                        ..self
                    },
                    self.frames@[self.frame_index as int + 1]@[0],
                )
            }
        } else {
            (
                Playback { point_index: (self.point_index + 1) as usize, ..self },
                self.frames@[self.frame_index as int]@[self.point_index as int],
            )
        }
    }

    /// The machine after `n` requests.
    pub open spec fn run(self, n: nat) -> Playback
        decreases n,
    {
        if n == 0 {
            self
        } else {
            self.step().0.run((n - 1) as nat)
        }
    }

    /// The points the machine yields over the next `n` requests, in order.
    pub open spec fn stream(self, n: nat) -> Seq<BeamPoint>
        decreases n,
    {
        if n == 0 {
            Seq::empty()
        } else {
            seq![self.step().1] + self.step().0.stream((n - 1) as nat)
        }
    }

    /// Build a playback machine over `frames`, rejecting an empty
    /// animation or any empty frame; the cursor starts at the first point
    /// of the first frame.  `frame_repeat_number` is the number of extra
    /// plays of each frame when `repeat_frames` is enabled.
    pub fn new(frames: Vec<Vec<BeamPoint>>, repeat_frames: bool, frame_repeat_number: u8) -> (r:
        Option<Playback>)
        ensures
            (r is Some) <==> (frames@.len() > 0 && (forall|i: int|
                0 <= i < frames@.len() ==> frames@[i]@.len() > 0)),
            r is Some ==> r.unwrap() == (Playback {
                frames,
                repeat_frames,
                frame_repeat_number,
                frame_index: 0,
                point_index: 0,
                repeat_count: 0,
            }),
            r is Some ==> r.unwrap().wf(),
    {
        if frames.len() == 0 {
            return None;
        }
        let mut i: usize = 0;
        while i < frames.len()
            invariant
                0 <= i <= frames@.len(),
                forall|j: int| 0 <= j < i ==> frames@[j]@.len() > 0,
            decreases frames@.len() - i,
        {
            if frames[i].len() == 0 {
                return None;
            }
            i = i + 1;
        }
        Some(
            Playback {
                frames,
                repeat_frames,
                frame_repeat_number,
                frame_index: 0,
                point_index: 0,
                repeat_count: 0,
            },
        )
    }

    /// Yield the next raw animation point and advance the cursor by the
    /// transition rules; the frames and the repetition policy never
    /// change.
    pub fn next_point(&mut self) -> (p: BeamPoint)
        requires
            old(self).wf(),
        ensures
            final(self).wf(),
            *final(self) == old(self).step().0,
            p == old(self).step().1,
    {
        if self.frame_index >= self.frames.len() {
            self.frame_index = 0;
            self.point_index = 1;
            self.repeat_count = 0;
            self.frames[0][0]
        } else if self.point_index >= self.frames[self.frame_index].len() {
            if self.repeat_frames && self.repeat_count < self.frame_repeat_number {
                self.point_index = 1;
                self.repeat_count = self.repeat_count + 1;
                self.frames[self.frame_index][0]
            } else if self.frame_index + 1 >= self.frames.len() {
                self.frame_index = 0;
                self.point_index = 1;
                self.repeat_count = 0;
                self.frames[0][0]
            } else {
                self.frame_index = self.frame_index + 1;
                self.point_index = 1;
                self.repeat_count = 0;
                self.frames[self.frame_index][0]
            }
        } else {
            let p = self.frames[self.frame_index][self.point_index];
            self.point_index = self.point_index + 1;
            p
        }
    }

    /// One request appended: the state after `n + 1` requests is one step
    /// beyond the state after `n`.
    pub proof fn lemma_run_snoc(self, n: nat)
        ensures
            self.run(n + 1) == self.run(n).step().0,
        decreases n,
    {
        let next = self.step().0;
        if n == 0 {
            assert(next.run(0) == next);
            assert(self.run(1) == next.run(0));
        } else {
            next.lemma_run_snoc((n - 1) as nat);
            assert(self.run(n + 1) == next.run(n));
            assert(self.run(n) == next.run((n - 1) as nat));
        }
    }

    /// One request appended: the stream over `n + 1` requests is the
    /// stream over `n` plus the point the machine yields after `n`
    /// requests.
    pub proof fn lemma_stream_snoc(self, n: nat)
        ensures
            self.stream(n + 1) == self.stream(n).push(self.run(n).step().1),
        decreases n,
    {
        let next = self.step().0;
        if n == 0 {
            assert(self.stream(1) =~= self.stream(0).push(self.run(0).step().1));
        } else {
            next.lemma_stream_snoc((n - 1) as nat);
            self.lemma_run_snoc((n - 1) as nat);
            assert(self.stream(n + 1) == seq![self.step().1] + next.stream(n));
            assert(self.stream(n) == seq![self.step().1] + next.stream((n - 1) as nat));
            assert(self.run(n) == next.run((n - 1) as nat));
            assert(self.stream(n + 1) =~= self.stream(n).push(self.run(n).step().1));
        }
    }

    /// Produce exactly `n` raw points in playback order, advancing the
    /// cursor as `n` single requests would.
    pub fn next_points(&mut self, n: usize) -> (buf: Vec<BeamPoint>)
        requires
            old(self).wf(),
        ensures
            final(self).wf(),
            buf@.len() == n,
            buf@ == old(self).stream(n as nat),
            *final(self) == old(self).run(n as nat),
    {
        let ghost m0 = *self;
        let mut buf: Vec<BeamPoint> = Vec::new();
        let mut i: usize = 0;
        while i < n
            invariant
                0 <= i <= n,
                self.wf(),
                buf@.len() == i,
                buf@ == m0.stream(i as nat),
                *self == m0.run(i as nat),
            decreases n - i,
        {
            proof {
                m0.lemma_run_snoc(i as nat);
                m0.lemma_stream_snoc(i as nat);
            }
            let p = self.next_point();
            buf.push(p);
            i = i + 1;
        }
        buf
    }

    /// Playback determinism law, repetition disabled: from the start of an
    /// animation with frames `[p0, p1]` and `[p2]`, six requests yield
    /// `p0, p1, p2, p0, p1, p2` — the playback loops exactly every three
    /// points, the fourth request landing on the same cursor as the first.
    pub proof fn lemma_playback_loops(m: Playback, p0: BeamPoint, p1: BeamPoint, p2: BeamPoint)
        requires
            m.frames@.len() == 2,
            m.frames@[0]@ == seq![p0, p1],
            m.frames@[1]@ == seq![p2],
            !m.repeat_frames,
            m.frame_index == 0,
            m.point_index == 0,
            m.repeat_count == 0,
        ensures
            m.stream(6) == seq![p0, p1, p2, p0, p1, p2],
            m.run(4) == m.run(1),
    {
        reveal_with_fuel(Playback::run, 8);
        reveal_with_fuel(Playback::stream, 8);
        let m1 = m.step().0;
        let m2 = m1.step().0;
        let m3 = m2.step().0;
        let m4 = m3.step().0;
        let m5 = m4.step().0;
        assert(m.step().1 == p0);
        assert(m1.step().1 == p1);
        assert(m2.step().1 == p2);
        assert(m3.step().1 == p0);
        assert(m4.step().1 == p1);
        assert(m5.step().1 == p2);
        assert(m5.stream(1) =~= seq![p2]);
        assert(m4.stream(2) =~= seq![p1, p2]);
        assert(m3.stream(3) =~= seq![p0, p1, p2]);
        assert(m2.stream(4) =~= seq![p2, p0, p1, p2]);
        assert(m1.stream(5) =~= seq![p1, p2, p0, p1, p2]);
        assert(m.stream(6) =~= seq![p0, p1, p2, p0, p1, p2]);
        assert(m.run(4) == m4);
        assert(m.run(1) == m1);
        assert(m4 == m1);
    }

    /// Frame repetition law: with repetition enabled and a repeat number
    /// of 2, a first frame `[p0, p1]` is played three times in full —
    /// `p0, p1, p0, p1, p0, p1` — and the cursor still stands at the end
    /// of that frame before any advance to the next.
    pub proof fn lemma_frame_repetition(m: Playback, p0: BeamPoint, p1: BeamPoint)
        requires
            m.frames@.len() >= 1,
            m.frames@[0]@ == seq![p0, p1],
            m.repeat_frames,
            m.frame_repeat_number == 2,
            m.frame_index == 0,
            m.point_index == 0,
            m.repeat_count == 0,
        ensures
            m.stream(6) == seq![p0, p1, p0, p1, p0, p1],
            m.run(6).frame_index == 0,
            m.run(6).point_index == 2,
            m.run(6).repeat_count == 2,
    {
        reveal_with_fuel(Playback::run, 8);
        reveal_with_fuel(Playback::stream, 8);
        let m1 = m.step().0;
        let m2 = m1.step().0;
        let m3 = m2.step().0;
        let m4 = m3.step().0;
        let m5 = m4.step().0;
        let m6 = m5.step().0;
        assert(m.step().1 == p0);
        assert(m1.step().1 == p1);
        assert(m2.step().1 == p0);
        assert(m3.step().1 == p1);
        assert(m4.step().1 == p0);
        assert(m5.step().1 == p1);
        assert(m5.stream(1) =~= seq![p1]);
        assert(m4.stream(2) =~= seq![p0, p1]);
        assert(m3.stream(3) =~= seq![p1, p0, p1]);
        assert(m2.stream(4) =~= seq![p0, p1, p0, p1]);
        assert(m1.stream(5) =~= seq![p1, p0, p1, p0, p1]);
        assert(m.stream(6) =~= seq![p0, p1, p0, p1, p0, p1]);
        assert(m.run(6) == m6);
    }
}

} // verus!
