//! The frame-rate counter.
//!
//! Each rendered tick is recorded; once per elapsed second the count of that
//! second is emitted and the counter resets to 0, so the emitted value is the
//! achieved tick rate.

use vstd::prelude::*;

verus! {

/// Length of the emission window, in milliseconds.
pub const MILLIS_PER_SECOND: u64 = 1000;

/// Counts rendered frames within the current one-second window.
pub struct FrameCounter {
    /// Frames recorded since the current window began.
    pub frames: u32,
    /// Timestamp, in milliseconds, at which the current window began.
    pub window_start: u64,
}

/// The counter state after one frame recorded at `now`: within the window the
/// frame is counted; at or past one second the counter resets to a fresh
/// window starting at `now`.
pub open spec fn spec_record_counter(c: FrameCounter, now: u64) -> FrameCounter {
    if now >= c.window_start + MILLIS_PER_SECOND {
        FrameCounter { frames: 0, window_start: now }
    } else {
        FrameCounter { frames: (c.frames + 1) as u32, window_start: c.window_start }
    }
}

/// What one frame recorded at `now` emits: nothing within the window; the
/// whole window's count — the frames recorded so far plus this one — once a
/// full second has elapsed.
pub open spec fn spec_record_emit(c: FrameCounter, now: u64) -> Option<u32> {
    if now >= c.window_start + MILLIS_PER_SECOND {
        Some((c.frames + 1) as u32)
    } else {
        None
    }
}

/// The counter state after recording one frame at each time of `times`, in
/// order.
pub open spec fn spec_run(c: FrameCounter, times: Seq<u64>) -> FrameCounter
    decreases times.len(),
{
    if times.len() == 0 {
        c
    } else {
        spec_run(spec_record_counter(c, times[0]), times.drop_first())
    }
}

impl FrameCounter {
    /// A counter whose first window begins at `now_millis`.
    pub fn new(now_millis: u64) -> (c: FrameCounter)
        ensures
            c.frames == 0,
            c.window_start == now_millis,
    {
        FrameCounter { frames: 0, window_start: now_millis }
    }

    /// Record one rendered frame at `now_millis`. Within the current window
    /// the frame is counted and nothing is emitted; once a full second has
    /// elapsed since the window began, the window's count (this frame
    /// included) is emitted and the counter resets to 0 immediately.
    pub fn record_frame(&mut self, now_millis: u64) -> (emitted: Option<u32>)
        requires
            old(self).frames < u32::MAX,
            old(self).window_start <= now_millis,
        ensures
            *final(self) == spec_record_counter(*old(self), now_millis),
            emitted == spec_record_emit(*old(self), now_millis),
            emitted is Some <==> now_millis >= old(self).window_start + MILLIS_PER_SECOND,
            emitted matches Some(k) ==> {
                &&& k == old(self).frames + 1
                &&& final(self).frames == 0
                &&& final(self).window_start == now_millis
            },
            emitted is None ==> {
                &&& final(self).frames == old(self).frames + 1
                &&& final(self).window_start == old(self).window_start
            },
    {
        if now_millis - self.window_start >= MILLIS_PER_SECOND {
            let count: u32 = self.frames + 1;
            self.frames = 0;
            self.window_start = now_millis;
            Some(count)
        } else {
            self.frames = self.frames + 1;
            None
        }
    }
}

/// Frames recorded strictly within one window accumulate without moving the
/// window: after recording at each time of `times`, all less than a second
/// past the window start, the count has grown by the number of frames and the
/// window is where it was.
pub proof fn lemma_run_within_window(c: FrameCounter, times: Seq<u64>)
    requires
        forall|i: int|
            0 <= i < times.len() ==> c.window_start <= #[trigger] times[i] < c.window_start
                + MILLIS_PER_SECOND,
        c.frames + times.len() <= u32::MAX,
    ensures
        spec_run(c, times).window_start == c.window_start,
        spec_run(c, times).frames == c.frames + times.len(),
    decreases times.len(),
{
    if times.len() > 0 {
        let c1 = spec_record_counter(c, times[0]);
        assert(c1.frames == c.frames + 1 && c1.window_start == c.window_start);
        assert(forall|i: int|
            0 <= i < times.drop_first().len() ==> #[trigger] times.drop_first()[i] == times[i + 1]);
        lemma_run_within_window(c1, times.drop_first());
    }
}

/// Frame-rate law: starting a fresh window, ticks at `times` — all within the
/// first second — emit nothing and are all counted; the first tick at or past
/// one second emits exactly the count of that second (the recorded ticks plus
/// itself) and resets the counter to 0 at once.
pub proof fn lemma_frame_rate_over_one_second(c: FrameCounter, times: Seq<u64>, t: u64)
    requires
        c.frames == 0,
        forall|i: int|
            0 <= i < times.len() ==> c.window_start <= #[trigger] times[i] < c.window_start
                + MILLIS_PER_SECOND,
        times.len() < u32::MAX,
        t >= c.window_start + MILLIS_PER_SECOND,
    ensures
        forall|i: int|
            0 <= i < times.len() ==> spec_record_emit(
                spec_run(c, times.take(i)),
                #[trigger] times[i],
            ) is None,
        spec_run(c, times).frames == times.len(),
        spec_record_emit(spec_run(c, times), t) == Some((times.len() + 1) as u32),
        spec_record_counter(spec_run(c, times), t).frames == 0,
{
    lemma_run_within_window(c, times);
    assert forall|i: int| 0 <= i < times.len() implies spec_record_emit(
        spec_run(c, times.take(i)),
        #[trigger] times[i],
    ) is None by {
        assert(forall|j: int| 0 <= j < i ==> #[trigger] times.take(i)[j] == times[j]);
        lemma_run_within_window(c, times.take(i));
    }
}

} // verus!
