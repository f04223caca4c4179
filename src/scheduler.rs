use vstd::prelude::*;

use crate::graph::{recorded, Command, StageGraph};

verus! {

/// Where the frame loop stands between iterations.
#[derive(Clone, Copy, Debug, PartialEq, Eq, Structural)]
pub enum Phase {
    Idle,
    Submitted,
    Stopped,
}

/// The scheduler's state: its phase, the elapsed time (microseconds since
/// the run started) last written to the time uniform, and whether the host
/// asked the run to end.
#[derive(Clone, Copy, Debug, PartialEq, Eq, Structural)]
pub struct SchedulerState {
    pub phase: Phase,
    pub uniform_time: u64,
    pub cancel_requested: bool,
}

/// What the host does with the frame it asked for.
pub enum FramePlan {
    /// Submit `commands` as one command stream, then present `image`.
    Submit { image: u64, commands: Vec<Command> },
    /// No image could be acquired: end the run, submitting nothing.
    Abort,
}

/// The time uniform after a write attempt at `elapsed`: the write lands only
/// when the buffer could be mapped. As a deliberate choice the value never
/// moves backwards: with a monotonic clock the written value is exactly the
/// elapsed time, and only a clock that steps back would see it held.
pub open spec fn next_uniform_time(t: u64, mapped: bool, elapsed: u64) -> u64 {
    if mapped && elapsed >= t {
        elapsed
    } else {
        t
    }
}

pub open spec fn after_acquire(s: SchedulerState, acquired: Option<u64>) -> SchedulerState {
    SchedulerState {
        phase: if acquired is Some {
            Phase::Submitted
        } else {
            Phase::Stopped
        },
        ..s
    }
}

/// Whether the loop starts another frame from state `s`.
pub open spec fn runs_frame(s: SchedulerState) -> bool {
    s.phase == Phase::Idle && !s.cancel_requested
}

/// The time uniform after a sequence of write attempts `(mapped, elapsed)`.
pub open spec fn time_after(t0: u64, trace: Seq<(bool, u64)>) -> u64
    decreases trace.len(),
{
    if trace.len() == 0 {
        t0
    } else {
        next_uniform_time(
            time_after(t0, trace.drop_last()),
            trace.last().0,
            trace.last().1,
        )
    }
}

/// Drives the per-frame protocol: update the time uniform, acquire an image,
/// record and submit the stage graph, present, and again until cancelled.
pub struct FrameScheduler {
    phase: Phase,
    uniform_time: u64,
    cancel_requested: bool,
}

impl View for FrameScheduler {
    type V = SchedulerState;

    closed spec fn view(&self) -> SchedulerState {
        SchedulerState {
            phase: self.phase,
            uniform_time: self.uniform_time,
            cancel_requested: self.cancel_requested,
        }
    }
}

impl FrameScheduler {
    pub fn new() -> (r: FrameScheduler)
        ensures
            r@ == (SchedulerState { phase: Phase::Idle, uniform_time: 0, cancel_requested: false }),
    {
        FrameScheduler { phase: Phase::Idle, uniform_time: 0, cancel_requested: false }
    }

    pub fn state(&self) -> (r: SchedulerState)
        ensures
            r == self@,
    {
        SchedulerState {
            phase: self.phase,
            uniform_time: self.uniform_time,
            cancel_requested: self.cancel_requested,
        }
    }

    /// Whether the loop should start another frame.
    pub fn should_run_frame(&self) -> (r: bool)
        ensures
            r == runs_frame(self@),
    {
        self.phase == Phase::Idle && !self.cancel_requested
    }

    /// Takes note of the host's request to end the run; it takes effect at
    /// the next iteration boundary.
    pub fn request_cancel(&mut self)
        ensures
            final(self)@ == (SchedulerState { cancel_requested: true, ..old(self)@ }),
    {
        self.cancel_requested = true;
    }

    /// Decides the time-uniform write for this frame, given whether the
    /// uniform buffer could be mapped and the elapsed time. Returns the value
    /// to write, or `None` when the mapping was unavailable and the frame
    /// goes on with the stale value.
    pub fn update_time(&mut self, mapped: bool, elapsed: u64) -> (r: Option<u64>)
        requires
            old(self)@.phase == Phase::Idle,
        ensures
            final(self)@ == (SchedulerState {
                uniform_time: next_uniform_time(old(self)@.uniform_time, mapped, elapsed),
                ..old(self)@
            }),
            r == (if mapped {
                Some(next_uniform_time(old(self)@.uniform_time, mapped, elapsed))
            } else {
                None
            }),
    {
        if !mapped {
            return None;
        }
        if elapsed >= self.uniform_time {
            self.uniform_time = elapsed;
        }
        Some(self.uniform_time)
    }

    /// Starts the frame with the outcome of acquiring a presentable image:
    /// with an image, records the whole stage graph targeting it; without
    /// one, stops the run for good.
    pub fn begin_frame(&mut self, graph: &StageGraph, acquired: Option<u64>) -> (r: FramePlan)
        requires
            old(self)@.phase == Phase::Idle,
        ensures
            final(self)@ == after_acquire(old(self)@, acquired),
            acquired is None ==> r is Abort,
            acquired matches Some(img) ==> r matches FramePlan::Submit { image, commands } && image
                == img && commands@ == recorded(graph.stages_view(), img),
    {
        match acquired {
            None => {
                self.phase = Phase::Stopped;
                FramePlan::Abort
            },
            Some(img) => {
                let commands = graph.record(img);
                self.phase = Phase::Submitted;
                FramePlan::Submit { image: img, commands }
            },
        }
    }

    /// The submitted frame has been handed to presentation: back to idle.
    pub fn finish_frame(&mut self)
        requires
            old(self)@.phase == Phase::Submitted,
        ensures
            final(self)@ == (SchedulerState { phase: Phase::Idle, ..old(self)@ }),
    {
        self.phase = Phase::Idle;
    }
}

/// A failed acquisition ends the run: nothing is submitted, no further frame
/// starts, and a later cancellation does not revive it.
pub proof fn lemma_acquire_failure_ends_run(s: SchedulerState)
    requires
        s.phase == Phase::Idle,
    ensures
        after_acquire(s, None).phase == Phase::Stopped,
        !runs_frame(after_acquire(s, None)),
        !runs_frame(SchedulerState { cancel_requested: true, ..after_acquire(s, None) }),
{
}

/// The time uniform never decreases from one frame to a later one.
pub proof fn lemma_time_uniform_monotone(t0: u64, trace: Seq<(bool, u64)>, i: int, j: int)
    requires
        0 <= i <= j <= trace.len(),
    ensures
        time_after(t0, trace.take(i)) <= time_after(t0, trace.take(j)),
    decreases j - i,
{
    if i < j {
        lemma_time_uniform_monotone(t0, trace, i, j - 1);
        assert(trace.take(j).drop_last() =~= trace.take(j - 1));
    }
}

proof fn lemma_time_at_most_clock(t0: u64, trace: Seq<(bool, u64)>, k: int)
    requires
        0 <= k < trace.len(),
        trace.len() > 0 ==> t0 <= trace[0].1,
        forall|a: int, b: int| 0 <= a <= b < trace.len() ==> trace[a].1 <= trace[b].1,
    ensures
        time_after(t0, trace.take(k)) <= trace[k].1,
    decreases k,
{
    if k > 0 {
        lemma_time_at_most_clock(t0, trace, k - 1);
        assert(trace.take(k).drop_last() =~= trace.take(k - 1));
    }
}

/// With a clock that never runs backwards, every frame whose mapping
/// succeeds leaves the time uniform equal to that frame's elapsed time, and
/// a frame whose mapping fails leaves it as it was.
pub proof fn lemma_time_uniform_tracks_clock(t0: u64, trace: Seq<(bool, u64)>, k: int)
    requires
        0 <= k < trace.len(),
        t0 <= trace[0].1,
        forall|a: int, b: int| 0 <= a <= b < trace.len() ==> trace[a].1 <= trace[b].1,
    ensures
        trace[k].0 ==> time_after(t0, trace.take(k + 1)) == trace[k].1,
        !trace[k].0 ==> time_after(t0, trace.take(k + 1)) == time_after(t0, trace.take(k)),
{
    lemma_time_at_most_clock(t0, trace, k);
    assert(trace.take(k + 1).drop_last() =~= trace.take(k));
}

} // verus!
