//! Bounded queue of decoded frames between a decoder and a renderer.

use crate::time::Duration;
use crate::video::VideoFrame;
use std::collections::VecDeque;
use vstd::prelude::*;

verus! {

/// Frames that are buffered ahead unless told otherwise.
pub const DEFAULT_BUFFER_SIZE: usize = 5;

/// Orders to a decode thread.
#[derive(Debug, Clone, Copy, PartialEq, Eq, Structural)]
pub enum DecodeCommand {
    Play,
    Pause,
    Seek(Duration),
    Stop,
    SetMuted(bool),
    /// Percent.
    SetVolume(u32),
}

/// What came of a push that may wait for space.
#[derive(Debug, Clone, Copy, PartialEq, Eq, Structural)]
pub enum PushOutcome {
    Accepted,
    /// The queue is flushing or stopped; the frame is to be dropped.
    Discarded,
    /// The queue is full; push again once there is space.
    WaitForSpace,
}

/// What came of a pop that may wait for a frame.
#[derive(Debug, Clone, Copy, PartialEq, Eq, Structural)]
pub enum PopOutcome {
    Frame(VideoFrame),
    Nothing,
    /// The queue is empty but the stream goes on; pop again once there is a
    /// frame or the time is up.
    WaitForFrame,
}

/// Frames in the order in which they were decoded.
pub struct FrameQueue {
    pub frames: VecDeque<VideoFrame>,
    pub capacity: usize,
    /// Set while a seek clears the queue; no frame is taken in meanwhile.
    pub flushing: bool,
    /// The decoder has no more frames.
    pub eos: bool,
    pub stopped: bool,
    /// Frames evicted to keep a live stream at its newest window.
    pub live_frames_dropped: u64,
}

impl FrameQueue {
    /// A queue holds at least one frame, and never more than its capacity.
    pub open spec fn wf(&self) -> bool {
        &&& self.capacity >= 1
        &&& self.frames@.len() <= self.capacity
    }

    pub open spec fn closed_to_frames(&self) -> bool {
        self.flushing || self.stopped
    }

    pub fn new(capacity: usize) -> (queue: Self)
        ensures
            queue.wf(),
            queue.frames@ =~= Seq::<VideoFrame>::empty(),
            queue.capacity == (if capacity == 0 {
                1
            } else {
                capacity
            }),
            !queue.flushing,
            !queue.eos,
            !queue.stopped,
            queue.live_frames_dropped == 0,
    {
        FrameQueue {
            frames: VecDeque::new(),
            capacity: if capacity == 0 {
                1
            } else {
                capacity
            },
            flushing: false,
            eos: false,
            stopped: false,
            live_frames_dropped: 0,
        }
    }

    pub fn with_default_capacity() -> (queue: Self)
        ensures
            queue.wf(),
            queue.frames@ =~= Seq::<VideoFrame>::empty(),
            queue.capacity == DEFAULT_BUFFER_SIZE,
            !queue.flushing,
            !queue.eos,
            !queue.stopped,
            queue.live_frames_dropped == 0,
    {
        FrameQueue::new(DEFAULT_BUFFER_SIZE)
    }

    /// Appends a frame, waiting for space where there is none.
    pub fn push(&mut self, frame: VideoFrame) -> (outcome: PushOutcome)
        requires
            old(self).wf(),
        ensures
            final(self).wf(),
            outcome == (if old(self).closed_to_frames() {
                PushOutcome::Discarded
            } else if old(self).frames@.len() >= old(self).capacity {
                PushOutcome::WaitForSpace
            } else {
                PushOutcome::Accepted
            }),
            outcome is Accepted ==> final(self).frames@ =~= old(self).frames@.push(frame),
            outcome !is Accepted ==> final(self).frames@ == old(self).frames@,
            final(self).same_but_frames(*old(self)),
    {
        if self.flushing || self.stopped {
            return PushOutcome::Discarded;
        }
        if self.frames.len() >= self.capacity {
            return PushOutcome::WaitForSpace;
        }
        self.frames.push_back(frame);
        PushOutcome::Accepted
    }

    /// Everything but the frames is as in `other`.
    pub open spec fn same_but_frames(self, other: FrameQueue) -> bool {
        &&& self.capacity == other.capacity
        &&& self.flushing == other.flushing
        &&& self.eos == other.eos
        &&& self.stopped == other.stopped
        &&& self.live_frames_dropped == other.live_frames_dropped
    }

    /// Appends a frame where there is space; false where there is none, or the
    /// queue is flushing or stopped.
    pub fn try_push(&mut self, frame: VideoFrame) -> (accepted: bool)
        requires
            old(self).wf(),
        ensures
            final(self).wf(),
            accepted == (!old(self).closed_to_frames() && old(self).frames@.len() < old(
                self,
            ).capacity),
            accepted ==> final(self).frames@ =~= old(self).frames@.push(frame),
            !accepted ==> final(self).frames@ == old(self).frames@,
            final(self).same_but_frames(*old(self)),
    {
        if self.flushing || self.stopped || self.frames.len() >= self.capacity {
            return false;
        }
        self.frames.push_back(frame);
        true
    }

    /// Appends a frame of a live stream, evicting the oldest one where the
    /// queue is full: a live stream must stay near its edge.
    pub fn push_live(&mut self, frame: VideoFrame) -> (accepted: bool)
        requires
            old(self).wf(),
        ensures
            final(self).wf(),
            accepted == !old(self).closed_to_frames(),
            accepted ==> final(self).frames@ =~= pushed_live(
                old(self).frames@,
                old(self).capacity as nat,
                frame,
            ),
            !accepted ==> final(self).frames@ == old(self).frames@,
            final(self).live_frames_dropped == (if accepted && old(self).frames@.len() >= old(
                self,
            ).capacity {
                old(self).live_frames_dropped.wrapping_add(1)
            } else {
                old(self).live_frames_dropped
            }),
            final(self).capacity == old(self).capacity,
            final(self).flushing == old(self).flushing,
            final(self).eos == old(self).eos,
            final(self).stopped == old(self).stopped,
    {
        if self.flushing || self.stopped {
            return false;
        }
        if self.frames.len() >= self.capacity {
            let _ = self.frames.pop_front();
            self.live_frames_dropped = self.live_frames_dropped.wrapping_add(1);
        }
        self.frames.push_back(frame);
        true
    }

    pub fn live_frames_dropped(&self) -> (dropped: u64)
        ensures
            dropped == self.live_frames_dropped,
    {
        self.live_frames_dropped
    }

    /// Takes the oldest frame.
    pub fn pop(&mut self) -> (frame: Option<VideoFrame>)
        ensures
            old(self).wf() ==> final(self).wf(),
            old(self).frames@.len() == 0 ==> frame is None && final(self).frames@ == old(
                self,
            ).frames@,
            old(self).frames@.len() > 0 ==> frame == Some(old(self).frames@[0])
                && final(self).frames@ =~= old(self).frames@.skip(1),
            final(self).same_but_frames(*old(self)),
    {
        self.frames.pop_front()
    }

    /// Takes the oldest frame, waiting for one unless the stream has ended or
    /// the wait is over.
    pub fn pop_blocking(&mut self, waited: bool) -> (outcome: PopOutcome)
        ensures
            old(self).wf() ==> final(self).wf(),
            outcome == (if old(self).frames@.len() > 0 {
                PopOutcome::Frame(old(self).frames@[0])
            } else if old(self).eos || waited {
                PopOutcome::Nothing
            } else {
                PopOutcome::WaitForFrame
            }),
            outcome is Frame ==> final(self).frames@ =~= old(self).frames@.skip(1),
            outcome !is Frame ==> final(self).frames@ == old(self).frames@,
            final(self).same_but_frames(*old(self)),
    {
        match self.frames.pop_front() {
            Some(frame) => PopOutcome::Frame(frame),
            None => if self.eos || waited {
                PopOutcome::Nothing
            } else {
                PopOutcome::WaitForFrame
            },
        }
    }

    /// The oldest frame, left in its place.
    pub fn peek(&self) -> (frame: Option<VideoFrame>)
        ensures
            frame == (if self.frames@.len() == 0 {
                None
            } else {
                Some(self.frames@[0])
            }),
    {
        if self.frames.len() == 0 {
            None
        } else {
            Some(self.frames[0])
        }
    }

    pub fn peek_pts(&self) -> (pts: Option<Duration>)
        ensures
            pts == (if self.frames@.len() == 0 {
                None
            } else {
                Some(self.frames@[0].pts)
            }),
    {
        if self.frames.len() == 0 {
            None
        } else {
            Some(self.frames[0].pts)
        }
    }

    pub fn len(&self) -> (len: usize)
        ensures
            len == self.frames@.len(),
    {
        self.frames.len()
    }

    pub fn is_empty(&self) -> (empty: bool)
        ensures
            empty == (self.frames@.len() == 0),
    {
        self.frames.len() == 0
    }

    pub fn is_full(&self) -> (full: bool)
        ensures
            full == (self.frames@.len() >= self.capacity),
    {
        self.frames.len() >= self.capacity
    }

    /// Closes the queue to new frames until [`FrameQueue::flush`] has cleared it.
    pub fn begin_flush(&mut self)
        requires
            old(self).wf(),
        ensures
            final(self).wf(),
            *final(self) == (FrameQueue { flushing: true, ..*old(self) }),
    {
        self.flushing = true;
    }

    /// Drops every frame, as on a seek, and forgets that the stream had ended.
    pub fn flush(&mut self)
        ensures
            old(self).wf() ==> final(self).wf(),
            final(self).frames@ =~= Seq::<VideoFrame>::empty(),
            !final(self).flushing,
            !final(self).eos,
            final(self).capacity == old(self).capacity,
            final(self).stopped == old(self).stopped,
            final(self).live_frames_dropped == old(self).live_frames_dropped,
    {
        self.frames.clear();
        self.eos = false;
        self.flushing = false;
    }

    pub fn set_eos(&mut self)
        ensures
            *final(self) == (FrameQueue { eos: true, ..*old(self) }),
    {
        self.eos = true;
    }

    pub fn is_eos(&self) -> (eos: bool)
        ensures
            eos == self.eos,
    {
        self.eos
    }

    pub fn clear_eos(&mut self)
        ensures
            *final(self) == (FrameQueue { eos: false, ..*old(self) }),
    {
        self.eos = false;
    }

    /// Closes the queue for good; what is in it can still be taken.
    pub fn stop(&mut self)
        ensures
            *final(self) == (FrameQueue { stopped: true, ..*old(self) }),
    {
        self.stopped = true;
    }

    pub fn is_stopped(&self) -> (stopped: bool)
        ensures
            stopped == self.stopped,
    {
        self.stopped
    }
}

impl Default for FrameQueue {
    fn default() -> (queue: Self)
        ensures
            queue.wf(),
            queue.frames@ =~= Seq::<VideoFrame>::empty(),
            queue.capacity == DEFAULT_BUFFER_SIZE,
            !queue.flushing,
            !queue.eos,
            !queue.stopped,
            queue.live_frames_dropped == 0,
    {
        FrameQueue::with_default_capacity()
    }
}

/// The frames that a queue holds after a live frame: where it was full, the oldest
/// one has made room.
pub open spec fn pushed_live(
    frames: Seq<VideoFrame>,
    capacity: nat,
    frame: VideoFrame,
) -> Seq<VideoFrame> {
    if frames.len() >= capacity {
        frames.skip(1).push(frame)
    } else {
        frames.push(frame)
    }
}

/// The frames that a queue holds after a run of live frames.
pub open spec fn streamed(
    frames: Seq<VideoFrame>,
    capacity: nat,
    incoming: Seq<VideoFrame>,
) -> Seq<VideoFrame>
    decreases incoming.len(),
{
    if incoming.len() == 0 {
        frames
    } else {
        pushed_live(streamed(frames, capacity, incoming.drop_last()), capacity, incoming.last())
    }
}

/// The frames that a queue holds after so many were taken.
pub open spec fn after_taking(frames: Seq<VideoFrame>, taken: nat) -> Seq<VideoFrame>
    decreases taken,
{
    if taken == 0 {
        frames
    } else {
        after_taking(frames, (taken - 1) as nat).skip(1)
    }
}

/// However many live frames arrive, a queue holds the newest ones that fit, in the
/// order in which they came.
pub proof fn law_live_window_is_the_newest(
    frames: Seq<VideoFrame>,
    capacity: nat,
    incoming: Seq<VideoFrame>,
)
    requires
        1 <= capacity,
        frames.len() <= capacity,
    ensures
        ({
            let all = frames + incoming;
            let kept = if all.len() <= capacity {
                all.len()
            } else {
                capacity
            };
            streamed(frames, capacity, incoming) == all.skip(all.len() - kept)
        }),
    decreases incoming.len(),
{
    let all = frames + incoming;
    if incoming.len() == 0 {
        assert(all.skip(0) =~= frames);
    } else {
        let before = frames + incoming.drop_last();
        law_live_window_is_the_newest(frames, capacity, incoming.drop_last());
        assert(all =~= before.push(incoming.last()));
        let kept = if all.len() <= capacity {
            all.len()
        } else {
            capacity
        };
        assert(streamed(frames, capacity, incoming) =~= all.skip(all.len() - kept));
    }
}

/// Frames are taken in the order in which they were queued: the next one to be
/// taken after `taken` others is the one that stood behind them, whatever was
/// appended in between.
pub proof fn law_first_in_is_first_out(
    frames: Seq<VideoFrame>,
    appended: Seq<VideoFrame>,
    taken: nat,
)
    requires
        taken < frames.len() + appended.len(),
    ensures
        after_taking(frames + appended, taken).len() > 0,
        after_taking(frames + appended, taken)[0] == (frames + appended)[taken as int],
        taken <= frames.len() ==> after_taking(frames + appended, taken) == after_taking(
            frames,
            taken,
        ) + appended,
{
    lemma_after_taking(frames + appended, taken);
    if taken <= frames.len() {
        lemma_after_taking(frames, taken);
        assert((frames + appended).skip(taken as int) =~= frames.skip(taken as int) + appended);
    }
}

proof fn lemma_after_taking(frames: Seq<VideoFrame>, taken: nat)
    requires
        taken <= frames.len(),
    ensures
        after_taking(frames, taken) == frames.skip(taken as int),
    decreases taken,
{
    if taken == 0 {
        assert(frames.skip(0) =~= frames);
    } else {
        lemma_after_taking(frames, (taken - 1) as nat);
        assert(frames.skip(taken - 1).skip(1) =~= frames.skip(taken as int));
    }
}

} // verus!
