//! The consumers' read loop as a state machine: read one frame after
//! another, keep nothing, stop at the first read that fails.

use vstd::prelude::*;

verus! {

/// Bytes per read of the cooperative consumer: one packet.
pub const CONSUMER_FRAME_LEN: usize = 188;

/// Bytes per read of the blocking consumer: eight packets.
pub const BLOCKING_FRAME_LEN: usize = 1504;

/// How a consumer waits for its bytes.
#[derive(Clone, Copy, Debug, PartialEq, Eq, Structural)]
pub enum ReadStrategy {
    /// Each read is a suspension point: other work may run while it waits.
    Cooperative,
    /// Each read occupies its thread until it returns.
    Blocking,
}

/// What the driver reports back after a read.
#[derive(Clone, Copy, Debug, PartialEq, Eq, Structural)]
pub enum ReadEvent {
    /// The buffer was filled: a whole frame was read.
    FrameRead,
    /// The read failed: the stream ended before the frame was whole, or the
    /// source reported an error.
    ReadFailed,
}

/// What the driver is asked to do next.
#[derive(Clone, Copy, Debug, PartialEq, Eq, Structural)]
pub enum DrainAction {
    /// Read exactly this many bytes, waiting for them as long as it takes,
    /// and report [`ReadEvent::FrameRead`]; report [`ReadEvent::ReadFailed`]
    /// if fewer are to be had.
    ReadFrame(usize),
    /// Give up: a read has failed.
    Stop,
}

impl ReadStrategy {
    /// Bytes per read under this strategy.
    pub open spec fn spec_frame_len(self) -> usize {
        match self {
            ReadStrategy::Cooperative => CONSUMER_FRAME_LEN,
            ReadStrategy::Blocking => BLOCKING_FRAME_LEN,
        }
    }

    /// Bytes per read under this strategy.
    pub fn frame_len(self) -> (len: usize)
        ensures
            len == self.spec_frame_len(),
    {
        match self {
            ReadStrategy::Cooperative => CONSUMER_FRAME_LEN,
            ReadStrategy::Blocking => BLOCKING_FRAME_LEN,
        }
    }
}

/// A consumer's read loop.
#[derive(Clone, Copy, Debug, PartialEq, Eq, Structural)]
pub struct Drain {
    /// How the reads wait.
    pub strategy: ReadStrategy,
    /// Whether a read has failed.
    pub stopped: bool,
}

impl Drain {
    /// The state that follows on `event`: the first failure stops the drain
    /// for good.
    pub open spec fn next(self, event: ReadEvent) -> Drain {
        Drain { strategy: self.strategy, stopped: self.stopped || event == ReadEvent::ReadFailed }
    }

    /// What the driver has to do in this state: read one whole frame, unless
    /// a read has failed.
    pub open spec fn spec_pending(self) -> DrainAction {
        if self.stopped {
            DrainAction::Stop
        } else {
            DrainAction::ReadFrame(self.strategy.spec_frame_len())
        }
    }

    /// Bytes that `event` reports as read: one frame, where a frame was asked
    /// for and came whole; nothing for a read that failed.
    pub open spec fn credit(self, event: ReadEvent) -> int {
        if !self.stopped && event == ReadEvent::FrameRead {
            self.strategy.spec_frame_len() as int
        } else {
            0
        }
    }

    /// The state after all of `events`, taken in order.
    pub open spec fn run(self, events: Seq<ReadEvent>) -> Drain
        decreases events.len(),
    {
        if events.len() == 0 {
            self
        } else {
            self.next(events[0]).run(events.drop_first())
        }
    }

    /// Bytes read over all of `events`.
    pub open spec fn bytes_read(self, events: Seq<ReadEvent>) -> int
        decreases events.len(),
    {
        if events.len() == 0 {
            0
        } else {
            self.credit(events[0]) + self.next(events[0]).bytes_read(events.drop_first())
        }
    }

    /// A drain that has yet to read.
    pub fn new(strategy: ReadStrategy) -> (drain: Drain)
        ensures
            drain == (Drain { strategy, stopped: false }),
    {
        Drain { strategy, stopped: false }
    }

    /// What the driver has to do now.
    pub fn pending(&self) -> (action: DrainAction)
        ensures
            action == self.spec_pending(),
    {
        if self.stopped {
            DrainAction::Stop
        } else {
            DrainAction::ReadFrame(self.strategy.frame_len())
        }
    }

    /// Takes in what the driver reports and tells it what to do next.
    pub fn step(&mut self, event: ReadEvent) -> (action: DrainAction)
        ensures
            *final(self) == old(self).next(event),
            action == final(self).spec_pending(),
    {
        match event {
            ReadEvent::FrameRead => {},
            ReadEvent::ReadFailed => {
                self.stopped = true;
            },
        }
        self.pending()
    }

    /// While every read fills its buffer, a drain goes on reading one frame
    /// per read: after any number of whole frames it asks for one more of
    /// the same length, and has read exactly that many frames' bytes.
    pub proof fn lemma_one_read_per_frame(strategy: ReadStrategy, count: nat)
        ensures
            (Drain { strategy, stopped: false }).run(whole_frames(count)) == (Drain {
                strategy,
                stopped: false,
            }),
            (Drain { strategy, stopped: false }).run(whole_frames(count)).spec_pending()
                == DrainAction::ReadFrame(strategy.spec_frame_len()),
            (Drain { strategy, stopped: false }).bytes_read(whole_frames(count)) == count
                * strategy.spec_frame_len(),
        decreases count,
    {
        let fresh = Drain { strategy, stopped: false };
        let len = strategy.spec_frame_len() as int;
        if count > 0 {
            assert(whole_frames(count)[0] == ReadEvent::FrameRead);
            assert(whole_frames(count).drop_first() =~= whole_frames((count - 1) as nat));
            Self::lemma_one_read_per_frame(strategy, (count - 1) as nat);
            assert(count * len == len + (count - 1) * len) by (nonlinear_arith);
        }
    }

    /// A failed read is final: whatever is reported after it, the drain stays
    /// stopped, asks for no further read and counts no further byte. A frame
    /// that did not come whole is never taken for one that did.
    pub proof fn lemma_failure_is_final(self, later: Seq<ReadEvent>)
        ensures
            self.next(ReadEvent::ReadFailed).stopped,
            self.credit(ReadEvent::ReadFailed) == 0,
            self.next(ReadEvent::ReadFailed).run(later).spec_pending() == DrainAction::Stop,
            self.next(ReadEvent::ReadFailed).bytes_read(later) == 0,
        decreases later.len(),
    {
        let failed = self.next(ReadEvent::ReadFailed);
        if later.len() > 0 {
            assert(failed.next(later[0]) == failed);
            self.lemma_failure_is_final(later.drop_first());
        }
    }
}

/// `count` reports of a whole frame read.
pub open spec fn whole_frames(count: nat) -> Seq<ReadEvent> {
    Seq::new(count, |i: int| ReadEvent::FrameRead)
}

} // verus!
