//! The producer's pacing loop as a state machine. The machine decides; a
//! driver performs what it asks for (reading the clock, writing one frame,
//! sleeping) and reports back what happened.

use crate::config::{ConfigError, PacerConfig};
use crate::deadline::{remaining, remaining_sleep};
use vstd::prelude::*;

verus! {

/// Where the pacing loop stands.
#[derive(Clone, Copy, Debug, PartialEq, Eq, Structural)]
pub enum Phase {
    /// Between intervals. The next clock reading becomes the start of an
    /// interval, whatever happened before.
    Idle,
    /// In the write phase of the interval that began at `start`, with
    /// `written` bytes out so far and the target not yet reached.
    Writing { start: u64, written: usize },
    /// The write phase is over with `written` bytes out. The next clock
    /// reading tells how much of the interval is left.
    Measuring { start: u64, written: usize },
    /// Suspended for `nanos` nanoseconds, until the interval's deadline.
    Sleeping { nanos: u64 },
    /// A write failed. Nothing follows.
    Failed,
}

/// What the driver reports back.
#[derive(Clone, Copy, Debug, PartialEq, Eq, Structural)]
pub enum Event {
    /// The clock was read and showed this many nanoseconds.
    Clock(u64),
    /// One whole frame went out.
    FrameWritten,
    /// The sink refused a frame, or took only part of it.
    WriteFailed,
    /// The sleep is over.
    Woke,
}

/// What the driver is asked to do next.
#[derive(Clone, Copy, Debug, PartialEq, Eq, Structural)]
pub enum Action {
    /// Read the monotonic clock and report [`Event::Clock`].
    ReadClock,
    /// Write one whole frame, without yielding, and report
    /// [`Event::FrameWritten`] or [`Event::WriteFailed`].
    WriteFrame,
    /// Suspend for this many nanoseconds (zero: not at all) and report
    /// [`Event::Woke`].
    Sleep(u64),
    /// Give up: a write has failed.
    Abort,
}

/// The machine as contracts see it: a configuration and a phase.
pub struct PacerState {
    pub config: PacerConfig,
    pub phase: Phase,
}

impl PacerState {
    /// The phase once `written` bytes of the interval begun at `start` are
    /// out: still writing below the target, measuring from the target on.
    pub open spec fn after_frames(self, start: u64, written: int) -> Phase {
        if written < self.config.spec_target_bytes() {
            Phase::Writing { start, written: written as usize }
        } else {
            Phase::Measuring { start, written: written as usize }
        }
    }

    /// The phase that follows on `event`. An event that does not answer the
    /// pending action changes nothing.
    pub open spec fn next_phase(self, event: Event) -> Phase {
        match (self.phase, event) {
            (Phase::Idle, Event::Clock(now)) => self.after_frames(now, 0),
            (Phase::Writing { start, written }, Event::FrameWritten) => self.after_frames(
                start,
                written + self.config.frame_len,
            ),
            (Phase::Writing { .. }, Event::WriteFailed) => Phase::Failed,
            (Phase::Measuring { start, .. }, Event::Clock(now)) => Phase::Sleeping {
                nanos: remaining(start, self.config.interval_nanos, now) as u64,
            },
            (Phase::Sleeping { .. }, Event::Woke) => Phase::Idle,
            _ => self.phase,
        }
    }

    /// The state that follows on `event`: the configuration never changes.
    pub open spec fn next(self, event: Event) -> PacerState {
        PacerState { config: self.config, phase: self.next_phase(event) }
    }

    /// What the driver has to do in this state.
    pub open spec fn pending(self) -> Action {
        match self.phase {
            Phase::Idle => Action::ReadClock,
            Phase::Writing { .. } => Action::WriteFrame,
            Phase::Measuring { .. } => Action::ReadClock,
            Phase::Sleeping { nanos } => Action::Sleep(nanos),
            Phase::Failed => Action::Abort,
        }
    }

    /// What holds of every state a pacer can be in: the configuration is
    /// valid; a write phase in progress has put out whole frames and is short
    /// of the target; a finished one has put out the fewest frames that
    /// reach it.
    pub open spec fn wf(self) -> bool {
        &&& self.config.valid()
        &&& match self.phase {
            Phase::Writing { written, .. } => {
                &&& written < self.config.spec_target_bytes()
                &&& written % self.config.frame_len == 0
            },
            Phase::Measuring { written, .. } => written == self.config.burst_bytes(),
            _ => true,
        }
    }

    /// Every step keeps a well-formed state well-formed.
    pub proof fn lemma_next_wf(self, event: Event)
        requires
            self.wf(),
        ensures
            self.next(event).wf(),
    {
        let target = self.config.spec_target_bytes();
        let frame = self.config.frame_len as int;
        match (self.phase, event) {
            (Phase::Idle, Event::Clock(_)) => {
                lemma_burst_is_first_multiple(target, frame, 0);
            },
            (Phase::Writing { written, .. }, Event::FrameWritten) => {
                lemma_burst_is_first_multiple(target, frame, written as int);
            },
            _ => {},
        }
    }
}

/// Counting up from `written`, a multiple of `frame` below `target` or zero,
/// in steps of `frame`: the next count is again a multiple, and if it is the
/// first to reach `target`, it is the least multiple of `frame` that does.
pub proof fn lemma_burst_is_first_multiple(target: int, frame: int, written: int)
    requires
        0 < frame,
        0 <= target,
        0 <= written,
        written % frame == 0,
    ensures
        (written + frame) % frame == 0,
        written < target <= written + frame ==> written + frame == (target + frame - 1) / frame
            * frame,
        written == 0 && target == 0 ==> (target + frame - 1) / frame * frame == 0,
{
    vstd::arithmetic::div_mod::lemma_fundamental_div_mod(written, frame);
    let k = written / frame;
    assert(written == frame * k);
    assert((written + frame) % frame == 0) by (nonlinear_arith)
        requires
            written == frame * k,
            0 < frame,
    ;
    if written < target <= written + frame {
        assert((target + frame - 1) / frame == k + 1) by (nonlinear_arith)
            requires
                written == frame * k,
                0 < frame,
                written < target <= written + frame,
        ;
        assert((k + 1) * frame == written + frame) by (nonlinear_arith)
            requires
                written == frame * k,
        ;
    }
    if written == 0 && target == 0 {
        assert((frame - 1) / frame == 0) by (nonlinear_arith)
            requires
                0 < frame,
        ;
    }
}

/// The producer's pacing loop. It holds the interval's start and the bytes
/// written since, and nothing of earlier intervals.
pub struct Pacer {
    config: PacerConfig,
    target: usize,
    phase: Phase,
}

impl View for Pacer {
    type V = PacerState;

    closed spec fn view(&self) -> PacerState {
        PacerState { config: self.config, phase: self.phase }
    }
}

impl Pacer {
    #[verifier::type_invariant]
    spec fn inv(&self) -> bool {
        &&& self@.wf()
        &&& self.target == self.config.spec_target_bytes()
    }

    /// A pacer between intervals, if `config` can be paced.
    pub fn new(config: PacerConfig) -> (made: Result<Pacer, ConfigError>)
        ensures
            match made {
                Ok(pacer) => config.valid() && pacer@ == (PacerState {
                    config,
                    phase: Phase::Idle,
                }),
                Err(error) => config.spec_validate() == Err::<(), ConfigError>(error),
            },
    {
        match config.validate() {
            Ok(()) => {
                let target: u128 = config.target_bytes();
                Ok(Pacer { config, target: target as usize, phase: Phase::Idle })
            },
            Err(error) => Err(error),
        }
    }

    /// The configuration the pacer was made with. It is valid.
    pub fn config(&self) -> (config: PacerConfig)
        ensures
            config == self@.config,
            config.valid(),
    {
        proof {
            use_type_invariant(self);
        }
        self.config
    }

    /// Where the loop stands.
    pub fn phase(&self) -> (phase: Phase)
        ensures
            phase == self@.phase,
            self@.wf(),
    {
        proof {
            use_type_invariant(self);
        }
        self.phase
    }

    /// Bytes owed per pacing interval.
    pub fn target_bytes(&self) -> (bytes: usize)
        ensures
            bytes == self@.config.spec_target_bytes(),
    {
        proof {
            use_type_invariant(self);
        }
        self.target
    }

    /// What the driver has to do now.
    pub fn pending(&self) -> (action: Action)
        ensures
            action == self@.pending(),
    {
        match self.phase {
            Phase::Idle => Action::ReadClock,
            Phase::Writing { .. } => Action::WriteFrame,
            Phase::Measuring { .. } => Action::ReadClock,
            Phase::Sleeping { nanos } => Action::Sleep(nanos),
            Phase::Failed => Action::Abort,
        }
    }

    /// Takes in what the driver reports and tells it what to do next.
    pub fn step(&mut self, event: Event) -> (action: Action)
        ensures
            final(self)@ == old(self)@.next(event),
            action == final(self)@.pending(),
    {
        proof {
            use_type_invariant(&*self);
            self@.lemma_next_wf(event);
        }
        let next = match (self.phase, event) {
            (Phase::Idle, Event::Clock(now)) => self.after_frames(now, 0),
            (Phase::Writing { start, written }, Event::FrameWritten) => self.after_frames(
                start,
                written + self.config.frame_len,
            ),
            (Phase::Writing { .. }, Event::WriteFailed) => Phase::Failed,
            (Phase::Measuring { start, .. }, Event::Clock(now)) => Phase::Sleeping {
                nanos: remaining_sleep(start, self.config.interval_nanos, now),
            },
            (Phase::Sleeping { .. }, Event::Woke) => Phase::Idle,
            (phase, _) => phase,
        };
        self.phase = next;
        self.pending()
    }

    fn after_frames(&self, start: u64, written: usize) -> (phase: Phase)
        ensures
            phase == self@.after_frames(start, written as int),
    {
        proof {
            use_type_invariant(self);
        }
        if written < self.target {
            Phase::Writing { start, written }
        } else {
            Phase::Measuring { start, written }
        }
    }
}

} // verus!
