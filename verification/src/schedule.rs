//! Runs of the pacing machine over whole sequences of events, and what holds
//! of complete intervals.

use crate::config::PacerConfig;
use crate::deadline::remaining;
use crate::pacer::{Event, PacerState, Phase};
use vstd::prelude::*;

verus! {

impl PacerState {
    /// The state after all of `events`, taken in order.
    pub open spec fn run(self, events: Seq<Event>) -> PacerState
        decreases events.len(),
    {
        if events.len() == 0 {
            self
        } else {
            self.next(events[0]).run(events.drop_first())
        }
    }

    /// Bytes that `event` reports as written: one frame, where a frame was
    /// asked for and went out.
    pub open spec fn credit(self, event: Event) -> int {
        if self.phase is Writing && event == Event::FrameWritten {
            self.config.frame_len as int
        } else {
            0
        }
    }

    /// Bytes written over all of `events`.
    pub open spec fn bytes_written(self, events: Seq<Event>) -> int
        decreases events.len(),
    {
        if events.len() == 0 {
            0
        } else {
            self.credit(events[0]) + self.next(events[0]).bytes_written(events.drop_first())
        }
    }

    /// A pacer between intervals.
    pub open spec fn idle(config: PacerConfig) -> PacerState {
        PacerState { config, phase: Phase::Idle }
    }

    /// Running over two sequences in a row is running over the first and then
    /// over the second, and the bytes add up.
    pub proof fn lemma_run_concat(self, first: Seq<Event>, second: Seq<Event>)
        ensures
            self.run(first + second) == self.run(first).run(second),
            self.bytes_written(first + second) == self.bytes_written(first) + self.run(
                first,
            ).bytes_written(second),
        decreases first.len(),
    {
        if first.len() == 0 {
            assert(first + second =~= second);
        } else {
            assert((first + second)[0] == first[0]);
            assert((first + second).drop_first() =~= first.drop_first() + second);
            self.next(first[0]).lemma_run_concat(first.drop_first(), second);
        }
    }

    /// No sequence of events leads a well-formed state to one that is not,
    /// or changes the configuration.
    pub proof fn lemma_run_wf(self, events: Seq<Event>)
        requires
            self.wf(),
        ensures
            self.run(events).wf(),
            self.run(events).config == self.config,
        decreases events.len(),
    {
        if events.len() > 0 {
            self.lemma_next_wf(events[0]);
            self.next(events[0]).lemma_run_wf(events.drop_first());
        }
    }

    /// From any point of a write phase, the frames still owed complete it:
    /// the bytes written then stand at the fewest whole frames that reach the
    /// target, and the clock is asked for.
    pub proof fn lemma_write_phase_completes(self, start: u64, written: usize)
        requires
            self.wf(),
            self.phase == (Phase::Writing { start, written }),
        ensures
            self.config.burst_bytes() - written == owed_frames(self.config, written as int)
                * self.config.frame_len,
            owed_frames(self.config, written as int) >= 1,
            self.run(frames(owed_frames(self.config, written as int) as nat)).phase == (
            Phase::Measuring { start, written: self.config.burst_bytes() as usize }),
            self.bytes_written(frames(owed_frames(self.config, written as int) as nat))
                == self.config.burst_bytes() - written,
        decreases self.config.burst_bytes() - written,
    {
        let config = self.config;
        let frame = config.frame_len as int;
        let owed = owed_frames(config, written as int);
        config.lemma_burst_bounds();
        lemma_multiples_apart(config.burst_bytes(), written as int, frame);
        let events = frames(owed as nat);
        assert(events[0] == Event::FrameWritten);
        assert(events.drop_first() =~= frames((owed - 1) as nat));
        let then = self.next(Event::FrameWritten);
        self.lemma_next_wf(Event::FrameWritten);
        if written + frame < config.spec_target_bytes() {
            let more = (written + frame) as usize;
            lemma_multiples_apart(config.burst_bytes(), more as int, frame);
            then.lemma_write_phase_completes(start, more);
            assert(owed_frames(config, more as int) == owed - 1) by (nonlinear_arith)
                requires
                    config.burst_bytes() - written == owed * frame,
                    config.burst_bytes() - more == owed_frames(config, more as int) * frame,
                    more == written + frame,
                    frame > 0,
            ;
        } else {
            assert(owed == 1) by (nonlinear_arith)
                requires
                    config.burst_bytes() - written == owed * frame,
                    config.burst_bytes() == written + frame,
                    frame > 0,
            ;
            assert(then.run(frames(0)) == then);
            assert(then.bytes_written(frames(0)) == 0);
        }
    }

    /// One whole interval, from a pacer between intervals: the machine asks
    /// for the fewest frames that reach the target, then sleeps for what the
    /// two clock readings leave of the interval, and is between intervals
    /// again.
    pub proof fn lemma_interval(config: PacerConfig, begun: u64, done: u64)
        requires
            config.valid(),
        ensures
            Self::idle(config).run(work_events(config, begun, done)).phase == (Phase::Sleeping {
                nanos: remaining(begun, config.interval_nanos, done) as u64,
            }),
            Self::idle(config).run(interval_events(config, begun, done)) == Self::idle(config),
            Self::idle(config).bytes_written(work_events(config, begun, done))
                == config.burst_bytes(),
            Self::idle(config).bytes_written(interval_events(config, begun, done))
                == config.burst_bytes(),
            config.spec_target_bytes() <= config.burst_bytes() < config.spec_target_bytes()
                + config.frame_len,
    {
        let idle = Self::idle(config);
        let burst = frames(config.burst_frames() as nat);
        let anchor = seq![Event::Clock(begun)];
        let measure = seq![Event::Clock(done)];
        let wake = seq![Event::Woke];
        config.lemma_burst_bounds();
        // The first clock reading opens the interval.
        let opened = idle.next(Event::Clock(begun));
        assert(anchor.drop_first() =~= Seq::<Event>::empty());
        assert(idle.run(anchor) == opened) by {
            assert(opened.run(Seq::<Event>::empty()) == opened);
        }
        assert(idle.bytes_written(anchor) == 0) by {
            assert(opened.bytes_written(Seq::<Event>::empty()) == 0);
        }
        idle.lemma_next_wf(Event::Clock(begun));
        // The write phase.
        let written_out = opened.run(burst);
        if config.spec_target_bytes() > 0 {
            opened.lemma_write_phase_completes(begun, 0);
            assert(owed_frames(config, 0) == config.burst_frames()) by (nonlinear_arith)
                requires
                    config.burst_bytes() - 0 == owed_frames(config, 0) * config.frame_len,
                    config.burst_bytes() == config.burst_frames() * config.frame_len,
                    config.frame_len > 0,
            ;
        } else {
            assert(config.burst_frames() == 0) by (nonlinear_arith)
                requires
                    config.burst_bytes() == config.burst_frames() * config.frame_len,
                    config.burst_bytes() < config.frame_len,
                    0 <= config.burst_frames(),
                    config.frame_len > 0,
            ;
            assert(opened.run(burst) == opened);
            assert(opened.bytes_written(burst) == 0);
        }
        assert(written_out.phase == (Phase::Measuring {
            start: begun,
            written: config.burst_bytes() as usize,
        }));
        assert(opened.bytes_written(burst) == config.burst_bytes());
        opened.lemma_run_wf(burst);
        // The second clock reading, and the sleep.
        let asleep = written_out.next(Event::Clock(done));
        assert(measure.drop_first() =~= Seq::<Event>::empty());
        assert(written_out.run(measure) == asleep) by {
            assert(asleep.run(Seq::<Event>::empty()) == asleep);
        }
        assert(written_out.bytes_written(measure) == 0) by {
            assert(asleep.bytes_written(Seq::<Event>::empty()) == 0);
        }
        assert(wake.drop_first() =~= Seq::<Event>::empty());
        assert(asleep.run(wake) == idle) by {
            assert(idle.run(Seq::<Event>::empty()) == idle);
        }
        assert(asleep.bytes_written(wake) == 0) by {
            assert(idle.bytes_written(Seq::<Event>::empty()) == 0);
        }
        idle.lemma_run_concat(anchor, burst);
        idle.lemma_run_concat(anchor + burst, measure);
        idle.lemma_run_concat(anchor + burst + measure, wake);
        assert(work_events(config, begun, done) =~= anchor + burst + measure);
        assert(interval_events(config, begun, done) =~= anchor + burst + measure + wake);
    }
}

/// What a driver reports over consecutive whole intervals in which every
/// write succeeds; `readings[i]` holds the two clock readings of interval
/// `i`, the one that opens it and the one after its write phase.
pub open spec fn schedule_events(config: PacerConfig, readings: Seq<(u64, u64)>) -> Seq<Event>
    decreases readings.len(),
{
    if readings.len() == 0 {
        Seq::empty()
    } else {
        schedule_events(config, readings.drop_last()) + interval_events(
            config,
            readings.last().0,
            readings.last().1,
        )
    }
}

/// Over any number of consecutive intervals in which every write succeeds,
/// each interval puts out the same whole frames: the total is the number of
/// intervals times one interval's bytes, so at least the target for each
/// interval and less than one frame more for each. The pacer ends between
/// intervals, as it began.
pub proof fn lemma_intervals_total(config: PacerConfig, readings: Seq<(u64, u64)>)
    requires
        config.valid(),
    ensures
        PacerState::idle(config).run(schedule_events(config, readings)) == PacerState::idle(
            config,
        ),
        PacerState::idle(config).bytes_written(schedule_events(config, readings))
            == readings.len() * config.burst_bytes(),
        readings.len() * config.spec_target_bytes() <= readings.len() * config.burst_bytes(),
        readings.len() * config.burst_bytes() <= readings.len() * (config.spec_target_bytes()
            + config.frame_len - 1),
    decreases readings.len(),
{
    let idle = PacerState::idle(config);
    let count = readings.len() as int;
    let target = config.spec_target_bytes();
    let burst = config.burst_bytes();
    let most = target + config.frame_len - 1;
    config.lemma_burst_bounds();
    assert(count * target <= count * burst && count * burst <= count * most)
        by (nonlinear_arith)
        requires
            0 <= count,
            target <= burst <= most,
    ;
    if readings.len() == 0 {
        assert(idle.run(Seq::<Event>::empty()) == idle);
        assert(idle.bytes_written(Seq::<Event>::empty()) == 0);
    } else {
        let earlier = readings.drop_last();
        let last = readings.last();
        lemma_intervals_total(config, earlier);
        PacerState::lemma_interval(config, last.0, last.1);
        idle.lemma_run_concat(
            schedule_events(config, earlier),
            interval_events(config, last.0, last.1),
        );
        assert(count * burst == (count - 1) * burst + burst) by (nonlinear_arith);
    }
}

/// An interval is anchored to the clock reading that opens it and to nothing
/// else: however the earlier intervals went, and however far behind their
/// deadlines they ran, the interval starts at the time read, with no bytes
/// written, and its sleep is what its own two readings leave of the interval.
pub proof fn lemma_interval_anchored_to_clock(
    config: PacerConfig,
    earlier: Seq<(u64, u64)>,
    begun: u64,
    done: u64,
)
    requires
        config.valid(),
    ensures
        PacerState::idle(config).run(schedule_events(config, earlier) + seq![Event::Clock(begun)])
            .phase == PacerState::idle(config).after_frames(begun, 0),
        PacerState::idle(config).run(
            schedule_events(config, earlier) + work_events(config, begun, done),
        ).phase == (Phase::Sleeping {
            nanos: remaining(begun, config.interval_nanos, done) as u64,
        }),
{
    let idle = PacerState::idle(config);
    let anchor = seq![Event::Clock(begun)];
    lemma_intervals_total(config, earlier);
    PacerState::lemma_interval(config, begun, done);
    idle.lemma_run_concat(schedule_events(config, earlier), anchor);
    idle.lemma_run_concat(schedule_events(config, earlier), work_events(config, begun, done));
    assert(anchor.drop_first() =~= Seq::<Event>::empty());
    assert(idle.run(anchor) == idle.next(Event::Clock(begun))) by {
        assert(idle.next(Event::Clock(begun)).run(Seq::<Event>::empty()) == idle.next(
            Event::Clock(begun),
        ));
    }
}

/// `count` reports of a frame written.
pub open spec fn frames(count: nat) -> Seq<Event> {
    Seq::new(count, |i: int| Event::FrameWritten)
}

/// Frames still owed in a write phase that has `written` bytes out.
pub open spec fn owed_frames(config: PacerConfig, written: int) -> int {
    (config.burst_bytes() - written) / (config.frame_len as int)
}

/// What a driver reports over the working part of one interval in which
/// every write succeeds: the clock at `begun`, one report per frame of the
/// burst, the clock at `done`.
pub open spec fn work_events(config: PacerConfig, begun: u64, done: u64) -> Seq<Event> {
    seq![Event::Clock(begun)] + frames(config.burst_frames() as nat) + seq![Event::Clock(done)]
}

/// What a driver reports over one whole interval: the working part, then the
/// end of the sleep.
pub open spec fn interval_events(config: PacerConfig, begun: u64, done: u64) -> Seq<Event> {
    work_events(config, begun, done) + seq![Event::Woke]
}

/// Two multiples of `frame`, the larger above the smaller, lie a whole
/// positive number of frames apart.
pub proof fn lemma_multiples_apart(high: int, low: int, frame: int)
    requires
        0 < frame,
        0 <= low < high,
        high % frame == 0,
        low % frame == 0,
    ensures
        high - low == (high - low) / frame * frame,
        (high - low) / frame >= 1,
{
    vstd::arithmetic::div_mod::lemma_fundamental_div_mod(high, frame);
    vstd::arithmetic::div_mod::lemma_fundamental_div_mod(low, frame);
    let a = high / frame;
    let b = low / frame;
    assert(high - low == (a - b) * frame) by (nonlinear_arith)
        requires
            high == frame * a,
            low == frame * b,
    ;
    vstd::arithmetic::div_mod::lemma_div_multiples_vanish(a - b, frame);
    assert(a - b >= 1) by (nonlinear_arith)
        requires
            high - low == (a - b) * frame,
            high - low > 0,
            frame > 0,
    ;
}

} // verus!
