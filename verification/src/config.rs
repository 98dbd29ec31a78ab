//! The producer's fixed quantities: target rate, frame size and pacing
//! interval, and the byte counts that follow from them.

use vstd::prelude::*;

verus! {

/// Target rate of the reference configuration, in bits per second.
pub const BITS_PER_SEC: usize = 6_000_000;

/// Length of one producer frame in bytes: a thousand packets of 188 bytes.
pub const PRODUCER_FRAME_LEN: usize = 188_000;

/// Length of the pacing interval of the reference configuration: one second.
pub const INTERVAL_NANOS: u64 = 1_000_000_000;

/// Nanoseconds in one second.
pub const NANOS_PER_SEC: u64 = 1_000_000_000;

/// The byte that fills every producer frame (ASCII `G`).
pub const FILL_BYTE: u8 = 0x47;

/// What a producer is set up with. Any combination of values can be written
/// down; [`PacerConfig::validate`] tells which ones a pacer can run on.
#[derive(Clone, Copy, Debug, PartialEq, Eq, Structural)]
pub struct PacerConfig {
    /// Target rate in bits per second.
    pub bits_per_sec: usize,
    /// Bytes per frame; frames are written whole.
    pub frame_len: usize,
    /// Length of one pacing interval in nanoseconds.
    pub interval_nanos: u64,
}

/// Why a configuration cannot be paced.
#[derive(Clone, Copy, Debug, PartialEq, Eq, Structural)]
pub enum ConfigError {
    /// Frames of zero bytes never reach a target.
    EmptyFrame,
    /// The byte count of one interval, with the overshoot of its last frame,
    /// may exceed what `usize` holds.
    ByteCountOverflow,
}

impl PacerConfig {
    /// Bytes owed per pacing interval: an eighth of the bit rate, times the
    /// interval in seconds, rounded down.
    pub open spec fn spec_target_bytes(self) -> int {
        (self.bits_per_sec / 8) * self.interval_nanos / (NANOS_PER_SEC as int)
    }

    /// Frames written per interval: the fewest whose bytes reach the target.
    pub open spec fn burst_frames(self) -> int
        recommends
            self.frame_len > 0,
    {
        (self.spec_target_bytes() + self.frame_len - 1) / (self.frame_len as int)
    }

    /// Bytes written per interval: whole frames, so the target or a little more.
    pub open spec fn burst_bytes(self) -> int
        recommends
            self.frame_len > 0,
    {
        self.burst_frames() * self.frame_len
    }

    /// A configuration a pacer can run on: frames hold at least one byte, and
    /// no byte count of an interval leaves `usize`.
    pub open spec fn valid(self) -> bool {
        &&& self.frame_len > 0
        &&& self.spec_target_bytes() + self.frame_len <= usize::MAX
    }

    /// The verdict of [`PacerConfig::validate`].
    pub open spec fn spec_validate(self) -> Result<(), ConfigError> {
        if self.frame_len == 0 {
            Err(ConfigError::EmptyFrame)
        } else if self.spec_target_bytes() + self.frame_len > usize::MAX {
            Err(ConfigError::ByteCountOverflow)
        } else {
            Ok(())
        }
    }

    /// One interval's bytes reach the target and overshoot it by less than one
    /// frame.
    pub proof fn lemma_burst_bounds(self)
        requires
            self.valid(),
        ensures
            0 <= self.spec_target_bytes() <= self.burst_bytes(),
            self.burst_bytes() < self.spec_target_bytes() + self.frame_len,
            self.burst_bytes() % (self.frame_len as int) == 0,
            0 <= self.burst_frames(),
    {
        let target = self.spec_target_bytes();
        let frame = self.frame_len as int;
        let per_sec = self.bits_per_sec as int / 8;
        let interval = self.interval_nanos as int;
        assert(0 <= per_sec * interval) by (nonlinear_arith)
            requires
                0 <= per_sec,
                0 <= interval,
        ;
        assert(0 <= target);
        let padded = target + frame - 1;
        vstd::arithmetic::div_mod::lemma_fundamental_div_mod(padded, frame);
        vstd::arithmetic::div_mod::lemma_mod_pos_bound(padded, frame);
        let frames = padded / frame;
        assert(frames * frame == frame * frames) by (nonlinear_arith);
        assert(0 <= frames) by (nonlinear_arith)
            requires
                0 <= padded,
                0 < frame,
                frames == padded / frame,
        ;
        vstd::arithmetic::div_mod::lemma_mod_multiples_basic(frames, frame);
    }

    /// The reference configuration: six megabits per second in frames of
    /// 188,000 bytes, paced second by second.
    pub fn reference() -> (config: PacerConfig)
        ensures
            config.bits_per_sec == BITS_PER_SEC,
            config.frame_len == PRODUCER_FRAME_LEN,
            config.interval_nanos == INTERVAL_NANOS,
            config.spec_target_bytes() == 750_000,
            config.valid(),
    {
        PacerConfig {
            bits_per_sec: BITS_PER_SEC,
            frame_len: PRODUCER_FRAME_LEN,
            interval_nanos: INTERVAL_NANOS,
        }
    }

    /// Bytes owed per pacing interval. The count stays far below the top
    /// of `u128`, whatever the configuration.
    pub fn target_bytes(&self) -> (bytes: u128)
        ensures
            bytes == self.spec_target_bytes(),
            bytes < 0x2000_0000_0000_0000_0000_0000_0000_0000,
    {
        let per_sec: u128 = (self.bits_per_sec / 8) as u128;
        let interval: u128 = self.interval_nanos as u128;
        assert(per_sec * interval <= 0x2000_0000_0000_0000 * 0xffff_ffff_ffff_ffff)
            by (nonlinear_arith)
            requires
                0 <= per_sec <= 0x2000_0000_0000_0000,
                0 <= interval <= 0xffff_ffff_ffff_ffff,
        ;
        per_sec * interval / (NANOS_PER_SEC as u128)
    }

    /// Tells whether a pacer can run on this configuration, and if not, why.
    pub fn validate(&self) -> (verdict: Result<(), ConfigError>)
        ensures
            verdict == self.spec_validate(),
            verdict.is_ok() <==> self.valid(),
    {
        if self.frame_len == 0 {
            return Err(ConfigError::EmptyFrame);
        }
        let target: u128 = self.target_bytes();
        if target + self.frame_len as u128 > usize::MAX as u128 {
            return Err(ConfigError::ByteCountOverflow);
        }
        Ok(())
    }
}

} // verus!
