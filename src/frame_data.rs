use vstd::prelude::*;

verus! {

/// Frames per second that the game loop aims for.
pub const TARGET_FPS: u64 = 60;

/// Target frame duration in whole milliseconds (rounded down).
pub const TARGET_MSPS: u64 = 1000 / TARGET_FPS;

/// Target frame duration in whole microseconds (rounded down).
pub const TARGET_USPS: u64 = 1000 * 1000 / TARGET_FPS;

/// The fixed-point unit of a time-scale: a scale of `SCALE_ONE` is 1.0.
pub const SCALE_ONE: u64 = 1000;

/// Smallest time-scale a frame can get (1.0).
pub const SCALE_MIN: u64 = SCALE_ONE;

/// Largest time-scale a frame can get (100.0), so that a long stall does not
/// turn into a runaway jump.
pub const SCALE_MAX: u64 = 100 * SCALE_ONE;

/// Longest sleep, in microseconds, that the pacing ever recommends.
pub const MAX_SLEEP_US: u64 = 1000 * 1000;

/// `v` clamped into `[lo, hi]`.
pub open spec fn clamp(v: int, lo: int, hi: int) -> int {
    if v < lo {
        lo
    } else if v > hi {
        hi
    } else {
        v
    }
}

/// The time-scale, in thousandths, of a frame that lasted `elapsed_us`
/// microseconds: the elapsed time over the target frame duration of
/// `1 / TARGET_FPS` seconds, rounded down, clamped to `[1.0, 100.0]`.
pub open spec fn scale_for(elapsed_us: int) -> int {
    clamp(elapsed_us * SCALE_ONE * TARGET_FPS / 1000000int, SCALE_MIN as int, SCALE_MAX as int)
}

/// How long to sleep after a frame of `last_us` microseconds to keep the
/// target frame rate, clamped to `[0, 1 s]`.
pub open spec fn sleep_for(last_us: int) -> int {
    clamp(TARGET_USPS - last_us, 0, MAX_SLEEP_US as int)
}

/// `quantity` times the time-scale `scale` (in thousandths), rounded down.
pub open spec fn scaled(quantity: int, scale: int) -> int {
    quantity * scale / (SCALE_ONE as int)
}

/// The frame counters, without any clock.
#[derive(Clone, Copy, Debug)]
pub struct FrameDataRaw {
    /// Frames counted so far.
    pub frame_number: u128,
    /// Duration of the last frame, in microseconds.
    pub last_frame_time_us: u128,
    /// Time-scale of the last frame, in thousandths.
    pub scale: u64,
}

impl FrameDataRaw {
    /// Counters before any frame: frame 0, no elapsed time, scale 1.0.
    pub fn init() -> (r: FrameDataRaw)
        ensures
            r.frame_number == 0,
            r.last_frame_time_us == 0,
            r.scale == SCALE_ONE,
    {
        FrameDataRaw { frame_number: 0, last_frame_time_us: 0, scale: SCALE_ONE }
    }
}

/// Records a frame that lasted `elapsed_us` microseconds: counts it, keeps
/// its duration and sets the time-scale it calls for.
pub fn update_last_frame(frame: &mut FrameDataRaw, elapsed_us: u128)
    requires
        old(frame).frame_number < u128::MAX,
    ensures
        final(frame).frame_number == old(frame).frame_number + 1,
        final(frame).last_frame_time_us == elapsed_us,
        final(frame).scale == scale_for(elapsed_us as int),
        SCALE_MIN <= final(frame).scale <= SCALE_MAX,
{
    frame.frame_number = frame.frame_number + 1;
    frame.last_frame_time_us = elapsed_us;
    // Any frame of two seconds or more is clamped to the largest scale;
    // below that the product cannot overflow.
    let s: u128 = if elapsed_us >= 2 * 1000 * 1000 {
        SCALE_MAX as u128
    } else {
        elapsed_us * (SCALE_ONE as u128) * (TARGET_FPS as u128) / (1000 * 1000)
    };
    proof {
        if elapsed_us >= 2 * 1000 * 1000 {
            assert((elapsed_us as int) * (SCALE_ONE as int) * (TARGET_FPS as int) / 1000000int >= 120000) by (nonlinear_arith)
                requires elapsed_us >= 2000000;
        }
    }
    frame.scale = if s < SCALE_MIN as u128 {
        SCALE_MIN
    } else if s > SCALE_MAX as u128 {
        SCALE_MAX
    } else {
        s as u64
    };
}

/// A monotonic clock reading of std.
#[verifier::external_type_specification]
#[verifier::external_body]
pub struct ExInstant(std::time::Instant);

/// Relies on std's `Instant::now`: the current reading of the monotonic clock.
pub assume_specification[ std::time::Instant::now ]() -> std::time::Instant;

/// Relies on std's `Instant::elapsed`: the time since the reading, which
/// saturates at zero and does not panic.
pub assume_specification[ std::time::Instant::elapsed ](i: &std::time::Instant) -> core::time::Duration;

/// Relies on std's `Duration::as_micros`: the whole microseconds in the duration.
pub assume_specification[ core::time::Duration::as_micros ](d: &core::time::Duration) -> u128;

/// Frame pacing: the frame counters together with the time the last frame began.
pub struct FrameData {
    counters: FrameDataRaw,
    last_frame_timestamp: std::time::Instant,
}

impl FrameData {
    #[verifier::type_invariant]
    spec fn scale_in_bounds(&self) -> bool {
        SCALE_MIN <= self.counters.scale <= SCALE_MAX
    }

    /// Frames counted so far.
    pub closed spec fn frame_count(&self) -> int {
        self.counters.frame_number as int
    }

    /// Duration of the last frame, in microseconds.
    pub closed spec fn last_frame_us(&self) -> int {
        self.counters.last_frame_time_us as int
    }

    /// Time-scale of the last frame, in thousandths.
    pub closed spec fn scale_spec(&self) -> int {
        self.counters.scale as int
    }

    /// Starts the clock now and records one frame, so that the first frame
    /// already has a duration and a scale.
    pub fn init() -> (fd: FrameData)
        ensures
            fd.frame_count() == 1,
            fd.scale_spec() == scale_for(fd.last_frame_us()),
            SCALE_MIN <= fd.scale_spec() <= SCALE_MAX,
    {
        let mut fd = FrameData {
            counters: FrameDataRaw::init(),
            last_frame_timestamp: std::time::Instant::now(),
        };
        fd.update();
        fd
    }

    /// Ends the current frame: counts it, measures how long it took since the
    /// previous call, restarts the clock and sets the time-scale from the
    /// measured duration.
    pub fn update(&mut self)
        requires
            old(self).frame_count() < u128::MAX,
        ensures
            final(self).frame_count() == old(self).frame_count() + 1,
            final(self).scale_spec() == scale_for(final(self).last_frame_us()),
            SCALE_MIN <= final(self).scale_spec() <= SCALE_MAX,
    {
        proof {
            use_type_invariant(&*self);
        }
        let elapsed_us = self.last_frame_timestamp.elapsed().as_micros();
        self.last_frame_timestamp = std::time::Instant::now();
        let mut counters = self.counters;
        update_last_frame(&mut counters, elapsed_us);
        self.counters = counters;
    }

    /// Frames counted so far.
    pub fn frame_number(&self) -> (r: u128)
        ensures
            r == self.frame_count(),
    {
        self.counters.frame_number
    }

    /// The time-scale of the last frame, in thousandths.
    pub fn get_scale(&self) -> (r: u64)
        ensures
            r == self.scale_spec(),
            SCALE_MIN <= r <= SCALE_MAX,
    {
        proof {
            use_type_invariant(self);
        }
        self.counters.scale
    }

    /// `quantity` scaled by the last frame's time-scale, rounded down: the
    /// frame-rate independent amount of a per-frame quantity.
    pub fn scale(&self, quantity: i64) -> (r: i64)
        requires
            i64::MIN <= scaled(quantity as int, self.scale_spec()) <= i64::MAX,
        ensures
            r == scaled(quantity as int, self.scale_spec()),
    {
        proof {
            use_type_invariant(self);
        }
        let p: i128 = (quantity as i128) * (self.counters.scale as i128);
        let r: i128 = if p >= 0 {
            p / (SCALE_ONE as i128)
        } else {
            -((-p + (SCALE_ONE as i128 - 1)) / (SCALE_ONE as i128))
        };
        r as i64
    }

    /// Duration of the last frame, in microseconds.
    pub fn last_frame_time_us(&self) -> (r: u128)
        ensures
            r == self.last_frame_us(),
    {
        self.counters.last_frame_time_us
    }

    /// How long to sleep, in microseconds, to keep the target frame rate:
    /// what is left of the target frame duration, never more than a second.
    pub fn target_tsleep_us(&self) -> (r: u128)
        ensures
            r == sleep_for(self.last_frame_us()),
            r <= MAX_SLEEP_US,
    {
        let last = self.counters.last_frame_time_us;
        if last >= TARGET_USPS as u128 {
            0
        } else {
            (TARGET_USPS as u128) - last
        }
    }
}

} // verus!
