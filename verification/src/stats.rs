//! Transfer statistics: a sliding window of progress samples, the speed and
//! the remaining time derived from it, and the adaptive chunk size.
//!
//! All arithmetic is on integers. Time is measured in microseconds since the
//! statistics were created; speed is in whole bytes per second.

use vstd::prelude::*;
use vstd::string::StringExecFns;
use crate::text::{decimal, fixed1, fixed2, push_decimal, push_fixed1, push_fixed2};
use std::collections::VecDeque;
use std::time::{Duration, Instant};

verus! {

/// Number of samples the speed window holds at most.
pub const SPEED_WINDOW_SIZE: usize = 10;

/// Smallest chunk the controller chooses (16 KiB).
pub const MIN_CHUNK_SIZE: usize = 16384;

/// Largest chunk the controller chooses (512 KiB).
pub const MAX_CHUNK_SIZE: usize = 524288;

/// Chunk size a transfer starts with (64 KiB).
pub const DEFAULT_CHUNK_SIZE: usize = 65536;

/// Time one chunk should take, in milliseconds.
pub const TARGET_CHUNK_MILLIS: u64 = 75;

/// Shortest window span, in microseconds, from which a speed is derived.
pub const MIN_WINDOW_MICROS: u64 = 1000;

#[verifier::external_type_specification]
#[verifier::external_body]
pub struct ExInstant(Instant);

/// `Instant::now` of std: the current reading of the monotonic clock.
/// Nothing is claimed of the value.
pub assume_specification[ Instant::now ]() -> (r: Instant)
;

/// `Instant::elapsed` of std: the time since the instant was taken.
/// Nothing is claimed of the value.
pub assume_specification[ Instant::elapsed ](t: &Instant) -> (r: Duration)
;

/// `Duration::as_secs` of std: the whole seconds of a duration.
pub assume_specification[ Duration::as_secs ](d: &Duration) -> (r: u64)
;

/// `Duration::as_micros` of std: a duration in whole microseconds.
pub assume_specification[ Duration::as_micros ](d: &Duration) -> (r: u128)
;

/// `Duration::from_secs` of std: a duration of that many whole seconds.
pub assume_specification[ Duration::from_secs ](secs: u64) -> (r: Duration)
;

// ---------------------------------------------------------------------
// Chunk size controller
// ---------------------------------------------------------------------

pub open spec fn clamp_chunk(x: int) -> int {
    if x < MIN_CHUNK_SIZE {
        MIN_CHUNK_SIZE as int
    } else if x > MAX_CHUNK_SIZE {
        MAX_CHUNK_SIZE as int
    } else {
        x
    }
}

pub open spec fn chunk_in_range(chunk: usize) -> bool {
    MIN_CHUNK_SIZE <= chunk <= MAX_CHUNK_SIZE
}

/// The chunk size that would take 75 ms at the given speed, clamped.
pub open spec fn target_chunk(speed: u64) -> int {
    clamp_chunk(speed as int * TARGET_CHUNK_MILLIS as int / 1000)
}

/// One step of the controller. At speed 0 nothing changes. Otherwise the
/// size moves toward the target, growing to at most 3/2 and shrinking to at
/// least 2/3 of its value in one step, and ends clamped to the range.
pub open spec fn adapt_spec(chunk: usize, speed: u64) -> int {
    if speed == 0 {
        chunk as int
    } else {
        let target = target_chunk(speed);
        let grown = chunk as int * 3 / 2;
        let shrunk = chunk as int * 2 / 3;
        if target > chunk {
            clamp_chunk(if grown < target { grown } else { target })
        } else if target < chunk {
            clamp_chunk(if shrunk > target { shrunk } else { target })
        } else {
            clamp_chunk(chunk as int)
        }
    }
}

/// The controller after a whole sequence of speed readings.
pub open spec fn adapt_all(chunk: usize, speeds: Seq<u64>) -> int
    decreases speeds.len(),
{
    if speeds.len() == 0 {
        chunk as int
    } else {
        adapt_spec(adapt_all(chunk, speeds.drop_last()) as usize, speeds.last())
    }
}

/// A step keeps the chunk size in range and changes it by a bounded factor.
pub proof fn lemma_adapt_step_bounded(chunk: usize, speed: u64)
    requires
        chunk_in_range(chunk),
    ensures
        MIN_CHUNK_SIZE <= adapt_spec(chunk, speed) <= MAX_CHUNK_SIZE,
        adapt_spec(chunk, speed) <= chunk as int * 3 / 2,
        adapt_spec(chunk, speed) >= chunk as int * 2 / 3,
{
}

/// Whatever speeds are observed, in whatever order, the chunk size stays
/// within [16 KiB, 512 KiB].
pub proof fn lemma_adapt_all_in_range(chunk: usize, speeds: Seq<u64>)
    requires
        chunk_in_range(chunk),
    ensures
        MIN_CHUNK_SIZE <= adapt_all(chunk, speeds) <= MAX_CHUNK_SIZE,
    decreases speeds.len(),
{
    if speeds.len() > 0 {
        lemma_adapt_all_in_range(chunk, speeds.drop_last());
        lemma_adapt_step_bounded(adapt_all(chunk, speeds.drop_last()) as usize, speeds.last());
    }
}

/// One step of the chunk size controller for a measured speed in bytes
/// per second.
pub fn adapt_chunk_size(chunk: usize, speed: u64) -> (r: usize)
    ensures
        r == adapt_spec(chunk, speed),
        speed > 0 ==> chunk_in_range(r),
        chunk_in_range(chunk) ==> chunk_in_range(r),
{
    if speed == 0 {
        return chunk;
    }
    let optimal: u128 = speed as u128 * 75 / 1000;
    let target: u128 = if optimal < MIN_CHUNK_SIZE as u128 {
        MIN_CHUNK_SIZE as u128
    } else if optimal > MAX_CHUNK_SIZE as u128 {
        MAX_CHUNK_SIZE as u128
    } else {
        optimal
    };
    let current: u128 = chunk as u128;
    let stepped: u128 = if target > current {
        let grown: u128 = current * 3 / 2;
        if grown < target {
            grown
        } else {
            target
        }
    } else if target < current {
        let shrunk: u128 = current * 2 / 3;
        if shrunk > target {
            shrunk
        } else {
            target
        }
    } else {
        current
    };
    if stepped < MIN_CHUNK_SIZE as u128 {
        MIN_CHUNK_SIZE
    } else if stepped > MAX_CHUNK_SIZE as u128 {
        MAX_CHUNK_SIZE
    } else {
        stepped as usize
    }
}

// ---------------------------------------------------------------------
// Speed window
// ---------------------------------------------------------------------

/// The last `SPEED_WINDOW_SIZE` samples of `samples`.
pub open spec fn window_tail(samples: Seq<(u64, u64)>) -> Seq<(u64, u64)> {
    if samples.len() <= SPEED_WINDOW_SIZE {
        samples
    } else {
        samples.skip(samples.len() - SPEED_WINDOW_SIZE)
    }
}

/// The window holds at most ten samples, whatever was recorded, and they
/// are the newest ones in their order.
pub proof fn lemma_window_bounded(samples: Seq<(u64, u64)>)
    ensures
        window_tail(samples).len() <= SPEED_WINDOW_SIZE,
        window_tail(samples).len() <= samples.len(),
        forall|i: int|
            0 <= i < window_tail(samples).len() ==> #[trigger] window_tail(samples)[i]
                == samples[samples.len() - window_tail(samples).len() + i],
{
}

/// Time spanned by the window, in microseconds.
pub open spec fn window_micros(w: Seq<(u64, u64)>) -> int {
    if w.len() < 2 || w.last().0 < w.first().0 {
        0
    } else {
        w.last().0 - w.first().0
    }
}

/// Bytes moved across the window.
pub open spec fn window_bytes(w: Seq<(u64, u64)>) -> int {
    if w.len() < 2 || w.last().1 < w.first().1 {
        0
    } else {
        w.last().1 - w.first().1
    }
}

/// Speed over the window in bytes per second, rounded down and capped at
/// `u64::MAX`; 0 while the window spans less than a millisecond.
pub open spec fn window_speed(w: Seq<(u64, u64)>) -> int {
    if window_micros(w) < MIN_WINDOW_MICROS {
        0
    } else {
        let s = window_bytes(w) * 1000000 / window_micros(w);
        if s > u64::MAX {
            u64::MAX as int
        } else {
            s
        }
    }
}

/// Whole seconds left at the window's speed, or `None` while less than one
/// byte per second is moving.
pub open spec fn window_eta_secs(w: Seq<(u64, u64)>, remaining: u64) -> Option<int> {
    if window_micros(w) < MIN_WINDOW_MICROS || window_bytes(w) * 1000000 < window_micros(w) {
        None
    } else {
        let s = remaining as int * window_micros(w) / 1000000 / window_bytes(w);
        Some(if s > u64::MAX { u64::MAX as int } else { s })
    }
}

pub open spec fn sat_add(a: u64, b: u64) -> u64 {
    if a + b > u64::MAX {
        u64::MAX
    } else {
        (a + b) as u64
    }
}

/// The sliding window of progress samples: pairs of a time in
/// microseconds and the bytes transferred by then, oldest first. It never
/// holds more than `SPEED_WINDOW_SIZE` samples.
#[derive(Debug)]
pub struct SpeedWindow {
    samples: VecDeque<(u64, u64)>,
}

impl Clone for SpeedWindow {
    fn clone(&self) -> (w: Self)
        ensures
            w@ == self@,
    {
        proof {
            use_type_invariant(self);
        }
        let n = self.samples.len();
        let mut samples: VecDeque<(u64, u64)> = VecDeque::new();
        let mut i: usize = 0;
        while i < n
            invariant
                i <= n,
                n == self.samples@.len(),
                samples@ == self.samples@.take(i as int),
            decreases n - i,
        {
            samples.push_back(self.samples[i]);
            i += 1;
            proof {
                assert(samples@ =~= self.samples@.take(i as int));
            }
        }
        proof {
            assert(self.samples@.take(n as int) =~= self.samples@);
        }
        SpeedWindow { samples }
    }
}

impl View for SpeedWindow {
    type V = Seq<(u64, u64)>;

    closed spec fn view(&self) -> Seq<(u64, u64)> {
        self.samples@
    }
}

impl SpeedWindow {
    #[verifier::type_invariant]
    spec fn bounded(self) -> bool {
        self.samples@.len() <= SPEED_WINDOW_SIZE
    }

    /// An empty window.
    pub fn new() -> (w: Self)
        ensures
            w@.len() == 0,
    {
        SpeedWindow { samples: VecDeque::new() }
    }

    /// Number of samples held; never more than ten.
    pub fn len(&self) -> (n: usize)
        ensures
            n == self@.len(),
            n <= SPEED_WINDOW_SIZE,
    {
        proof {
            use_type_invariant(self);
        }
        self.samples.len()
    }

    /// The oldest and the newest sample, where the window holds at least
    /// two samples.
    pub fn ends(&self) -> (r: Option<((u64, u64), (u64, u64))>)
        ensures
            r is Some <==> self@.len() >= 2,
            r is Some ==> r->Some_0 == (self@.first(), self@.last()),
    {
        let n = self.samples.len();
        if n < 2 {
            None
        } else {
            Some((self.samples[0], self.samples[n - 1]))
        }
    }

    /// Appends a sample and drops the oldest one when that makes eleven.
    pub fn push(&mut self, sample: (u64, u64))
        ensures
            final(self)@ == window_tail(old(self)@.push(sample)),
            final(self)@.len() <= SPEED_WINDOW_SIZE,
    {
        proof {
            use_type_invariant(&*self);
        }
        let n = self.samples.len();
        let start: usize = if n >= SPEED_WINDOW_SIZE {
            n + 1 - SPEED_WINDOW_SIZE
        } else {
            0
        };
        let mut next: VecDeque<(u64, u64)> = VecDeque::new();
        let mut i: usize = start;
        while i < n
            invariant
                start <= i <= n,
                n == self.samples@.len(),
                self.samples@ == old(self).samples@,
                next@ == self.samples@.subrange(start as int, i as int),
            decreases n - i,
        {
            next.push_back(self.samples[i]);
            i += 1;
            proof {
                assert(next@ =~= self.samples@.subrange(start as int, i as int));
            }
        }
        next.push_back(sample);
        proof {
            assert(next@ =~= window_tail(old(self).samples@.push(sample)));
        }
        self.samples = next;
    }
}

/// Statistics of one transfer.
#[derive(Debug)]
pub struct TransferStats {
    /// When the transfer began.
    pub start_time: Instant,
    /// Bytes planned in total.
    pub total_bytes: u64,
    /// Bytes transferred so far.
    pub transferred_bytes: u64,
    /// Bytes handed to the compressor so far.
    pub bytes_before_compression: u64,
    /// Bytes that went over the network so far.
    pub bytes_after_compression: u64,
    /// The sliding window: (microseconds since start, bytes transferred).
    pub speed_samples: SpeedWindow,
    /// Chunk size currently chosen by the controller.
    pub current_chunk_size: usize,
    pub files_completed: usize,
    pub files_total: usize,
}

impl TransferStats {
    /// The samples in the window, oldest first.
    pub open spec fn window(&self) -> Seq<(u64, u64)> {
        self.speed_samples@
    }

    /// The window never holds more than ten samples.
    pub open spec fn wf(&self) -> bool {
        self.window().len() <= SPEED_WINDOW_SIZE
    }

    pub fn new(total_bytes: u64, files_total: usize) -> (s: Self)
        ensures
            s.wf(),
            s.window().len() == 0,
            s.total_bytes == total_bytes,
            s.files_total == files_total,
            s.transferred_bytes == 0,
            s.bytes_before_compression == 0,
            s.bytes_after_compression == 0,
            s.files_completed == 0,
            s.current_chunk_size == DEFAULT_CHUNK_SIZE,
    {
        TransferStats {
            start_time: Instant::now(),
            total_bytes,
            transferred_bytes: 0,
            bytes_before_compression: 0,
            bytes_after_compression: 0,
            speed_samples: SpeedWindow::new(),
            current_chunk_size: DEFAULT_CHUNK_SIZE,
            files_completed: 0,
            files_total,
        }
    }

    /// Number of samples in the window.
    pub fn window_len(&self) -> (n: usize)
        ensures
            n == self.window().len(),
            n <= SPEED_WINDOW_SIZE,
    {
        self.speed_samples.len()
    }

    /// Records progress observed `now_micros` after the start: sets the
    /// transferred total, adds to the compression totals (saturating),
    /// appends a sample, keeps the newest ten, and lets the controller take
    /// one step at the window's speed.
    pub fn record(
        &mut self,
        now_micros: u64,
        bytes_transferred: u64,
        bytes_original: u64,
        bytes_compressed: u64,
    )
        ensures
            final(self).wf(),
            final(self).window() == window_tail(
                old(self).window().push((now_micros, bytes_transferred)),
            ),
            final(self).transferred_bytes == bytes_transferred,
            final(self).bytes_before_compression == sat_add(
                old(self).bytes_before_compression,
                bytes_original,
            ),
            final(self).bytes_after_compression == sat_add(
                old(self).bytes_after_compression,
                bytes_compressed,
            ),
            final(self).current_chunk_size == adapt_spec(
                old(self).current_chunk_size,
                window_speed(final(self).window()) as u64,
            ),
            chunk_in_range(old(self).current_chunk_size) ==> chunk_in_range(
                final(self).current_chunk_size,
            ),
            final(self).total_bytes == old(self).total_bytes,
            final(self).files_completed == old(self).files_completed,
            final(self).files_total == old(self).files_total,
            final(self).start_time == old(self).start_time,
    {
        self.transferred_bytes = bytes_transferred;
        self.bytes_before_compression = self.bytes_before_compression.saturating_add(
            bytes_original,
        );
        self.bytes_after_compression = self.bytes_after_compression.saturating_add(
            bytes_compressed,
        );
        self.speed_samples.push((now_micros, bytes_transferred));
        self.adapt_chunk_size();
    }

    /// Records progress at the current reading of the clock.
    /// The time of the new sample is whatever the clock says; everything
    /// else is as in [`TransferStats::record`].
    pub fn update(&mut self, bytes_transferred: u64, bytes_original: u64, bytes_compressed: u64)
        ensures
            final(self).wf(),
            exists|now: u64|
                final(self).window() == window_tail(
                    old(self).window().push((now, bytes_transferred)),
                ),
            final(self).transferred_bytes == bytes_transferred,
            final(self).bytes_before_compression == sat_add(
                old(self).bytes_before_compression,
                bytes_original,
            ),
            final(self).bytes_after_compression == sat_add(
                old(self).bytes_after_compression,
                bytes_compressed,
            ),
            final(self).current_chunk_size == adapt_spec(
                old(self).current_chunk_size,
                window_speed(final(self).window()) as u64,
            ),
            chunk_in_range(old(self).current_chunk_size) ==> chunk_in_range(
                final(self).current_chunk_size,
            ),
            final(self).total_bytes == old(self).total_bytes,
            final(self).files_completed == old(self).files_completed,
            final(self).files_total == old(self).files_total,
            final(self).start_time == old(self).start_time,
    {
        let elapsed = self.start_time.elapsed();
        let micros: u128 = elapsed.as_micros();
        let now: u64 = if micros > u64::MAX as u128 {
            u64::MAX
        } else {
            micros as u64
        };
        self.record(now, bytes_transferred, bytes_original, bytes_compressed);
    }

    /// Speed over the window in bytes per second.
    pub fn speed_bytes_per_sec(&self) -> (speed: u64)
        ensures
            speed == window_speed(self.window()),
    {
        let (first, last) = match self.speed_samples.ends() {
            Some(pair) => pair,
            None => {
                return 0;
            },
        };
        if last.0 < first.0 {
            return 0;
        }
        let micros: u64 = last.0 - first.0;
        if micros < MIN_WINDOW_MICROS {
            return 0;
        }
        let bytes: u64 = if last.1 < first.1 {
            0
        } else {
            last.1 - first.1
        };
        let s: u128 = bytes as u128 * 1000000 / (micros as u128);
        if s > u64::MAX as u128 {
            u64::MAX
        } else {
            s as u64
        }
    }

    /// Whole seconds left at the current speed; `None` while the speed is
    /// below one byte per second.
    pub fn eta_secs(&self) -> (eta: Option<u64>)
        ensures
            match eta {
                Some(s) => window_eta_secs(
                    self.window(),
                    if self.total_bytes >= self.transferred_bytes {
                        (self.total_bytes - self.transferred_bytes) as u64
                    } else {
                        0
                    },
                ) == Some(s as int),
                None => window_eta_secs(
                    self.window(),
                    if self.total_bytes >= self.transferred_bytes {
                        (self.total_bytes - self.transferred_bytes) as u64
                    } else {
                        0
                    },
                ) is None,
            },
    {
        let (first, last) = match self.speed_samples.ends() {
            Some(pair) => pair,
            None => {
                return None;
            },
        };
        if last.0 < first.0 {
            return None;
        }
        let micros: u64 = last.0 - first.0;
        if micros < MIN_WINDOW_MICROS {
            return None;
        }
        let bytes: u64 = if last.1 < first.1 {
            0
        } else {
            last.1 - first.1
        };
        let rate: u128 = bytes as u128 * 1000000;
        if rate < micros as u128 {
            return None;
        }
        let remaining: u64 = if self.total_bytes >= self.transferred_bytes {
            self.total_bytes - self.transferred_bytes
        } else {
            0
        };
        assert(remaining as u128 * micros as u128 <= 0xffff_ffff_ffff_ffff * 0xffff_ffff_ffff_ffff)
            by (nonlinear_arith)
            requires
                remaining <= 0xffff_ffff_ffff_ffff,
                micros <= 0xffff_ffff_ffff_ffff,
        ;
        let s: u128 = remaining as u128 * (micros as u128) / 1000000 / (bytes as u128);
        if s > u64::MAX as u128 {
            Some(u64::MAX)
        } else {
            Some(s as u64)
        }
    }

    /// Remaining time at the current speed, in whole seconds.
    pub fn eta(&self) -> (eta: Option<Duration>)
        ensures
            eta is Some <==> window_eta_secs(
                self.window(),
                if self.total_bytes >= self.transferred_bytes {
                    (self.total_bytes - self.transferred_bytes) as u64
                } else {
                    0
                },
            ) is Some,
    {
        match self.eta_secs() {
            Some(secs) => Some(Duration::from_secs(secs)),
            None => None,
        }
    }

    /// Time since the transfer began, as the clock reads it.
    pub fn elapsed(&self) -> Duration {
        self.start_time.elapsed()
    }

    /// Lets the controller take one step at the window's speed.
    pub fn adapt_chunk_size(&mut self)
        ensures
            final(self).current_chunk_size == adapt_spec(
                old(self).current_chunk_size,
                window_speed(old(self).window()) as u64,
            ),
            chunk_in_range(old(self).current_chunk_size) ==> chunk_in_range(
                final(self).current_chunk_size,
            ),
            final(self).window() == old(self).window(),
            final(self).total_bytes == old(self).total_bytes,
            final(self).transferred_bytes == old(self).transferred_bytes,
            final(self).bytes_before_compression == old(self).bytes_before_compression,
            final(self).bytes_after_compression == old(self).bytes_after_compression,
            final(self).files_completed == old(self).files_completed,
            final(self).files_total == old(self).files_total,
            final(self).start_time == old(self).start_time,
    {
        let speed = self.speed_bytes_per_sec();
        self.current_chunk_size = adapt_chunk_size(self.current_chunk_size, speed);
    }

    /// Counts one more finished file; the count stops at `usize::MAX`.
    pub fn file_completed(&mut self)
        ensures
            final(self).files_completed == if old(self).files_completed < usize::MAX {
                (old(self).files_completed + 1) as usize
            } else {
                usize::MAX
            },
            final(self).window() == old(self).window(),
            final(self).total_bytes == old(self).total_bytes,
            final(self).transferred_bytes == old(self).transferred_bytes,
            final(self).bytes_before_compression == old(self).bytes_before_compression,
            final(self).bytes_after_compression == old(self).bytes_after_compression,
            final(self).current_chunk_size == old(self).current_chunk_size,
            final(self).files_total == old(self).files_total,
            final(self).start_time == old(self).start_time,
    {
        if self.files_completed < usize::MAX {
            self.files_completed = self.files_completed + 1;
        }
    }
}

// ---------------------------------------------------------------------
// Text
// ---------------------------------------------------------------------

/// A whole number of seconds as text: seconds below a minute, minutes and
/// seconds below an hour, hours and minutes from there on.
pub open spec fn duration_text(secs: u64) -> Seq<char> {
    if secs < 60 {
        decimal(secs as nat) + "с"@
    } else if secs < 3600 {
        decimal((secs / 60) as nat) + "м "@ + decimal((secs % 60) as nat) + "с"@
    } else {
        decimal((secs / 3600) as nat) + "ч "@ + decimal(((secs % 3600) / 60) as nat) + "м"@
    }
}

/// A whole number of seconds as text.
pub fn format_secs(secs: u64) -> (r: String)
    ensures
        r@ == duration_text(secs),
{
    let mut out = String::new();
    if secs < 60 {
        push_decimal(&mut out, secs as u128);
        out.append("с");
    } else if secs < 3600 {
        push_decimal(&mut out, (secs / 60) as u128);
        out.append("м ");
        push_decimal(&mut out, (secs % 60) as u128);
        out.append("с");
    } else {
        push_decimal(&mut out, (secs / 3600) as u128);
        out.append("ч ");
        push_decimal(&mut out, ((secs % 3600) / 60) as u128);
        out.append("м");
    }
    assert(out@ =~= duration_text(secs));
    out
}

/// A duration as text, by its whole seconds.
pub fn format_duration(duration: Duration) -> (r: String)
    ensures
        exists|secs: u64| r@ == duration_text(secs),
{
    let secs = duration.as_secs();
    format_secs(secs)
}

/// A speed in bytes per second as text, in the largest unit of 1024 that
/// keeps the number at 1 or above.
pub open spec fn speed_text(speed: u64) -> Seq<char> {
    if speed < 1024 {
        decimal(speed as nat) + " B/s"@
    } else if speed < 1048576 {
        fixed1(speed as nat, 1024) + " KB/s"@
    } else if speed < 1073741824 {
        fixed1(speed as nat, 1048576) + " MB/s"@
    } else {
        fixed2(speed as nat, 1073741824) + " GB/s"@
    }
}

/// A speed in bytes per second as text.
pub fn format_speed(bytes_per_sec: u64) -> (r: String)
    ensures
        r@ == speed_text(bytes_per_sec),
{
    let mut out = String::new();
    if bytes_per_sec < 1024 {
        push_decimal(&mut out, bytes_per_sec as u128);
        out.append(" B/s");
    } else if bytes_per_sec < 1048576 {
        push_fixed1(&mut out, bytes_per_sec as u128, 1024);
        out.append(" KB/s");
    } else if bytes_per_sec < 1073741824 {
        push_fixed1(&mut out, bytes_per_sec as u128, 1048576);
        out.append(" MB/s");
    } else {
        push_fixed2(&mut out, bytes_per_sec as u128, 1073741824);
        out.append(" GB/s");
    }
    assert(out@ =~= speed_text(bytes_per_sec));
    out
}

/// What compression saved, as text: nothing to report while the bytes sent
/// are at least 99% of the bytes read, the percentage saved otherwise.
pub open spec fn compression_text(before: u64, after: u64) -> Seq<char> {
    if before == 0 || after as int * 100 >= before as int * 99 {
        "без сжатия"@
    } else {
        fixed1(((before - after) * 100) as nat, before as nat) + "% экономия"@
    }
}

impl TransferStats {
    /// The current speed as text.
    pub fn speed_formatted(&self) -> (r: String)
        ensures
            r@ == speed_text(window_speed(self.window()) as u64),
    {
        format_speed(self.speed_bytes_per_sec())
    }

    /// The remaining time as text; `∞` while it cannot be told.
    pub fn eta_formatted(&self) -> (r: String)
        ensures
            r@ == match window_eta_secs(
                self.window(),
                if self.total_bytes >= self.transferred_bytes {
                    (self.total_bytes - self.transferred_bytes) as u64
                } else {
                    0
                },
            ) {
                Some(s) => duration_text(s as u64),
                None => "∞"@,
            },
    {
        match self.eta_secs() {
            Some(secs) => format_secs(secs),
            None => String::from_str("∞"),
        }
    }

    /// The time since the start as text, as the clock reads it.
    pub fn elapsed_formatted(&self) -> (r: String)
        ensures
            exists|secs: u64| r@ == duration_text(secs),
    {
        format_duration(self.elapsed())
    }

    /// What compression saved so far, as text.
    pub fn compression_formatted(&self) -> (r: String)
        ensures
            r@ == compression_text(self.bytes_before_compression, self.bytes_after_compression),
    {
        let before = self.bytes_before_compression;
        let after = self.bytes_after_compression;
        if before == 0 || after as u128 * 100 >= before as u128 * 99 {
            String::from_str("без сжатия")
        } else {
            let mut out = String::new();
            push_fixed1(&mut out, (before - after) as u128 * 100, before);
            out.append("% экономия");
            out
        }
    }
}

impl Clone for TransferStats {
    fn clone(&self) -> (s: Self)
        ensures
            s.start_time == self.start_time,
            s.total_bytes == self.total_bytes,
            s.transferred_bytes == self.transferred_bytes,
            s.bytes_before_compression == self.bytes_before_compression,
            s.bytes_after_compression == self.bytes_after_compression,
            s.window() == self.window(),
            s.current_chunk_size == self.current_chunk_size,
            s.files_completed == self.files_completed,
            s.files_total == self.files_total,
    {
        TransferStats {
            start_time: self.start_time,
            total_bytes: self.total_bytes,
            transferred_bytes: self.transferred_bytes,
            bytes_before_compression: self.bytes_before_compression,
            bytes_after_compression: self.bytes_after_compression,
            speed_samples: self.speed_samples.clone(),
            current_chunk_size: self.current_chunk_size,
            files_completed: self.files_completed,
            files_total: self.files_total,
        }
    }
}

impl Default for TransferStats {
    fn default() -> (s: Self)
        ensures
            s.wf(),
            s.total_bytes == 0,
            s.files_total == 0,
            s.current_chunk_size == DEFAULT_CHUNK_SIZE,
    {
        TransferStats::new(0, 0)
    }
}

} // verus!
