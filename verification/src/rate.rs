//! The adaptive rate limiter.
//!
//! Once per produced item, [`FPSMonitor::limit`] decides whether that item
//! should be forwarded. Every hundredth call closes a measurement window
//! and records how long it took, which fixes the measured production rate;
//! the per-item forward probability is then the target rate divided by the
//! measured rate, realized by a uniform random draw. Before the first
//! window completes nothing is forwarded: the limiter fails safe toward
//! dropping, not flooding.
//!
//! The clock and the random generator are the only outside calls; the
//! decision itself, [`decide`], is a pure function of the target rate, the
//! window length and the draw.

use vstd::prelude::*;

use rand::RngExt;

verus! {

/// How many calls make up one measurement window.
pub const ESTIMATE_CNT: u8 = 100;

/// `std::time::Instant`, declared so a monotonic timestamp can be held in
/// a field; opaque to the verifier.
#[verifier::external_type_specification]
#[verifier::external_body]
pub struct ExInstant(std::time::Instant);

/// `rand::rngs::ThreadRng`, declared so the generator handle can be held
/// in a field; opaque to the verifier.
#[verifier::external_type_specification]
#[verifier::external_body]
pub struct ExThreadRng(rand::rngs::ThreadRng);

/// Relies on `std::time::Instant::now`: an opaque monotonic timestamp.
#[verifier::external_body]
fn monotonic_now() -> std::time::Instant {
    std::time::Instant::now()
}

/// Relies on `std::time::Instant::elapsed` and `Duration::as_micros`: the
/// whole microseconds since `start`, saturated to 64 bits. The value
/// depends on the clock, so nothing is promised of it.
#[verifier::external_body]
fn elapsed_micros(start: &std::time::Instant) -> u64 {
    u64::try_from(start.elapsed().as_micros()).unwrap_or(u64::MAX)
}

/// Relies on `rand::rng`: a handle to the thread-local generator.
#[verifier::external_body]
fn fresh_rng() -> rand::rngs::ThreadRng {
    rand::rng()
}

/// Relies on `rand::RngExt::random::<u32>`: a draw distributed uniformly
/// over all 32-bit values. Nothing can be promised of a random value.
#[verifier::external_body]
fn random_u32(rng: &mut rand::rngs::ThreadRng) -> u32 {
    rng.random()
}

/// Whether an item is forwarded, as a function of the target rate, the
/// measured window length and the uniform draw: forward exactly when
/// `draw / 2^32 < target_rate / measured_rate`, where the measured rate of
/// a window of `window_micros` microseconds is `ESTIMATE_CNT` items per
/// `window_micros / 10^6` seconds. A probability of one or more forwards
/// every draw; a probability of zero forwards none.
pub open spec fn forward_decision(max_fps: u8, window_micros: u64, draw: u32) -> bool {
    (draw as int) * 100_000_000 < (max_fps as int) * (window_micros as int) * 0x1_0000_0000
}

/// The decision, computed exactly.
pub fn decide(max_fps: u8, window_micros: u64, draw: u32) -> (r: bool)
    ensures
        r == forward_decision(max_fps, window_micros, draw),
{
    let m: u128 = max_fps as u128;
    let w: u128 = window_micros as u128;
    let d: u128 = draw as u128;
    proof {
        assert((m as int) * (w as int) <= 255 * 0xffff_ffff_ffff_ffff) by (nonlinear_arith)
            requires
                m <= 255,
                w <= 0xffff_ffff_ffff_ffff,
        ;
    }
    let mw: u128 = m * w;
    d * 100_000_000 < mw * 0x1_0000_0000
}

/// The measured rate of a completed window in thousandths of items per
/// second: `ESTIMATE_CNT` items over `window_micros` microseconds. Zero
/// while no window has completed; saturated for a window of length zero.
pub open spec fn rate_millis_of(window: Option<u64>) -> u64 {
    match window {
        Option::None => 0u64,
        Option::Some(us) => if us == 0 {
            u64::MAX
        } else {
            (100_000_000_000int / (us as int)) as u64
        },
    }
}

/// Tracks the empirically measured production rate and decides, item by
/// item, whether to forward.
pub struct FPSMonitor {
    rng: rand::rngs::ThreadRng,
    cnt: u8,
    window_micros: Option<u64>,
    start: std::time::Instant,
    max_fps: u8,
}

impl FPSMonitor {
    /// Calls made in the window currently being measured.
    pub closed spec fn count(&self) -> u8 {
        self.cnt
    }

    /// The length of the last completed window in microseconds, or `None`
    /// while no window has completed.
    pub closed spec fn window(&self) -> Option<u64> {
        self.window_micros
    }

    /// The target rate this limiter was created with.
    pub closed spec fn target(&self) -> u8 {
        self.max_fps
    }

    /// The call counter stays strictly inside one window.
    pub open spec fn wf(&self) -> bool {
        self.count() < ESTIMATE_CNT
    }

    /// A limiter for the given target rate, with no window measured yet.
    pub fn new(max_fps: u8) -> (r: FPSMonitor)
        ensures
            r.wf(),
            r.count() == 0,
            r.window() is None,
            r.target() == max_fps,
    {
        FPSMonitor {
            rng: fresh_rng(),
            cnt: 0,
            window_micros: None,
            start: monotonic_now(),
            max_fps,
        }
    }

    /// The measured rate in thousandths of items per second; zero before
    /// the first window completes.
    pub fn measured_rate_millis(&self) -> (r: u64)
        ensures
            r == rate_millis_of(self.window()),
    {
        match self.window_micros {
            None => 0,
            Some(us) => {
                if us == 0 {
                    u64::MAX
                } else {
                    100_000_000_000u64 / us
                }
            },
        }
    }

    /// Decide whether the current item is forwarded. Every `ESTIMATE_CNT`
    /// calls the measurement window rolls over; the decision is then a
    /// uniform draw against the target-over-measured probability, and
    /// `false` whenever no window has completed yet.
    pub fn limit(&mut self) -> (r: bool)
        requires
            old(self).wf(),
        ensures
            final(self).wf(),
            final(self).target() == old(self).target(),
            old(self).count() + 1 < ESTIMATE_CNT ==> final(self).count() == old(self).count() + 1
                && final(self).window() == old(self).window(),
            old(self).count() + 1 == ESTIMATE_CNT ==> final(self).count() == 0
                && final(self).window() is Some,
            final(self).window() is None ==> r == false,
            final(self).window() matches Some(w) ==> exists|draw: u32|
                r == forward_decision(old(self).target(), w, draw),
    {
        self.cnt = self.cnt + 1;
        if self.cnt >= ESTIMATE_CNT {
            let el = elapsed_micros(&self.start);
            self.window_micros = Some(el);
            self.cnt = 0;
            self.start = monotonic_now();
        }
        match self.window_micros {
            None => false,
            Some(w) => {
                let draw = random_u32(&mut self.rng);
                let r = decide(self.max_fps, w, draw);
                proof {
                    assert(r == forward_decision(old(self).target(), w, draw));
                }
                r
            },
        }
    }
}

} // verus!
