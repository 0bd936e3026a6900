//! Typed senders: thin encoders that tag a payload with a stable stream
//! identifier and hand the frame to the broadcaster's queue.
//!
//! One variant forwards every call, one consults its own rate limiter, and
//! one composes a rate-limited image sender with a companion sender that
//! periodically reports the image stream's measured rate under a derived
//! identifier. Encoding failure and a torn-down queue are reported to the
//! caller as a single "send failed" result and never retried here; the
//! caller decides whether the stream continues.

use vstd::prelude::*;

use vstd::string::StringExecFns;

use crate::rate::{rate_millis_of, FPSMonitor, ESTIMATE_CNT};
use crate::wire::{Forwarder, SendFailed};

verus! {

/// Serializes `[identifier, payload]` and forwards every call.
pub struct OnceSender {
    identifier: String,
    out: Forwarder,
}

impl OnceSender {
    /// The identifier this sender tags its payloads with.
    pub closed spec fn id(&self) -> Seq<char> {
        self.identifier@
    }

    /// A sender for this stream identifier, forwarding into this queue.
    pub fn new(identifier: String, out: Forwarder) -> (r: OnceSender)
        ensures
            r.id() == identifier@,
    {
        OnceSender { identifier, out }
    }

    /// Encode and forward this payload, unconditionally.
    pub fn send(&self, data: &[u8]) -> (r: Result<(), SendFailed>)
        ensures
            r matches Err(e) ==> e == SendFailed::Encode || e == SendFailed::QueueClosed,
    {
        self.out.forward_bytes(self.identifier.as_str(), data)
    }
}

/// Serializes and forwards only when its own rate limiter lets the item
/// through; a withheld item is no side effect and no error.
pub struct PeriodicSender {
    fps_monitor: FPSMonitor,
    identifier: String,
    out: Forwarder,
}

impl PeriodicSender {
    /// The identifier this sender tags its payloads with.
    pub closed spec fn id(&self) -> Seq<char> {
        self.identifier@
    }

    /// The sender's own rate limiter state.
    pub closed spec fn monitor(&self) -> FPSMonitor {
        self.fps_monitor
    }

    /// The limiter's counter stays inside its window.
    pub open spec fn wf(&self) -> bool {
        self.monitor().wf()
    }

    /// A rate-limited sender for this stream identifier and target rate.
    pub fn new(identifier: String, max_fps: u8, out: Forwarder) -> (r: PeriodicSender)
        ensures
            r.wf(),
            r.id() == identifier@,
            r.monitor().window() is None,
            r.monitor().target() == max_fps,
    {
        PeriodicSender { fps_monitor: FPSMonitor::new(max_fps), identifier, out }
    }

    /// Encode and forward this payload if the limiter lets it through;
    /// before the limiter's first window completes nothing is forwarded
    /// and the call succeeds without side effect. The limiter is consulted
    /// exactly once per call: its counter and window advance as
    /// [`FPSMonitor::limit`]'s contract says.
    pub fn send(&mut self, data: &[u8]) -> (r: Result<(), SendFailed>)
        requires
            old(self).wf(),
        ensures
            final(self).wf(),
            final(self).id() == old(self).id(),
            final(self).monitor().target() == old(self).monitor().target(),
            old(self).monitor().count() + 1 < ESTIMATE_CNT ==> {
                &&& final(self).monitor().count() == old(self).monitor().count() + 1
                &&& final(self).monitor().window() == old(self).monitor().window()
            },
            old(self).monitor().count() + 1 == ESTIMATE_CNT ==> {
                &&& final(self).monitor().count() == 0
                &&& final(self).monitor().window() is Some
            },
            final(self).monitor().window() is None ==> r is Ok,
            r matches Err(e) ==> e == SendFailed::Encode || e == SendFailed::QueueClosed,
    {
        if !self.fps_monitor.limit() {
            return Ok(());
        }
        self.out.forward_bytes(self.identifier.as_str(), data)
    }

    /// Encode and forward a measured rate, under the same limiter,
    /// which again advances exactly once per call.
    pub fn send_rate(&mut self, rate_millis: u64) -> (r: Result<(), SendFailed>)
        requires
            old(self).wf(),
        ensures
            final(self).wf(),
            final(self).id() == old(self).id(),
            final(self).monitor().target() == old(self).monitor().target(),
            old(self).monitor().count() + 1 < ESTIMATE_CNT ==> {
                &&& final(self).monitor().count() == old(self).monitor().count() + 1
                &&& final(self).monitor().window() == old(self).monitor().window()
            },
            old(self).monitor().count() + 1 == ESTIMATE_CNT ==> {
                &&& final(self).monitor().count() == 0
                &&& final(self).monitor().window() is Some
            },
            final(self).monitor().window() is None ==> r is Ok,
            r matches Err(e) ==> e == SendFailed::Encode || e == SendFailed::QueueClosed,
    {
        if !self.fps_monitor.limit() {
            return Ok(());
        }
        self.out.forward_rate(self.identifier.as_str(), rate_millis)
    }
}

/// A rate-limited sender of already-encoded image frames. Turning a raw
/// camera frame into an encoded image is the vendor edge's work and stays
/// with the caller; this sender decides, tags and forwards.
pub struct ImageSender {
    fps_monitor: FPSMonitor,
    identifier: String,
    out: Forwarder,
}

impl ImageSender {
    /// The identifier this sender tags its frames with.
    pub closed spec fn id(&self) -> Seq<char> {
        self.identifier@
    }

    /// The sender's own rate limiter state.
    pub closed spec fn monitor(&self) -> FPSMonitor {
        self.fps_monitor
    }

    /// The limiter's counter stays inside its window.
    pub open spec fn wf(&self) -> bool {
        self.monitor().wf()
    }

    /// A rate-limited image sender for this stream identifier.
    pub fn new(identifier: String, max_fps: u8, out: Forwarder) -> (r: ImageSender)
        ensures
            r.wf(),
            r.id() == identifier@,
            r.monitor().window() is None,
            r.monitor().target() == max_fps,
    {
        ImageSender { fps_monitor: FPSMonitor::new(max_fps), identifier, out }
    }

    /// The stream's measured rate in thousandths of frames per second;
    /// zero before the limiter's first window completes.
    pub fn measured_rate_millis(&self) -> (r: u64)
        ensures
            r == rate_millis_of(self.monitor().window()),
    {
        self.fps_monitor.measured_rate_millis()
    }

    /// Encode and forward this image frame if the limiter lets it
    /// through; before the limiter's first window completes nothing is
    /// forwarded and the call succeeds without side effect. The limiter is
    /// consulted exactly once per call: its counter and window advance as
    /// [`FPSMonitor::limit`]'s contract says.
    pub fn send(&mut self, image: &[u8]) -> (r: Result<(), SendFailed>)
        requires
            old(self).wf(),
        ensures
            final(self).wf(),
            final(self).id() == old(self).id(),
            final(self).monitor().target() == old(self).monitor().target(),
            old(self).monitor().count() + 1 < ESTIMATE_CNT ==> {
                &&& final(self).monitor().count() == old(self).monitor().count() + 1
                &&& final(self).monitor().window() == old(self).monitor().window()
            },
            old(self).monitor().count() + 1 == ESTIMATE_CNT ==> {
                &&& final(self).monitor().count() == 0
                &&& final(self).monitor().window() is Some
            },
            final(self).monitor().window() is None ==> r is Ok,
            r matches Err(e) ==> e == SendFailed::Encode || e == SendFailed::QueueClosed,
    {
        if !self.fps_monitor.limit() {
            return Ok(());
        }
        self.out.forward_bytes(self.identifier.as_str(), image)
    }
}

/// The composite image-plus-rate sender: a rate-limited image stream and a
/// companion stream that reports the image stream's measured rate as its
/// own payload, under the identifier derived by appending a rate suffix.
pub struct VideoSender {
    rate_report: PeriodicSender,
    images: ImageSender,
}

impl VideoSender {
    /// The image stream's identifier.
    pub closed spec fn image_id(&self) -> Seq<char> {
        self.images.id()
    }

    /// The companion rate stream's identifier.
    pub closed spec fn rate_id(&self) -> Seq<char> {
        self.rate_report.id()
    }

    /// The image stream's own rate limiter state.
    pub closed spec fn image_monitor(&self) -> FPSMonitor {
        self.images.monitor()
    }

    /// The companion rate stream's own, independent rate limiter state.
    pub closed spec fn rate_monitor(&self) -> FPSMonitor {
        self.rate_report.monitor()
    }

    /// Both limiters stay inside their windows.
    pub closed spec fn wf(&self) -> bool {
        self.rate_report.wf() && self.images.wf()
    }

    /// A composite sender: images under `identifier` at up to `max_fps`,
    /// and the measured image rate under the derived identifier at up to
    /// `fps_report_freq`.
    pub fn new(identifier: String, max_fps: u8, fps_report_freq: u8, out: Forwarder) -> (r:
        VideoSender)
        ensures
            r.wf(),
            r.image_id() == identifier@,
            r.rate_id() == identifier@ + "的帧率"@,
            r.image_monitor().target() == max_fps,
            r.rate_monitor().target() == fps_report_freq,
            r.image_monitor().window() is None,
            r.rate_monitor().window() is None,
    {
        let rate_out = out.duplicate();
        let mut rate_identifier = identifier.clone();
        rate_identifier.append("的帧率");
        VideoSender {
            rate_report: PeriodicSender::new(rate_identifier, fps_report_freq, rate_out),
            images: ImageSender::new(identifier, max_fps, out),
        }
    }

    /// Forward this image frame under the image stream's limiter, then
    /// offer the image stream's measured rate to the companion stream
    /// under its own limiter. The first failure is reported and the rest
    /// of the call abandoned, as with the single senders: the image
    /// limiter advances on every call, the rate limiter whenever the
    /// image half succeeded, and while neither limiter has completed a
    /// window the whole call succeeds without side effect.
    pub fn send(&mut self, image: &[u8]) -> (r: Result<(), SendFailed>)
        requires
            old(self).wf(),
        ensures
            final(self).wf(),
            final(self).image_id() == old(self).image_id(),
            final(self).rate_id() == old(self).rate_id(),
            final(self).image_monitor().target() == old(self).image_monitor().target(),
            final(self).rate_monitor().target() == old(self).rate_monitor().target(),
            old(self).image_monitor().count() + 1 < ESTIMATE_CNT ==> {
                &&& final(self).image_monitor().count() == old(self).image_monitor().count() + 1
                &&& final(self).image_monitor().window() == old(self).image_monitor().window()
            },
            old(self).image_monitor().count() + 1 == ESTIMATE_CNT ==> {
                &&& final(self).image_monitor().count() == 0
                &&& final(self).image_monitor().window() is Some
            },
            r is Ok && old(self).rate_monitor().count() + 1 < ESTIMATE_CNT ==> {
                &&& final(self).rate_monitor().count() == old(self).rate_monitor().count() + 1
                &&& final(self).rate_monitor().window() == old(self).rate_monitor().window()
            },
            r is Ok && old(self).rate_monitor().count() + 1 == ESTIMATE_CNT ==> {
                &&& final(self).rate_monitor().count() == 0
                &&& final(self).rate_monitor().window() is Some
            },
            final(self).image_monitor().window() is None && final(self).rate_monitor().window()
                is None ==> r is Ok,
            r matches Err(e) ==> e == SendFailed::Encode || e == SendFailed::QueueClosed,
    {
        match self.images.send(image) {
            Ok(()) => {},
            Err(e) => {
                return Err(e);
            },
        }
        let rate = self.images.measured_rate_millis();
        match self.rate_report.send_rate(rate) {
            Ok(()) => {},
            Err(e) => {
                return Err(e);
            },
        }
        Ok(())
    }
}

} // verus!
