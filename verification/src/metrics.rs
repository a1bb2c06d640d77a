//! Stream metrics collection and reporting.
//!
//! The collector never reads a clock itself: callers pass in readings of the
//! shared monotonic clock, in milliseconds, so that every rate computation
//! here is a pure function of recorded counts and times.

use vstd::prelude::*;
use crate::types::{StreamMetrics, WarningType};

verus! {

/// Encoder load above which an overload warning is raised, in percent.
pub const ENCODER_OVERLOAD_THRESHOLD_PERCENT: u32 = 90;

/// Buffer fullness above which a congestion warning is raised, in percent.
pub const NETWORK_CONGESTION_THRESHOLD_PERCENT: u32 = 80;

/// A saturating increment.
pub open spec fn inc_sat(x: u64) -> u64 {
    if x < u64::MAX {
        (x + 1) as u64
    } else {
        u64::MAX
    }
}

/// A saturating sum.
pub open spec fn add_sat(x: u64, y: u64) -> u64 {
    if x + y <= u64::MAX {
        (x + y) as u64
    } else {
        u64::MAX
    }
}

/// The frame rate over a reporting window, in millihertz: frames divided by
/// the window length, zero for an empty window.
pub open spec fn window_fps_millihertz(frames: u64, window_ms: u64) -> u64 {
    if window_ms == 0 {
        0
    } else if frames * 1_000_000 / (window_ms as int) <= u64::MAX {
        (frames * 1_000_000 / (window_ms as int)) as u64
    } else {
        u64::MAX
    }
}

/// The average bitrate since start, in kilobits per second: eight bits per
/// byte over the uptime, zero before a full second has elapsed.
pub open spec fn average_bitrate_kbps(bytes: u64, uptime_seconds: u64) -> u32 {
    if uptime_seconds == 0 {
        0
    } else if bytes * 8 / (uptime_seconds as int) / 1000 <= u32::MAX {
        (bytes * 8 / (uptime_seconds as int) / 1000) as u32
    } else {
        u32::MAX
    }
}

/// Collects and reports stream metrics.
#[derive(Debug, Clone)]
pub struct MetricsCollector {
    /// Clock reading when collection started, if running.
    pub start_time_ms: Option<u64>,
    /// Frames processed since start.
    pub frame_count: u64,
    /// Frames dropped at capture.
    pub capture_drops: u64,
    /// Frames dropped at encode.
    pub encode_drops: u64,
    /// Frames dropped at network.
    pub network_drops: u64,
    /// Bytes sent since start.
    pub bytes_sent: u64,
    /// Clock reading at the last report.
    pub last_report_time_ms: u64,
    /// Frame count at the last report.
    pub last_frame_count: u64,
    /// Target frame rate in millihertz.
    pub target_fps_millihertz: u64,
    /// Target bitrate in kbps.
    pub target_bitrate_kbps: u32,
    /// Encoder load percentage (0..=100).
    pub encoder_load_percent: u32,
    /// Buffer fullness percentage (0..=100).
    pub buffer_fullness_percent: u32,
}

impl MetricsCollector {
    /// Create a new collector for the given targets, with the clock at
    /// `now_ms`.
    pub fn new(target_fps_millihertz: u64, target_bitrate_kbps: u32, now_ms: u64) -> (r: Self)
        ensures
            r.start_time_ms is None,
            r.frame_count == 0,
            r.capture_drops == 0,
            r.encode_drops == 0,
            r.network_drops == 0,
            r.bytes_sent == 0,
            r.last_report_time_ms == now_ms,
            r.last_frame_count == 0,
            r.target_fps_millihertz == target_fps_millihertz,
            r.target_bitrate_kbps == target_bitrate_kbps,
            r.encoder_load_percent == 0,
            r.buffer_fullness_percent == 0,
    {
        Self {
            start_time_ms: None,
            frame_count: 0,
            capture_drops: 0,
            encode_drops: 0,
            network_drops: 0,
            bytes_sent: 0,
            last_report_time_ms: now_ms,
            last_frame_count: 0,
            target_fps_millihertz,
            target_bitrate_kbps,
            encoder_load_percent: 0,
            buffer_fullness_percent: 0,
        }
    }

    /// Start metrics collection at `now_ms`.
    pub fn start(&mut self, now_ms: u64)
        ensures
            *final(self) == (Self {
                start_time_ms: Some(now_ms),
                last_report_time_ms: now_ms,
                ..*old(self)
            }),
    {
        self.start_time_ms = Some(now_ms);
        self.last_report_time_ms = now_ms;
    }

    /// Stop metrics collection.
    pub fn stop(&mut self)
        ensures
            *final(self) == (Self { start_time_ms: None, ..*old(self) }),
    {
        self.start_time_ms = None;
    }

    /// Record a frame being processed.
    pub fn record_frame(&mut self)
        ensures
            *final(self) == (Self { frame_count: inc_sat(old(self).frame_count), ..*old(self) }),
    {
        self.frame_count = saturating_inc(self.frame_count);
    }

    /// Record a capture drop.
    pub fn record_capture_drop(&mut self)
        ensures
            *final(self) == (Self { capture_drops: inc_sat(old(self).capture_drops), ..*old(self) }),
    {
        self.capture_drops = saturating_inc(self.capture_drops);
    }

    /// Record an encode drop.
    pub fn record_encode_drop(&mut self)
        ensures
            *final(self) == (Self { encode_drops: inc_sat(old(self).encode_drops), ..*old(self) }),
    {
        self.encode_drops = saturating_inc(self.encode_drops);
    }

    /// Record a network drop.
    pub fn record_network_drop(&mut self)
        ensures
            *final(self) == (Self {
                network_drops: inc_sat(old(self).network_drops),
                ..*old(self)
            }),
    {
        self.network_drops = saturating_inc(self.network_drops);
    }

    /// Record bytes sent.
    pub fn record_bytes_sent(&mut self, bytes: u64)
        ensures
            *final(self) == (Self {
                bytes_sent: add_sat(old(self).bytes_sent, bytes),
                ..*old(self)
            }),
    {
        if self.bytes_sent <= u64::MAX - bytes {
            self.bytes_sent = self.bytes_sent + bytes;
        } else {
            self.bytes_sent = u64::MAX;
        }
    }

    /// Update the encoder load percentage, clamped to 0..=100.
    pub fn update_encoder_load(&mut self, load: u32)
        ensures
            *final(self) == (Self {
                encoder_load_percent: if load <= 100 {
                    load
                } else {
                    100
                },
                ..*old(self)
            }),
    {
        self.encoder_load_percent = if load <= 100 {
            load
        } else {
            100
        };
    }

    /// Update the buffer fullness percentage, clamped to 0..=100.
    pub fn update_buffer_fullness(&mut self, fullness: u32)
        ensures
            *final(self) == (Self {
                buffer_fullness_percent: if fullness <= 100 {
                    fullness
                } else {
                    100
                },
                ..*old(self)
            }),
    {
        self.buffer_fullness_percent = if fullness <= 100 {
            fullness
        } else {
            100
        };
    }

    /// Elapsed seconds since collection started, zero when stopped.
    pub open spec fn uptime_seconds_at(self, now_ms: u64) -> u64 {
        match self.start_time_ms {
            Some(start) => if now_ms >= start {
                ((now_ms - start) / 1000) as u64
            } else {
                0
            },
            None => 0,
        }
    }

    /// Frames processed in the current reporting window.
    pub open spec fn window_frames(self) -> u64 {
        if self.frame_count >= self.last_frame_count {
            (self.frame_count - self.last_frame_count) as u64
        } else {
            0
        }
    }

    /// The length of the current reporting window at `now_ms`.
    pub open spec fn window_ms(self, now_ms: u64) -> u64 {
        if now_ms >= self.last_report_time_ms {
            (now_ms - self.last_report_time_ms) as u64
        } else {
            0
        }
    }

    /// Take a metrics snapshot at `now_ms`: the frame rate over the current
    /// reporting window, the average bitrate since start, the drop counters
    /// and the load readings.
    pub fn snapshot(&self, now_ms: u64) -> (r: StreamMetrics)
        ensures
            r.fps_millihertz == window_fps_millihertz(self.window_frames(), self.window_ms(now_ms)),
            r.target_fps_millihertz == self.target_fps_millihertz,
            r.bitrate_kbps == average_bitrate_kbps(
                self.bytes_sent,
                self.uptime_seconds_at(now_ms),
            ),
            r.target_bitrate_kbps == self.target_bitrate_kbps,
            r.dropped_frames == add_sat(
                add_sat(self.capture_drops, self.encode_drops),
                self.network_drops,
            ),
            r.capture_drops == self.capture_drops,
            r.encode_drops == self.encode_drops,
            r.network_drops == self.network_drops,
            r.encoder_load_percent == self.encoder_load_percent,
            r.buffer_fullness_percent == self.buffer_fullness_percent,
            r.uptime_seconds == self.uptime_seconds_at(now_ms),
    {
        let window_frames: u64 = if self.frame_count >= self.last_frame_count {
            self.frame_count - self.last_frame_count
        } else {
            0
        };
        let window_ms: u64 = if now_ms >= self.last_report_time_ms {
            now_ms - self.last_report_time_ms
        } else {
            0
        };
        let fps_millihertz: u64 = if window_ms == 0 {
            0
        } else {
            let wide = (window_frames as u128) * 1_000_000u128 / (window_ms as u128);
            if wide <= u64::MAX as u128 {
                wide as u64
            } else {
                u64::MAX
            }
        };
        let uptime_seconds: u64 = match self.start_time_ms {
            Some(start) => if now_ms >= start {
                (now_ms - start) / 1000
            } else {
                0
            },
            None => 0,
        };
        let bitrate_kbps: u32 = if uptime_seconds == 0 {
            0
        } else {
            let wide = (self.bytes_sent as u128) * 8u128 / (uptime_seconds as u128) / 1000u128;
            if wide <= u32::MAX as u128 {
                wide as u32
            } else {
                u32::MAX
            }
        };
        let dropped = saturating_add(
            saturating_add(self.capture_drops, self.encode_drops),
            self.network_drops,
        );
        StreamMetrics {
            fps_millihertz,
            target_fps_millihertz: self.target_fps_millihertz,
            bitrate_kbps,
            target_bitrate_kbps: self.target_bitrate_kbps,
            dropped_frames: dropped,
            capture_drops: self.capture_drops,
            encode_drops: self.encode_drops,
            network_drops: self.network_drops,
            encoder_load_percent: self.encoder_load_percent,
            buffer_fullness_percent: self.buffer_fullness_percent,
            uptime_seconds,
        }
    }

    /// Check for warnings: an encoder overload above 90 % load, then network
    /// congestion above 80 % buffer fullness.
    pub fn check_warnings(&self) -> (r: Vec<WarningType>)
        ensures
            r@.len() == (if self.encoder_load_percent > ENCODER_OVERLOAD_THRESHOLD_PERCENT {
                1int
            } else {
                0int
            }) + (if self.buffer_fullness_percent > NETWORK_CONGESTION_THRESHOLD_PERCENT {
                1int
            } else {
                0int
            }),
            self.encoder_load_percent > ENCODER_OVERLOAD_THRESHOLD_PERCENT ==> (r@[0] matches
                WarningType::EncoderOverload { load_percent } && load_percent
                == self.encoder_load_percent),
            self.buffer_fullness_percent > NETWORK_CONGESTION_THRESHOLD_PERCENT ==> (r@[r@.len()
                - 1] matches WarningType::NetworkCongestion { buffer_percent } && buffer_percent
                == self.buffer_fullness_percent),
    {
        let mut warnings: Vec<WarningType> = Vec::new();
        if self.encoder_load_percent > ENCODER_OVERLOAD_THRESHOLD_PERCENT {
            warnings.push(
                WarningType::EncoderOverload { load_percent: self.encoder_load_percent },
            );
        }
        if self.buffer_fullness_percent > NETWORK_CONGESTION_THRESHOLD_PERCENT {
            warnings.push(
                WarningType::NetworkCongestion { buffer_percent: self.buffer_fullness_percent },
            );
        }
        warnings
    }

    /// Reset the reporting window for the frame-rate calculation.
    pub fn mark_reported(&mut self, now_ms: u64)
        ensures
            *final(self) == (Self {
                last_report_time_ms: now_ms,
                last_frame_count: old(self).frame_count,
                ..*old(self)
            }),
    {
        self.last_report_time_ms = now_ms;
        self.last_frame_count = self.frame_count;
    }
}

/// A saturating increment of a counter.
fn saturating_inc(x: u64) -> (r: u64)
    ensures
        r == inc_sat(x),
{
    if x < u64::MAX {
        x + 1
    } else {
        u64::MAX
    }
}

/// A saturating sum of two counters.
fn saturating_add(x: u64, y: u64) -> (r: u64)
    ensures
        r == add_sat(x, y),
{
    if x <= u64::MAX - y {
        x + y
    } else {
        u64::MAX
    }
}

} // verus!
