//! Captured-frame types and capture source identification.
//!
//! The platform capture session itself (device handles, frame pools) lives
//! outside this crate; here are the frame invariants, the source descriptors
//! and the source-id grammar they share.

use vstd::prelude::*;
use crate::errors::CaptureError;
use crate::text::{dec_int_digits, i64_to_string, parse_i64, parse_i64_spec, str_starts_with};
use crate::types::{CaptureSource, CaptureSourceType};

verus! {

use vstd::string::StrSliceExecFns;
use vstd::string::StringExecFns;

/// Channel capacity for captured frames.
pub const FRAME_CHANNEL_CAPACITY: usize = 3;

/// Timestamp of a captured frame, as elapsed time on the shared monotonic
/// stream clock.
#[derive(Debug, Clone, Copy)]
pub struct CaptureTimestamp {
    /// Frame presentation timestamp in 100 ns units (for AV sync).
    pub pts_100ns: u64,
}

impl CaptureTimestamp {
    /// Create a timestamp from the elapsed time since the stream clock's
    /// origin, in 100 ns units.
    pub fn from_elapsed(pts_100ns: u64) -> (r: Self)
        ensures
            r.pts_100ns == pts_100ns,
    {
        Self { pts_100ns }
    }

    /// The presentation timestamp in milliseconds.
    pub fn pts_ms(&self) -> (r: u64)
        ensures
            r == self.pts_100ns / 10_000,
    {
        self.pts_100ns / 10_000
    }
}

/// The byte size of a packed NV12 image: a full luma plane, then interleaved
/// chroma at quarter resolution.
pub open spec fn nv12_size(width: int, height: int) -> int {
    width * height + (width * height) / 2
}

/// A captured video frame in packed NV12 layout.
#[derive(Debug, Clone)]
pub struct CapturedFrame {
    /// NV12 pixel data.
    pub data: Vec<u8>,
    /// Frame width in pixels.
    pub width: u32,
    /// Frame height in pixels.
    pub height: u32,
    /// Capture timestamp.
    pub timestamp: CaptureTimestamp,
    /// Monotonically increasing sequence number.
    pub sequence: u64,
}

impl CapturedFrame {
    /// Create a new captured frame.
    pub fn new(data: Vec<u8>, width: u32, height: u32, timestamp: CaptureTimestamp, sequence: u64) -> (r:
        Self)
        ensures
            r.data == data,
            r.width == width,
            r.height == height,
            r.timestamp == timestamp,
            r.sequence == sequence,
    {
        Self { data, width, height, timestamp, sequence }
    }

    /// Calculate the expected NV12 buffer size for the given dimensions.
    pub fn nv12_buffer_size(width: u32, height: u32) -> (r: usize)
        requires
            nv12_size(width as int, height as int) <= usize::MAX,
        ensures
            r == nv12_size(width as int, height as int),
    {
        let y_size = (width as u128) * (height as u128);
        let total = y_size + y_size / 2;
        total as usize
    }

    /// Whether the frame data matches the expected size for its dimensions.
    pub fn is_valid(&self) -> (r: bool)
        ensures
            r == (self.data@.len() == nv12_size(self.width as int, self.height as int)),
    {
        proof {
            assert((self.width as int) * (self.height as int) < 0x10000000000000000)
                by (nonlinear_arith)
                requires
                    self.width <= 0xFFFFFFFFu32 && self.height <= 0xFFFFFFFFu32,
            ;
        }
        let y_size = (self.width as u128) * (self.height as u128);
        let expected = y_size + y_size / 2;
        (self.data.len() as u128) == expected
    }
}

/// Monitor information for capture.
#[derive(Debug, Clone)]
pub struct MonitorInfo {
    /// Monitor handle.
    pub handle: i64,
    /// Monitor name/device path.
    pub name: String,
    /// Left edge of the monitor bounds.
    pub left: i32,
    /// Top edge of the monitor bounds.
    pub top: i32,
    /// Right edge of the monitor bounds.
    pub right: i32,
    /// Bottom edge of the monitor bounds.
    pub bottom: i32,
    /// Whether this is the primary monitor.
    pub is_primary: bool,
}

impl MonitorInfo {
    /// A monitor's bounds are ordered: the right and bottom edges do not
    /// precede the left and top edges.
    pub open spec fn wf(self) -> bool {
        self.left <= self.right && self.top <= self.bottom
    }

    /// The width of the monitor.
    pub fn width(&self) -> (r: u32)
        requires
            self.wf(),
        ensures
            r == self.right - self.left,
    {
        ((self.right as i64) - (self.left as i64)) as u32
    }

    /// The height of the monitor.
    pub fn height(&self) -> (r: u32)
        requires
            self.wf(),
        ensures
            r == self.bottom - self.top,
    {
        ((self.bottom as i64) - (self.top as i64)) as u32
    }

    /// Convert to a capture source descriptor: the id carries the handle
    /// under the `monitor:` prefix, and the primary monitor is marked in its
    /// display name.
    pub fn to_capture_source(&self) -> (r: CaptureSource)
        requires
            self.wf(),
        ensures
            r.id@ == "monitor:"@ + dec_int_digits(self.handle as int),
            r.name@ == if self.is_primary {
                self.name@ + " (Primary)"@
            } else {
                self.name@
            },
            r.source_type == CaptureSourceType::Monitor,
            r.width == self.right - self.left,
            r.height == self.bottom - self.top,
    {
        let mut id = String::from_str("monitor:");
        let h = i64_to_string(self.handle);
        id.append(h.as_str());
        let name = if self.is_primary {
            let mut n = self.name.clone();
            n.append(" (Primary)");
            n
        } else {
            self.name.clone()
        };
        CaptureSource {
            id,
            name,
            source_type: CaptureSourceType::Monitor,
            width: self.width(),
            height: self.height(),
        }
    }
}

/// Window information for capture.
#[derive(Debug, Clone)]
pub struct WindowInfo {
    /// Window handle.
    pub handle: i64,
    /// Window title.
    pub title: String,
    /// Process ID.
    pub process_id: u32,
    /// Window width in pixels.
    pub width: u32,
    /// Window height in pixels.
    pub height: u32,
}

impl WindowInfo {
    /// Convert to a capture source descriptor: the id carries the handle
    /// under the `window:` prefix.
    pub fn to_capture_source(&self) -> (r: CaptureSource)
        ensures
            r.id@ == "window:"@ + dec_int_digits(self.handle as int),
            r.name@ == self.title@,
            r.source_type == CaptureSourceType::Window,
            r.width == self.width,
            r.height == self.height,
    {
        let mut id = String::from_str("window:");
        let h = i64_to_string(self.handle);
        id.append(h.as_str());
        CaptureSource {
            id,
            name: self.title.clone(),
            source_type: CaptureSourceType::Window,
            width: self.width,
            height: self.height,
        }
    }
}

/// A parsed capture source identifier: which kind of source, and its handle.
#[derive(Debug, Clone, Copy, PartialEq, Eq, Structural)]
pub enum SourceSelector {
    /// A monitor handle.
    Monitor(i64),
    /// A window handle.
    Window(i64),
}

/// The meaning of a capture source id: `monitor:<decimal handle>` or
/// `window:<decimal handle>`; anything else has none.
pub open spec fn parse_source_id_spec(s: Seq<char>) -> Option<SourceSelector> {
    if s.len() >= 8 && s.subrange(0, 8) == "monitor:"@ {
        match parse_i64_spec(s.skip(8)) {
            Some(h) => Some(SourceSelector::Monitor(h)),
            None => None,
        }
    } else if s.len() >= 7 && s.subrange(0, 7) == "window:"@ {
        match parse_i64_spec(s.skip(7)) {
            Some(h) => Some(SourceSelector::Window(h)),
            None => None,
        }
    } else {
        None
    }
}

/// Parse a capture source id. Ids that carry neither the `monitor:` nor the
/// `window:` prefix, or whose handle is not a decimal integer, yield
/// `SourceNotFound` with the offending id.
pub fn parse_capture_source_id(id: &str) -> (r: Result<SourceSelector, CaptureError>)
    ensures
        match r {
            Ok(sel) => parse_source_id_spec(id@) == Some(sel),
            Err(e) => parse_source_id_spec(id@) is None && (e matches
                CaptureError::SourceNotFound(s) && s@ == id@),
        },
{
    let n = id.unicode_len();
    if str_starts_with(id, "monitor:") {
        proof {
            reveal_strlit("monitor:");
        }
        let rest = id.substring_char(8, n);
        proof {
            assert(rest@ =~= id@.skip(8));
        }
        match parse_i64(rest) {
            Some(h) => Ok(SourceSelector::Monitor(h)),
            None => Err(CaptureError::SourceNotFound(String::from_str(id))),
        }
    } else if str_starts_with(id, "window:") {
        proof {
            reveal_strlit("monitor:");
            reveal_strlit("window:");
        }
        let rest = id.substring_char(7, n);
        proof {
            assert(rest@ =~= id@.skip(7));
        }
        match parse_i64(rest) {
            Some(h) => Ok(SourceSelector::Window(h)),
            None => Err(CaptureError::SourceNotFound(String::from_str(id))),
        }
    } else {
        proof {
            reveal_strlit("monitor:");
            reveal_strlit("window:");
        }
        Err(CaptureError::SourceNotFound(String::from_str(id)))
    }
}

} // verus!
