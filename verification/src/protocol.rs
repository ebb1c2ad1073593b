use vstd::prelude::*;

verus! {

/// Represents the requested state of the video stream.
#[derive(Debug, Clone, Copy, PartialEq, Eq, Structural)]
pub enum StreamState {
    /// The client window is active and focused. Host should send frames normally.
    Active,
    /// The client window is minimized or out of focus. Host should pause capturing to save CPU/GPU.
    Paused,
}

/// Represents a single video frame in the pipeline.
#[derive(Debug)]
pub struct VideoFrame {
    /// Incrementing counter to detect lost or out-of-order frames
    pub sequence_number: u64,
    /// Time when the frame was captured (useful for latency calculations)
    pub timestamp_ms: u64,
    /// True if this is an I-Frame (can be decoded independently)
    pub is_keyframe: bool,
    /// The compressed video payload
    pub data: Vec<u8>,
}

/// Telemetry metrics sent from the Client back to the Host every ~500ms.
/// The Host uses this data to adjust the Video Encoder (Adaptive Bitrate).
#[derive(Debug, Clone, Copy, PartialEq, Eq, Structural)]
pub struct QosMetrics {
    /// Round Trip Time (latency) in milliseconds
    pub rtt_ms: u32,
    /// Number of video frames lost or dropped since the last report
    pub dropped_frames: u32,
    /// Average time it takes the Client's hardware to decode a frame (ms)
    pub avg_decode_time_ms: u32,
    /// (Optional) Client's estimation of available network bandwidth in kbps
    pub estimated_bandwidth_kbps: Option<u32>,
}

} // verus!
