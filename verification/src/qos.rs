use vstd::prelude::*;
use crate::protocol::QosMetrics;

verus! {

#[derive(Debug, Clone, Copy, PartialEq, Eq, Structural)]
pub struct EncoderConfig {
    pub bitrate_kbps: u32,
    pub fps: u32,
}

/// The Quality of Service (QoS) Manager dynamically adjusts encoder
/// settings based on network conditions to ensure low latency.
pub struct QosManager {
    pub current_config: EncoderConfig,
}

/// Round-trip time above which the bitrate is cut.
pub const HIGH_RTT_MS: u32 = 150;
/// Round-trip time below which (with no drops) quality is raised.
pub const LOW_RTT_MS: u32 = 40;
/// Drop count above which the frame rate is cut.
pub const DROPPED_FRAMES_LIMIT: u32 = 5;
/// The bitrate is never cut below this.
pub const MIN_BITRATE_KBPS: u32 = 500;
/// The bitrate is never raised above this (20 Mbps).
pub const MAX_BITRATE_KBPS: u32 = 20_000;
/// The frame rate is never cut below this.
pub const MIN_FPS: u32 = 15;
/// The frame rate is never raised above this.
pub const MAX_FPS: u32 = 60;

/// The network is bad: the bitrate is cut.
pub open spec fn rtt_is_high(m: QosMetrics) -> bool {
    m.rtt_ms > HIGH_RTT_MS
}

/// The client drops frames: the frame rate is cut.
pub open spec fn drops_frames(m: QosMetrics) -> bool {
    m.dropped_frames > DROPPED_FRAMES_LIMIT
}

/// The network is perfect: quality is raised slowly.
pub open spec fn network_is_good(m: QosMetrics) -> bool {
    m.rtt_ms < LOW_RTT_MS && m.dropped_frames == 0
}

pub open spec fn max_u32(a: u32, b: u32) -> u32 {
    if a >= b { a } else { b }
}

pub open spec fn min_u32(a: u32, b: u32) -> u32 {
    if a <= b { a } else { b }
}

/// The configuration after one report. `reduced` is the current bitrate cut by
/// 30%, `raised` the current bitrate raised by 5%.
pub open spec fn qos_next(c: EncoderConfig, m: QosMetrics, reduced: u32, raised: u32) -> EncoderConfig {
    let bitrate1 = if rtt_is_high(m) { max_u32(reduced, MIN_BITRATE_KBPS) } else { c.bitrate_kbps };
    let fps1 = if drops_frames(m) {
        max_u32(if c.fps >= 5 { (c.fps - 5) as u32 } else { 0 }, MIN_FPS)
    } else {
        c.fps
    };
    if network_is_good(m) {
        EncoderConfig {
            bitrate_kbps: min_u32(raised, MAX_BITRATE_KBPS),
            fps: if fps1 < MAX_FPS { (fps1 + 1) as u32 } else { fps1 },
        }
    } else {
        EncoderConfig { bitrate_kbps: bitrate1, fps: fps1 }
    }
}

/// The report changes the settings.
pub open spec fn qos_reacts(m: QosMetrics) -> bool {
    rtt_is_high(m) || drops_frames(m) || network_is_good(m)
}

impl QosManager {
    pub fn new(initial_bitrate: u32, initial_fps: u32) -> (r: Self)
        ensures
            r.current_config == (EncoderConfig { bitrate_kbps: initial_bitrate, fps: initial_fps }),
    {
        Self { current_config: EncoderConfig { bitrate_kbps: initial_bitrate, fps: initial_fps } }
    }

    /// Processes incoming QoS metrics from the Client.
    /// Returns `Some(EncoderConfig)` if the settings need to be updated.
    ///
    /// The bitrate is scaled in floating point by the caller: `reduced_bitrate`
    /// is the current bitrate times 0.7 and `raised_bitrate` the current bitrate
    /// times 1.05, each truncated to an integer.
    pub fn process_metrics(&mut self, metrics: &QosMetrics, reduced_bitrate: u32, raised_bitrate: u32) -> (res: Option<EncoderConfig>)
        ensures
            final(self).current_config == qos_next(old(self).current_config, *metrics, reduced_bitrate, raised_bitrate),
            qos_reacts(*metrics) ==> res == Some(final(self).current_config),
            !qos_reacts(*metrics) ==> res is None && final(self).current_config == old(self).current_config,
            rtt_is_high(*metrics) ==> final(self).current_config.bitrate_kbps >= MIN_BITRATE_KBPS,
            drops_frames(*metrics) ==> final(self).current_config.fps >= MIN_FPS,
            network_is_good(*metrics) ==> final(self).current_config.bitrate_kbps <= MAX_BITRATE_KBPS,
            network_is_good(*metrics) && old(self).current_config.fps <= MAX_FPS
                ==> final(self).current_config.fps <= MAX_FPS,
            network_is_good(*metrics) && old(self).current_config.fps < MAX_FPS
                ==> final(self).current_config.fps == old(self).current_config.fps + 1,
            network_is_good(*metrics) && old(self).current_config.fps >= MAX_FPS
                ==> final(self).current_config.fps == old(self).current_config.fps,
            network_is_good(*metrics) ==> final(self).current_config.bitrate_kbps == (if raised_bitrate
                > MAX_BITRATE_KBPS { MAX_BITRATE_KBPS } else { raised_bitrate }),
            rtt_is_high(*metrics) ==> final(self).current_config.bitrate_kbps == (if reduced_bitrate
                < MIN_BITRATE_KBPS { MIN_BITRATE_KBPS } else { reduced_bitrate }),
            drops_frames(*metrics) ==> final(self).current_config.fps == (if old(self).current_config.fps
                >= MIN_FPS + 5 { (old(self).current_config.fps - 5) as u32 } else { MIN_FPS }),
            !rtt_is_high(*metrics) && !network_is_good(*metrics) ==> final(self).current_config.bitrate_kbps
                == old(self).current_config.bitrate_kbps,
            !drops_frames(*metrics) && !network_is_good(*metrics) ==> final(self).current_config.fps
                == old(self).current_config.fps,
    {
        let mut changed = false;

        // 1. If RTT is high (bad network), aggressively reduce bitrate
        if metrics.rtt_ms > HIGH_RTT_MS {
            self.current_config.bitrate_kbps = reduced_bitrate;
            // Don't drop below 500 kbps to maintain some visual clarity
            if self.current_config.bitrate_kbps < MIN_BITRATE_KBPS {
                self.current_config.bitrate_kbps = MIN_BITRATE_KBPS;
            }
            changed = true;
        }

        // 2. If the client is dropping frames, it might be overwhelmed. Reduce FPS.
        if metrics.dropped_frames > DROPPED_FRAMES_LIMIT {
            let cut = self.current_config.fps.saturating_sub(5);
            self.current_config.fps = if cut < MIN_FPS { MIN_FPS } else { cut };
            changed = true;
        }

        // 3. If network is perfect (low ping, zero drops), slowly increase quality
        if metrics.rtt_ms < LOW_RTT_MS && metrics.dropped_frames == 0 {
            self.current_config.bitrate_kbps = raised_bitrate;
            // Cap at 20 Mbps (20,000 kbps)
            if self.current_config.bitrate_kbps > MAX_BITRATE_KBPS {
                self.current_config.bitrate_kbps = MAX_BITRATE_KBPS;
            }
            if self.current_config.fps < MAX_FPS {
                self.current_config.fps += 1;  // Slowly restore FPS
            }
            changed = true;
        }

        if changed {
            Some(self.current_config)
        } else {
            None
        }
    }
}

/// Frame rates within `[MIN_FPS, MAX_FPS]` stay there whatever the client reports.
pub proof fn lemma_qos_fps_stays_in_range(c: EncoderConfig, m: QosMetrics, reduced: u32, raised: u32)
    requires
        MIN_FPS <= c.fps <= MAX_FPS,
    ensures
        MIN_FPS <= qos_next(c, m, reduced, raised).fps <= MAX_FPS,
{
}

/// A bad and a perfect network are never reported at once: at most one of the
/// bitrate rules applies to a report.
pub proof fn lemma_qos_bitrate_rules_exclusive(m: QosMetrics)
    ensures
        !(rtt_is_high(m) && network_is_good(m)),
        !(drops_frames(m) && network_is_good(m)),
{
}

/// Bitrates within `[MIN_BITRATE_KBPS, MAX_BITRATE_KBPS]` stay there whatever
/// the client reports, as long as the cut does not raise the bitrate and the
/// raise does not cut it (true of the 0.7 and 1.05 scalings).
pub proof fn lemma_qos_bitrate_stays_in_range(c: EncoderConfig, m: QosMetrics, reduced: u32, raised: u32)
    requires
        MIN_BITRATE_KBPS <= c.bitrate_kbps <= MAX_BITRATE_KBPS,
        reduced <= c.bitrate_kbps,
        c.bitrate_kbps <= raised,
    ensures
        MIN_BITRATE_KBPS <= qos_next(c, m, reduced, raised).bitrate_kbps <= MAX_BITRATE_KBPS,
{
}

/// What one report does to the settings, rule by rule: a bad network cuts the
/// bitrate (to no less than 500 kbps), dropped frames cut the frame rate by 5
/// (to no less than 15), and a perfect network raises the bitrate (to no more
/// than 20 Mbps) and restores the frame rate by exactly one frame per second,
/// up to 60. A setting that no rule touches keeps its value.
pub proof fn lemma_qos_rules(c: EncoderConfig, m: QosMetrics, reduced: u32, raised: u32)
    ensures
        rtt_is_high(m) ==> qos_next(c, m, reduced, raised).bitrate_kbps == (if reduced < 500 { 500 } else { reduced }),
        drops_frames(m) ==> qos_next(c, m, reduced, raised).fps == (if c.fps >= 20 { c.fps - 5 } else { 15 }),
        network_is_good(m) ==> qos_next(c, m, reduced, raised).bitrate_kbps == (if raised > 20000 { 20000 } else { raised }),
        network_is_good(m) && c.fps < 60 ==> qos_next(c, m, reduced, raised).fps == c.fps + 1,
        network_is_good(m) && c.fps >= 60 ==> qos_next(c, m, reduced, raised).fps == c.fps,
        !rtt_is_high(m) && !network_is_good(m) ==> qos_next(c, m, reduced, raised).bitrate_kbps == c.bitrate_kbps,
        !drops_frames(m) && !network_is_good(m) ==> qos_next(c, m, reduced, raised).fps == c.fps,
{
}

} // verus!
