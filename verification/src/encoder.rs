use vstd::prelude::*;
use crate::text::push_str;
use crate::wire::{be_u32_bytes, be_u32_value, be_u64_bytes, be_u64_value, u32_to_be, lemma_be_u32_roundtrip, lemma_be_u64_roundtrip};

verus! {

/// Represents a compressed video packet ready to be sent over the network.
pub struct EncodedPacket {
    pub data: Vec<u8>,
    pub is_keyframe: bool,
    pub timestamp_us: u64,
}

/// The outside error type of the `image` crate.
#[verifier::external_type_specification]
#[verifier::external_body]
pub struct ExImageError(image::ImageError);

/// The JPEG file that the `image` crate's encoder writes for an RGB8 image of
/// `width` x `height` pixels at `quality`.
pub uninterp spec fn jpeg_bytes(rgb: Seq<u8>, width: u32, height: u32, quality: u8) -> Seq<u8>;

/// JPEG-encodes an RGB8 buffer with `image::codecs::jpeg::JpegEncoder::encode`.
/// Claimed: the encoder fails exactly on a width or height outside `1..=65535`
/// (its only error besides writer errors, which writing into a `Vec` does not
/// raise), and otherwise the bytes written are `jpeg_bytes` of the arguments.
#[verifier::external_body]
fn jpeg_encode_rgb(rgb: &[u8], width: u32, height: u32, quality: u8) -> (r: Result<Vec<u8>, image::ImageError>)
    requires
        rgb@.len() == width * height * 3,
    ensures
        r is Ok <==> (1 <= width <= 65535 && 1 <= height <= 65535),
        r matches Ok(b) ==> b@ == jpeg_bytes(rgb@, width, height, quality),
{
    let mut buf = Vec::new();
    let mut cursor = std::io::Cursor::new(&mut buf);
    let mut encoder = image::codecs::jpeg::JpegEncoder::new_with_quality(&mut cursor, quality);
    encoder.encode(rgb, width, height, image::ExtendedColorType::Rgb8)?;
    Ok(buf)
}

/// The `Display` text of an `image::ImageError`. Nothing is claimed of it.
#[verifier::external_body]
fn image_error_text(e: image::ImageError) -> String {
    e.to_string()
}

/// How a failed JPEG encoding is reported, before the encoder's reason.
pub open spec fn jpeg_error_prefix() -> Seq<char> {
    "JPEG encode error: "@
}

/// The report of a failed JPEG encoding: `JPEG encode error: ` and the reason.
fn jpeg_error_message(e: image::ImageError) -> (m: String)
    ensures
        m@.len() >= jpeg_error_prefix().len(),
        m@.subrange(0, jpeg_error_prefix().len() as int) == jpeg_error_prefix(),
{
    let mut m = "JPEG encode error: ".to_owned();
    let reason = image_error_text(e);
    push_str(&mut m, reason.as_str());
    assert(m@.subrange(0, jpeg_error_prefix().len() as int) =~= jpeg_error_prefix());
    m
}

/// The RGB bytes of an RGBA buffer: the alpha byte of every whole pixel is
/// dropped, and a trailing partial pixel is ignored.
pub open spec fn rgba_to_rgb_spec(px: Seq<u8>) -> Seq<u8> {
    Seq::new(((px.len() / 4) * 3) as nat, |i: int| px[(i / 3) * 4 + i % 3])
}

/// Converts RGBA pixels to RGB for JPEG encoding.
pub fn rgba_to_rgb(pixels: &Vec<u8>) -> (out: Vec<u8>)
    ensures
        out@ == rgba_to_rgb_spec(pixels@),
{
    let n = pixels.len() / 4;
    let mut out: Vec<u8> = Vec::new();
    let mut k: usize = 0;
    while k < n
        invariant
            n == pixels@.len() / 4,
            0 <= k <= n,
            out@.len() == k * 3,
            forall|i: int| 0 <= i < k * 3 ==> #[trigger] out@[i] == pixels@[(i / 3) * 4 + i % 3],
        decreases n - k,
    {
        let ghost len = pixels.len() as int;
        assert(k * 4 + 3 < len) by (nonlinear_arith)
            requires
                k < n,
                n == len / 4,
        ;
        let b = k * 4;
        out.push(pixels[b]);
        out.push(pixels[b + 1]);
        out.push(pixels[b + 2]);
        proof {
            assert forall|i: int| 0 <= i < (k + 1) * 3 implies #[trigger] out@[i] == pixels@[(i / 3) * 4 + i % 3] by {
                if i >= k * 3 {
                    assert(i / 3 == k);
                }
            }
        }
        k = k + 1;
    }
    assert(out@ =~= rgba_to_rgb_spec(pixels@));
    out
}

/// The RGBA pixel that nearest-neighbour scaling takes from `data` at byte
/// offset `idx`, or opaque black where the source has no whole pixel there.
pub open spec fn sampled_byte(data: Seq<u8>, idx: int, c: int) -> u8 {
    if idx + 3 < data.len() {
        data[idx + c]
    } else {
        seq![0u8, 0u8, 0u8, 255u8][c]
    }
}

/// Byte offset of source pixel `(x, y)` in rows of `w` pixels.
pub open spec fn source_offset(w: u32, x: u32, y: u32) -> int {
    (y * w + x) * 4
}

/// Nearest-neighbour resampling: output pixel `(i, j)` is source pixel
/// `(xs[i], ys[j])`.
pub open spec fn downscale_spec(data: Seq<u8>, src_width: u32, xs: Seq<u32>, ys: Seq<u32>) -> Seq<u8> {
    Seq::new(
        (ys.len() * xs.len() * 4) as nat,
        |k: int|
            sampled_byte(
                data,
                source_offset(src_width, xs[(k / 4) % xs.len() as int], ys[(k / 4) / xs.len() as int]),
                k % 4,
            ),
    )
}

/// The offsets that resampling computes fit in `u32`.
pub open spec fn downscale_in_bounds(src_width: u32, xs: Seq<u32>, ys: Seq<u32>) -> bool {
    &&& ys.len() * xs.len() * 4 <= u32::MAX
    &&& forall|i: int, j: int|
        0 <= i < xs.len() && 0 <= j < ys.len() ==> source_offset(src_width, #[trigger] xs[i], #[trigger] ys[j]) <= u32::MAX
}

/// Nearest-neighbour downscaling of an RGBA frame: row `j` of the output samples
/// source row `ys[j]`, column `i` source column `xs[i]`; a sample outside the
/// source buffer is opaque black.
pub fn downscale_nearest(data: &Vec<u8>, src_width: u32, xs: &Vec<u32>, ys: &Vec<u32>) -> (out: Vec<u8>)
    requires
        downscale_in_bounds(src_width, xs@, ys@),
    ensures
        out@ == downscale_spec(data@, src_width, xs@, ys@),
{
    let nx = xs.len();
    let ny = ys.len();
    let mut out: Vec<u8> = Vec::new();
    let ghost spec_out = downscale_spec(data@, src_width, xs@, ys@);
    let mut j: usize = 0;
    while j < ny
        invariant
            nx == xs@.len(),
            ny == ys@.len(),
            downscale_in_bounds(src_width, xs@, ys@),
            spec_out == downscale_spec(data@, src_width, xs@, ys@),
            0 <= j <= ny,
            out@.len() == j * nx * 4,
            forall|k: int| 0 <= k < out@.len() ==> #[trigger] out@[k] == spec_out[k],
        decreases ny - j,
    {
        let mut i: usize = 0;
        while i < nx
            invariant
                nx == xs@.len(),
                ny == ys@.len(),
                downscale_in_bounds(src_width, xs@, ys@),
                spec_out == downscale_spec(data@, src_width, xs@, ys@),
                0 <= j < ny,
                0 <= i <= nx,
                out@.len() == (j * nx + i) * 4,
                forall|k: int| 0 <= k < out@.len() ==> #[trigger] out@[k] == spec_out[k],
            decreases nx - i,
        {
            let sx = xs[i];
            let sy = ys[j];
            assert(source_offset(src_width, xs@[i as int], ys@[j as int]) <= u32::MAX);
            assert(0 <= sy * src_width) by (nonlinear_arith);
            let idx = ((sy * src_width + sx) * 4) as usize;
            let ghost base = out@.len() as int;
            proof {
                assert((j * nx + i) * 4 + 4 <= ny * nx * 4) by (nonlinear_arith)
                    requires
                        i < nx,
                        j < ny,
                ;
                assert forall|c: int| 0 <= c < 4 implies spec_out[base + c] == sampled_byte(data@, idx as int, c) by {
                    let k = base + c;
                    assert((k / 4) == j * nx + i) by (nonlinear_arith)
                        requires
                            k == (j * nx + i) * 4 + c,
                            0 <= c < 4,
                    ;
                    assert((j * nx + i) % (nx as int) == i) by (nonlinear_arith)
                        requires
                            0 <= i < nx,
                    ;
                    assert((j * nx + i) / (nx as int) == j) by (nonlinear_arith)
                        requires
                            0 <= i < nx,
                    ;
                    assert(k % 4 == c) by (nonlinear_arith)
                        requires
                            k == (j * nx + i) * 4 + c,
                            0 <= c < 4,
                    ;
                }
            }
            let ghost before = out@;
            if idx + 3 < data.len() {
                out.push(data[idx]);
                out.push(data[idx + 1]);
                out.push(data[idx + 2]);
                out.push(data[idx + 3]);
            } else {
                out.push(0);
                out.push(0);
                out.push(0);
                out.push(255);
            }
            proof {
                assert(out@ == before + seq![
                    sampled_byte(data@, idx as int, 0),
                    sampled_byte(data@, idx as int, 1),
                    sampled_byte(data@, idx as int, 2),
                    sampled_byte(data@, idx as int, 3),
                ]);
                assert forall|k: int| 0 <= k < out@.len() implies #[trigger] out@[k] == spec_out[k] by {
                    if k < base {
                        assert(out@[k] == before[k]);
                    } else {
                        let c = k - base;
                        assert(spec_out[base + c] == sampled_byte(data@, idx as int, c));
                    }
                }
                assert(out@.len() == (j * nx + i + 1) * 4) by (nonlinear_arith)
                    requires
                        out@.len() == (j * nx + i) * 4 + 4,
                ;
            }
            i = i + 1;
        }
        assert(out@.len() == (j + 1) * nx * 4) by (nonlinear_arith)
            requires
                out@.len() == (j * nx + nx) * 4,
        ;
        j = j + 1;
    }
    assert(out@ =~= spec_out);
    out
}

/// The state of a `SystemEncoder`.
pub struct EncoderModel {
    pub width: u32,
    pub height: u32,
    pub quality: u8,
    pub frame_count: u64,
    pub keyframe_interval: u64,
}

/// JPEG-based encoder that works on all platforms without native FFI.
/// Produces JPEG-compressed frames that are decoded on the client side.
pub struct SystemEncoder {
    width: u32,
    height: u32,
    quality: u8,
    frame_count: u64,
    keyframe_interval: u64,
}

/// The quality that `set_quality` keeps: `q` clamped to the documented
/// range `1..=100`.
pub open spec fn clamp_quality(q: u8) -> u8 {
    if q < 1 {
        1
    } else if q > 100 {
        100
    } else {
        q
    }
}

impl View for SystemEncoder {
    type V = EncoderModel;

    closed spec fn view(&self) -> EncoderModel {
        EncoderModel {
            width: self.width,
            height: self.height,
            quality: self.quality,
            frame_count: self.frame_count,
            keyframe_interval: self.keyframe_interval,
        }
    }
}

impl SystemEncoder {
    #[verifier::type_invariant]
    closed spec fn inv(self) -> bool {
        self.keyframe_interval == 1
    }

    /// A JPEG encoder whose frames are scaled down to fit `width` x `height`;
    /// quality 60, every frame a keyframe.
    pub fn new(width: u32, height: u32, _fps: i32) -> (r: Result<Self, String>)
        ensures
            r matches Ok(e) && e@ == (EncoderModel {
                width,
                height,
                quality: 60,
                frame_count: 0,
                keyframe_interval: 1,
            }),
    {
        Ok(Self {
            width,
            height,
            quality: 60,  // Good balance of quality vs bandwidth
            frame_count: 0,
            keyframe_interval: 1,  // Every frame is a keyframe in JPEG mode
        })
    }

    /// Adjusts encoding quality (1-100). Lower = smaller files, worse quality.
    pub fn set_quality(&mut self, quality: u8)
        ensures
            final(self)@ == (EncoderModel { quality: clamp_quality(quality), ..old(self)@ }),
            1 <= quality <= 100 ==> final(self)@.quality == quality,
            1 <= final(self)@.quality <= 100,
    {
        proof {
            use_type_invariant(&*self);
        }
        self.quality = if quality < 1 {
            1
        } else if quality > 100 {
            100
        } else {
            quality
        };
    }

    /// The current JPEG quality.
    pub fn quality(&self) -> (q: u8)
        ensures
            q == self@.quality,
    {
        self.quality
    }

    /// The resolution that frames are scaled down to fit.
    pub fn target_size(&self) -> (r: (u32, u32))
        ensures
            r == (self@.width, self@.height),
    {
        (self.width, self.height)
    }

    /// The number of frames encoded so far.
    pub fn frame_count(&self) -> (n: u64)
        ensures
            n == self@.frame_count,
    {
        self.frame_count
    }

    /// A source frame larger than the target resolution in either direction is
    /// scaled down before encoding.
    pub fn needs_downscale(&self, src_width: u32, src_height: u32) -> (r: bool)
        ensures
            r == (src_width > self@.width || src_height > self@.height),
    {
        src_width > self.width || src_height > self.height
    }

    /// Encodes one RGBA image of `width` x `height` pixels (already scaled to the
    /// target resolution) as a JPEG packet stamped `timestamp_us`, and counts it.
    pub fn encode_pixels(&mut self, pixels: &Vec<u8>, width: u32, height: u32, timestamp_us: u64) -> (r: Result<Vec<EncodedPacket>, String>)
        requires
            old(self)@.frame_count < u64::MAX,
            pixels@.len() / 4 == width * height,
        ensures
            final(self)@ == (EncoderModel { frame_count: (old(self)@.frame_count + 1) as u64, ..old(self)@ }),
            r is Ok <==> (1 <= width <= 65535 && 1 <= height <= 65535),
            r matches Err(e) ==> e@.len() >= jpeg_error_prefix().len() && e@.subrange(
                0,
                jpeg_error_prefix().len() as int,
            ) == jpeg_error_prefix(),
            r matches Ok(pkts) ==> {
                &&& pkts@.len() == 1
                &&& pkts@[0].data@ == jpeg_bytes(rgba_to_rgb_spec(pixels@), width, height, old(self)@.quality)
                &&& pkts@[0].is_keyframe
                &&& pkts@[0].timestamp_us == timestamp_us
            },
    {
        proof {
            use_type_invariant(&*self);
        }
        self.frame_count = self.frame_count + 1;
        let rgb = rgba_to_rgb(pixels);
        match jpeg_encode_rgb(rgb.as_slice(), width, height, self.quality) {
            Ok(jpeg_buf) => {
                let is_keyframe = self.frame_count % self.keyframe_interval == 0;
                let mut pkts = Vec::new();
                pkts.push(EncodedPacket { data: jpeg_buf, is_keyframe, timestamp_us });
                Ok(pkts)
            },
            Err(e) => Err(jpeg_error_message(e)),
        }
    }
}

/// The 13-byte header that precedes each video packet on the stream: payload
/// length (big-endian `u32`), keyframe flag (1 or 0), timestamp in
/// microseconds (big-endian `u64`).
pub open spec fn video_header_bytes(size: u32, is_keyframe: bool, timestamp_us: u64) -> Seq<u8> {
    be_u32_bytes(size) + seq![if is_keyframe { 1u8 } else { 0u8 }] + be_u64_bytes(timestamp_us)
}

/// The header that announces `pkt` (its length truncated to `u32`).
pub fn video_packet_header(pkt: &EncodedPacket) -> (meta: [u8; 13])
    ensures
        meta@ == video_header_bytes(pkt.data@.len() as u32, pkt.is_keyframe, pkt.timestamp_us),
{
    let size = pkt.data.len() as u32;
    let s = u32_to_be(size);
    let t = pkt.timestamp_us;
    let meta: [u8; 13] = [
        s[0],
        s[1],
        s[2],
        s[3],
        if pkt.is_keyframe { 1u8 } else { 0u8 },
        (t >> 56u64) as u8,
        (t >> 48u64) as u8,
        (t >> 40u64) as u8,
        (t >> 32u64) as u8,
        (t >> 24u64) as u8,
        (t >> 16u64) as u8,
        (t >> 8u64) as u8,
        t as u8,
    ];
    assert(meta@ =~= video_header_bytes(size, pkt.is_keyframe, t));
    meta
}

/// What a receiver reads from a video packet header.
#[derive(Debug, Clone, Copy, PartialEq, Eq, Structural)]
pub struct VideoPacketMeta {
    pub size: u32,
    pub is_keyframe: bool,
    pub timestamp_us: u64,
}

/// Reads a video packet header; any flag byte other than 1 means "not a keyframe".
pub fn parse_video_header(meta: &[u8; 13]) -> (m: VideoPacketMeta)
    ensures
        m.size == be_u32_value(meta@.subrange(0, 4)),
        m.is_keyframe == (meta@[4] == 1),
        m.timestamp_us == be_u64_value(meta@.subrange(5, 13)),
{
    let size = ((meta[0] as u32) << 24u32) | ((meta[1] as u32) << 16u32) | ((meta[2] as u32) << 8u32)
        | (meta[3] as u32);
    let timestamp_us = ((meta[5] as u64) << 56u64) | ((meta[6] as u64) << 48u64) | ((meta[7] as u64)
        << 40u64) | ((meta[8] as u64) << 32u64) | ((meta[9] as u64) << 24u64) | ((meta[10] as u64)
        << 16u64) | ((meta[11] as u64) << 8u64) | (meta[12] as u64);
    VideoPacketMeta { size, is_keyframe: meta[4] == 1, timestamp_us }
}

/// The standard base64 text (RFC 4648 alphabet, with `=` padding) of `bytes`,
/// as `base64::engine::general_purpose::STANDARD` writes it.
pub uninterp spec fn base64_standard_of(bytes: Seq<u8>) -> Seq<char>;

/// `STANDARD.encode(bytes)` of the `base64` crate. It panics when the encoded
/// length overflows `usize`, which the `requires` leaves out. Claimed: the text
/// is `base64_standard_of(bytes)`, four characters for each started group of
/// three bytes (`encoded_len` with padding).
#[verifier::external_body]
fn base64_standard(bytes: &[u8]) -> (s: String)
    requires
        bytes@.len() / 3 * 4 + 4 <= usize::MAX,
    ensures
        s@ == base64_standard_of(bytes@),
        s@.len() == (bytes@.len() + 2) / 3 * 4,
{
    base64::Engine::encode(&base64::engine::general_purpose::STANDARD, bytes)
}

/// What a viewer is handed for one received video packet: the frame as
/// standard base64, whether it is a keyframe, and its timestamp, read from the
/// packet's 13-byte header.
pub fn video_frame_payload(meta: &[u8; 13], frame: &Vec<u8>) -> (p: (String, bool, u64))
    requires
        frame@.len() / 3 * 4 + 4 <= usize::MAX,
    ensures
        p.0@ == base64_standard_of(frame@),
        p.1 == (meta@[4] == 1),
        p.2 == be_u64_value(meta@.subrange(5, 13)),
{
    let m = parse_video_header(meta);
    (base64_standard(frame.as_slice()), m.is_keyframe, m.timestamp_us)
}

/// A receiver reads back exactly the length, keyframe flag and timestamp that
/// the sender wrote into a video packet header.
pub proof fn lemma_video_header_roundtrip(size: u32, is_keyframe: bool, timestamp_us: u64)
    ensures
        ({
            let h = video_header_bytes(size, is_keyframe, timestamp_us);
            &&& be_u32_value(h.subrange(0, 4)) == size
            &&& (h[4] == 1) == is_keyframe
            &&& be_u64_value(h.subrange(5, 13)) == timestamp_us
        }),
{
    let h = video_header_bytes(size, is_keyframe, timestamp_us);
    lemma_be_u32_roundtrip(size);
    lemma_be_u64_roundtrip(timestamp_us);
    assert(h.subrange(0, 4) =~= be_u32_bytes(size));
    assert(h.subrange(5, 13) =~= be_u64_bytes(timestamp_us));
}

/// The 4-byte length that precedes each JSON input event on the input stream.
pub fn input_length_prefix(json_len: usize) -> (b: [u8; 4])
    ensures
        b@ == be_u32_bytes(json_len as u32),
{
    u32_to_be(json_len as u32)
}

/// A packet as the host sends it on the video stream: its header, then its data.
pub open spec fn video_packet_bytes(data: Seq<u8>, is_keyframe: bool, timestamp_us: u64) -> Seq<u8> {
    video_header_bytes(data.len() as u32, is_keyframe, timestamp_us) + data
}

/// The bytes of a video stream that carries `pkts` (data, keyframe flag,
/// timestamp) in order.
pub open spec fn video_stream_bytes(pkts: Seq<(Seq<u8>, bool, u64)>) -> Seq<u8>
    decreases pkts.len(),
{
    if pkts.len() == 0 {
        Seq::empty()
    } else {
        video_packet_bytes(pkts[0].0, pkts[0].1, pkts[0].2) + video_stream_bytes(pkts.drop_first())
    }
}

/// What a viewer is handed for a packet: its data as base64, its keyframe flag
/// and its timestamp.
pub open spec fn frame_payload(data: Seq<u8>, is_keyframe: bool, timestamp_us: u64) -> (Seq<char>, bool, u64) {
    (base64_standard_of(data), is_keyframe, timestamp_us)
}

/// The length of the packet whose header starts `buf`.
pub open spec fn frame_len_at(buf: Seq<u8>) -> int {
    13 + be_u32_value(buf.subrange(0, 4))
}

/// The first whole packet at the front of received bytes: its payload.
pub open spec fn first_frame_payload(buf: Seq<u8>) -> (Seq<char>, bool, u64) {
    (
        base64_standard_of(buf.subrange(13, frame_len_at(buf))),
        buf[4] == 1,
        be_u64_value(buf.subrange(5, 13)),
    )
}

/// A whole packet has arrived at the front of `buf`.
pub open spec fn has_whole_frame(buf: Seq<u8>) -> bool {
    buf.len() >= 13 && frame_len_at(buf) <= buf.len()
}

/// The payloads of the whole packets at the front of received bytes, in order;
/// a trailing partial packet gives nothing (yet).
pub open spec fn video_frames(buf: Seq<u8>) -> Seq<(Seq<char>, bool, u64)>
    decreases buf.len(),
{
    if has_whole_frame(buf) {
        seq![first_frame_payload(buf)] + video_frames(buf.subrange(frame_len_at(buf), buf.len() as int))
    } else {
        Seq::empty()
    }
}

/// A stream of packets is received as exactly their payloads, one per packet,
/// in the order they were sent.
pub proof fn lemma_video_stream_frames(pkts: Seq<(Seq<u8>, bool, u64)>)
    requires
        forall|i: int| 0 <= i < pkts.len() ==> #[trigger] pkts[i].0.len() <= u32::MAX,
    ensures
        video_frames(video_stream_bytes(pkts)) == pkts.map_values(
            |p: (Seq<u8>, bool, u64)| frame_payload(p.0, p.1, p.2),
        ),
    decreases pkts.len(),
{
    if pkts.len() == 0 {
        assert(video_frames(Seq::<u8>::empty()) =~= Seq::empty());
    } else {
        let (d, k, t) = pkts[0];
        let rest = pkts.drop_first();
        assert forall|i: int| 0 <= i < rest.len() implies #[trigger] rest[i].0.len() <= u32::MAX by {
            assert(rest[i] == pkts[i + 1]);
        }
        lemma_video_stream_frames(rest);
        let h = video_header_bytes(d.len() as u32, k, t);
        lemma_video_header_roundtrip(d.len() as u32, k, t);
        let tail = video_stream_bytes(rest);
        let buf = video_stream_bytes(pkts);
        assert(buf == h + d + tail);
        assert(h.len() == 13);
        assert(buf.subrange(0, 4) =~= h.subrange(0, 4));
        assert(buf.subrange(5, 13) =~= h.subrange(5, 13));
        assert(buf[4] == h[4]);
        assert(frame_len_at(buf) == 13 + d.len());
        assert(buf.subrange(13, frame_len_at(buf)) =~= d);
        assert(buf.subrange(frame_len_at(buf), buf.len() as int) =~= tail);
        assert(has_whole_frame(buf));
        assert(video_frames(buf) =~= pkts.map_values(|p: (Seq<u8>, bool, u64)| frame_payload(p.0, p.1, p.2)));
    }
}

/// Bytes that arrive later never change the packets already received whole:
/// the payloads of `a` come first, in order, among those of `a + b`.
pub proof fn lemma_video_frames_prefix(a: Seq<u8>, b: Seq<u8>)
    ensures
        video_frames(a).len() <= video_frames(a + b).len(),
        video_frames(a + b).subrange(0, video_frames(a).len() as int) == video_frames(a),
    decreases a.len(),
{
    if has_whole_frame(a) {
        let ab = a + b;
        let n = frame_len_at(a);
        assert(ab.subrange(0, 4) =~= a.subrange(0, 4));
        assert(ab.subrange(5, 13) =~= a.subrange(5, 13));
        assert(ab[4] == a[4]);
        assert(frame_len_at(ab) == n);
        assert(ab.subrange(13, n) =~= a.subrange(13, n));
        assert(has_whole_frame(ab));
        assert(first_frame_payload(ab) == first_frame_payload(a));
        let ta = a.subrange(n, a.len() as int);
        assert(ab.subrange(n, ab.len() as int) =~= ta + b);
        lemma_video_frames_prefix(ta, b);
        assert(video_frames(a + b).subrange(0, video_frames(a).len() as int) =~= video_frames(a));
    } else {
        assert(video_frames(a) =~= Seq::empty());
        assert(video_frames(a + b).subrange(0, 0) =~= Seq::empty());
    }
}

/// The viewer's side of the video stream: received bytes are held until a
/// whole packet has arrived, and packets are handed out in order.
pub struct VideoStreamReader {
    pending: Vec<u8>,
}

impl VideoStreamReader {
    /// The received bytes not yet handed out as packets.
    pub closed spec fn pending_bytes(&self) -> Seq<u8> {
        self.pending@
    }

    #[verifier::type_invariant]
    closed spec fn inv(self) -> bool {
        self.pending@.len() <= usize::MAX / 2
    }

    pub fn new() -> (r: Self)
        ensures
            r.pending_bytes() == Seq::<u8>::empty(),
    {
        VideoStreamReader { pending: Vec::new() }
    }

    /// How many received bytes are waiting.
    pub fn pending_len(&self) -> (n: usize)
        ensures
            n == self.pending_bytes().len(),
    {
        self.pending.len()
    }

    /// Takes in bytes read from the stream.
    pub fn push(&mut self, bytes: &[u8])
        requires
            old(self).pending_bytes().len() + bytes@.len() <= usize::MAX / 2,
        ensures
            final(self).pending_bytes() == old(self).pending_bytes() + bytes@,
    {
        let mut pending: Vec<u8> = Vec::new();
        std::mem::swap(&mut pending, &mut self.pending);
        let ghost start = pending@;
        let mut i: usize = 0;
        while i < bytes.len()
            invariant
                0 <= i <= bytes@.len(),
                start.len() + bytes@.len() <= usize::MAX / 2,
                pending@ == start + bytes@.subrange(0, i as int),
            decreases bytes@.len() - i,
        {
            pending.push(bytes[i]);
            i = i + 1;
            assert(pending@ =~= start + bytes@.subrange(0, i as int));
        }
        assert(bytes@.subrange(0, bytes@.len() as int) =~= bytes@);
        self.pending = pending;
    }

    /// The next whole packet, as the viewer is handed it (data as standard
    /// base64, keyframe flag, timestamp); `None` until one has fully arrived.
    pub fn next_frame(&mut self) -> (r: Option<(String, bool, u64)>)
        ensures
            has_whole_frame(old(self).pending_bytes()) ==> {
                &&& r matches Some(p) && (p.0@, p.1, p.2) == first_frame_payload(old(self).pending_bytes())
                &&& final(self).pending_bytes() == old(self).pending_bytes().subrange(
                    frame_len_at(old(self).pending_bytes()),
                    old(self).pending_bytes().len() as int,
                )
            },
            !has_whole_frame(old(self).pending_bytes()) ==> r is None && final(self).pending_bytes()
                == old(self).pending_bytes(),
            video_frames(old(self).pending_bytes()) == (match r {
                Some(p) => seq![(p.0@, p.1, p.2)],
                None => Seq::empty(),
            }) + video_frames(final(self).pending_bytes()),
    {
        proof {
            use_type_invariant(&*self);
        }
        let ghost buf = self.pending@;
        if self.pending.len() < 13 {
            assert(video_frames(buf) =~= Seq::empty());
            return None;
        }
        let p = &self.pending;
        let meta: [u8; 13] = [p[0], p[1], p[2], p[3], p[4], p[5], p[6], p[7], p[8], p[9], p[10], p[11], p[12]];
        assert(meta@ =~= buf.subrange(0, 13));
        assert(meta@.subrange(0, 4) =~= buf.subrange(0, 4));
        assert(meta@.subrange(5, 13) =~= buf.subrange(5, 13));
        let m = parse_video_header(&meta);
        if self.pending.len() - 13 < m.size as usize {
            assert(!has_whole_frame(buf));
            assert(video_frames(buf) =~= Seq::empty());
            return None;
        }
        let end = 13 + m.size as usize;
        let frame = vstd::slice::slice_to_vec(vstd::slice::slice_subrange(self.pending.as_slice(), 13, end));
        let rest = vstd::slice::slice_to_vec(vstd::slice::slice_subrange(self.pending.as_slice(), end, self.pending.len()));
        let flen = frame.len();
        assert(flen / 3 * 4 + 4 <= usize::MAX) by (nonlinear_arith)
            requires
                flen <= usize::MAX / 2,
                usize::MAX >= 0xffff_ffff,
        ;
        let payload = video_frame_payload(&meta, &frame);
        self.pending = rest;
        let r = Some(payload);
        assert(video_frames(buf) =~= seq![first_frame_payload(buf)] + video_frames(self.pending@));
        r
    }
}

} // verus!
