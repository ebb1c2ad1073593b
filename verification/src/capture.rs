use vstd::prelude::*;

verus! {

/// A frame captured from the screen.
pub struct Frame {
    pub width: u32,
    pub height: u32,
    /// Raw RGBA pixels, row by row.
    pub data: Vec<u8>,
    pub timestamp: std::time::Duration,
}

#[derive(Debug, Clone, PartialEq, Eq)]
pub struct Rect {
    pub x: u32,
    pub y: u32,
    pub width: u32,
    pub height: u32,
}

#[derive(Debug)]
pub struct DiffResult {
    pub has_changes: bool,
    pub dirty_rect: Option<Rect>,
}

/// Byte offset of pixel `(x, y)` in an RGBA buffer of row width `w`.
pub open spec fn pixel_offset(w: int, x: int, y: int) -> int {
    (y * w + x) * 4
}

/// The RGBA pixel at `(x, y)` differs between the two buffers.
pub open spec fn pixel_changed(old: Seq<u8>, new: Seq<u8>, w: int, x: int, y: int) -> bool {
    let p = pixel_offset(w, x, y);
    ||| old[p] != new[p]
    ||| old[p + 1] != new[p + 1]
    ||| old[p + 2] != new[p + 2]
    ||| old[p + 3] != new[p + 3]
}

/// The two frames have the same geometry and buffer length, so they are compared pixel by pixel.
pub open spec fn frames_comparable(old: &Frame, new: &Frame) -> bool {
    &&& old.width == new.width
    &&& old.height == new.height
    &&& old.data@.len() == new.data@.len()
}

/// Some pixel inside the frame differs between the two frames.
pub open spec fn frames_differ(old: &Frame, new: &Frame) -> bool {
    exists|x: int, y: int|
        0 <= x < new.width && 0 <= y < new.height
            && #[trigger] pixel_changed(old.data@, new.data@, new.width as int, x, y)
}

/// `r` is the smallest rectangle that holds every changed pixel.
pub open spec fn is_bounding_box(old: &Frame, new: &Frame, r: Rect) -> bool {
    let o = old.data@;
    let n = new.data@;
    let w = new.width as int;
    let h = new.height as int;
    &&& r.width >= 1 && r.height >= 1
    &&& r.x + r.width <= w && r.y + r.height <= h
    &&& forall|x: int, y: int|
        0 <= x < w && 0 <= y < h && #[trigger] pixel_changed(o, n, w, x, y) ==> r.x <= x < r.x
            + r.width && r.y <= y < r.y + r.height
    &&& exists|y: int| 0 <= y < h && #[trigger] pixel_changed(o, n, w, r.x as int, y)
    &&& exists|y: int| 0 <= y < h && #[trigger] pixel_changed(o, n, w, r.x + r.width - 1, y)
    &&& exists|x: int| 0 <= x < w && #[trigger] pixel_changed(o, n, w, x, r.y as int)
    &&& exists|x: int| 0 <= x < w && #[trigger] pixel_changed(o, n, w, x, r.y + r.height - 1)
}

/// The pixel rows that a comparison reads lie inside both buffers and their offsets fit in `u32`.
pub open spec fn dirty_rect_in_bounds(old: &Frame, new: &Frame) -> bool {
    frames_comparable(old, new) ==> {
        &&& new.width * new.height * 4 <= u32::MAX
        &&& new.width * new.height * 4 <= new.data@.len()
    }
}

proof fn lemma_row_bounds(w: int, h: int, y: int)
    requires
        0 <= w,
        0 <= y < h,
    ensures
        0 <= y * w * 4,
        0 <= y * w,
        y * w <= w * h,
        y * w * 4 <= w * h * 4,
        (y + 1) * w * 4 <= w * h * 4,
{
    assert((y + 1) * w <= h * w) by (nonlinear_arith)
        requires
            y + 1 <= h,
            0 <= w,
    ;
    assert(0 <= y * w) by (nonlinear_arith)
        requires
            0 <= y,
            0 <= w,
    ;
    assert(y * w <= h * w) by (nonlinear_arith)
        requires
            y < h,
            0 <= w,
    ;
    assert(w * h == h * w) by (nonlinear_arith);
}

proof fn lemma_offset_bounds(w: int, h: int, x: int, y: int)
    requires
        0 <= x < w,
        0 <= y < h,
    ensures
        0 <= pixel_offset(w, x, y),
        pixel_offset(w, x, y) + 4 <= w * h * 4,
        pixel_offset(w, x, y) == y * w * 4 + x * 4,
        (y + 1) * w * 4 <= w * h * 4,
{
    assert(y * w + x < (y + 1) * w) by (nonlinear_arith)
        requires
            x < w,
    ;
    assert((y + 1) * w <= h * w) by (nonlinear_arith)
        requires
            y + 1 <= h,
            0 <= w,
    ;
    assert(0 <= y * w) by (nonlinear_arith)
        requires
            0 <= y,
            0 <= w,
    ;
    assert(w * h == h * w) by (nonlinear_arith);
    assert((y * w + x) * 4 == y * w * 4 + x * 4) by (nonlinear_arith);
}

/// Checks `dirty_rect_in_bounds`; a comparison outside it would index past a buffer.
pub fn dirty_rect_in_bounds_exec(old_frame: &Frame, new_frame: &Frame) -> (r: bool)
    ensures
        r == dirty_rect_in_bounds(old_frame, new_frame),
{
    if old_frame.width != new_frame.width || old_frame.height != new_frame.height
        || old_frame.data.len() != new_frame.data.len() {
        return true;
    }
    assert(new_frame.width * new_frame.height <= u32::MAX * u32::MAX) by (nonlinear_arith)
        requires
            new_frame.width <= u32::MAX,
            new_frame.height <= u32::MAX,
    ;
    let total: u128 = new_frame.width as u128 * new_frame.height as u128 * 4;
    total <= u32::MAX as u128 && total <= new_frame.data.len() as u128
}

/// Computes the bounding box of the RGBA pixels that differ between two frames.
/// Frames of different geometry or buffer length are reported as a full redraw.
pub fn compute_dirty_rect(old_frame: &Frame, new_frame: &Frame) -> (res: DiffResult)
    requires
        dirty_rect_in_bounds(old_frame, new_frame),
    ensures
        !frames_comparable(old_frame, new_frame) ==> res.has_changes && res.dirty_rect == Some(
            Rect { x: 0, y: 0, width: new_frame.width, height: new_frame.height },
        ),
        frames_comparable(old_frame, new_frame) ==> {
            &&& res.has_changes == frames_differ(old_frame, new_frame)
            &&& res.has_changes ==> (res.dirty_rect matches Some(r) && is_bounding_box(
                old_frame,
                new_frame,
                r,
            ))
            &&& !res.has_changes ==> res.dirty_rect is None
        },
{
    let width = new_frame.width;
    let height = new_frame.height;

    if old_frame.width != width || old_frame.height != height || old_frame.data.len()
        != new_frame.data.len() {
        return DiffResult {
            has_changes: true,
            dirty_rect: Some(Rect { x: 0, y: 0, width, height }),
        };
    }
    let ghost o = old_frame.data@;
    let ghost n = new_frame.data@;
    let ghost w = width as int;
    let ghost h = height as int;

    let mut min_x: u32 = width;
    let mut min_y: u32 = height;
    let mut max_x: u32 = 0;
    let mut max_y: u32 = 0;
    let mut changed = false;
    // rows that witness min_x / max_x, columns that witness min_y / max_y
    let ghost mut wy_min_x: int = 0;
    let ghost mut wy_max_x: int = 0;
    let ghost mut wx_min_y: int = 0;
    let ghost mut wx_max_y: int = 0;

    let mut y: u32 = 0;
    while y < height
        invariant
            o == old_frame.data@,
            n == new_frame.data@,
            w == width,
            h == height,
            o.len() == n.len(),
            w * h * 4 <= u32::MAX,
            w * h * 4 <= n.len(),
            0 <= y <= h,
            changed <==> exists|x: int, yy: int|
                0 <= x < w && 0 <= yy < y && #[trigger] pixel_changed(o, n, w, x, yy),
            changed ==> {
                &&& min_x <= max_x < w
                &&& min_y <= max_y < y
                &&& forall|x: int, yy: int|
                    0 <= x < w && 0 <= yy < y && #[trigger] pixel_changed(o, n, w, x, yy)
                        ==> min_x <= x <= max_x && min_y <= yy <= max_y
                &&& 0 <= wy_min_x < y && pixel_changed(o, n, w, min_x as int, wy_min_x)
                &&& 0 <= wy_max_x < y && pixel_changed(o, n, w, max_x as int, wy_max_x)
                &&& 0 <= wx_min_y < w && pixel_changed(o, n, w, wx_min_y, min_y as int)
                &&& 0 <= wx_max_y < w && pixel_changed(o, n, w, wx_max_y, max_y as int)
            },
            !changed ==> min_x == width && max_x == 0 && min_y == height && max_y == 0,
        decreases h - y,
    {
        let ghost changed_before = changed;
        proof {
            lemma_row_bounds(w, h, y as int);
        }
        let row_start: usize = (y as usize) * (width as usize) * 4;
        let mut row_changed = false;
        let ghost mut wrow_x: int = 0;
        let mut x: u32 = 0;
        while x < width
            invariant
                o == old_frame.data@,
                n == new_frame.data@,
                w == width,
                h == height,
                o.len() == n.len(),
                w * h * 4 <= u32::MAX,
                w * h * 4 <= n.len(),
                0 <= y < h,
                0 <= x <= w,
                row_start == y * w * 4,
                changed == changed_before,
                changed <==> exists|xx: int, yy: int|
                    0 <= xx < w && 0 <= yy < y && #[trigger] pixel_changed(o, n, w, xx, yy),
                row_changed <==> exists|xx: int|
                    0 <= xx < x && #[trigger] pixel_changed(o, n, w, xx, y as int),
                row_changed ==> 0 <= wrow_x < x && pixel_changed(o, n, w, wrow_x, y as int),
                changed || row_changed ==> {
                    &&& min_x <= max_x < w
                    &&& forall|xx: int, yy: int|
                        0 <= xx < w && 0 <= yy < y && #[trigger] pixel_changed(o, n, w, xx, yy)
                            ==> min_x <= xx <= max_x
                    &&& forall|xx: int|
                        0 <= xx < x && #[trigger] pixel_changed(o, n, w, xx, y as int)
                            ==> min_x <= xx <= max_x
                    &&& 0 <= wy_min_x <= y && pixel_changed(o, n, w, min_x as int, wy_min_x)
                    &&& 0 <= wy_max_x <= y && pixel_changed(o, n, w, max_x as int, wy_max_x)
                },
                !(changed || row_changed) ==> min_x == width && max_x == 0,
                changed ==> {
                    &&& min_y <= max_y < y
                    &&& forall|xx: int, yy: int|
                        0 <= xx < w && 0 <= yy < y && #[trigger] pixel_changed(o, n, w, xx, yy)
                            ==> min_y <= yy <= max_y
                    &&& 0 <= wx_min_y < w && pixel_changed(o, n, w, wx_min_y, min_y as int)
                    &&& 0 <= wx_max_y < w && pixel_changed(o, n, w, wx_max_y, max_y as int)
                },
                !changed ==> min_y == height && max_y == 0,
            decreases w - x,
        {
            proof {
                lemma_offset_bounds(w, h, x as int, y as int);
            }
            let p: usize = row_start + (x as usize) * 4;
            let px_differs = old_frame.data[p] != new_frame.data[p] || old_frame.data[p + 1]
                != new_frame.data[p + 1] || old_frame.data[p + 2] != new_frame.data[p + 2]
                || old_frame.data[p + 3] != new_frame.data[p + 3];
            assert(px_differs == pixel_changed(o, n, w, x as int, y as int));
            if px_differs {
                if x < min_x {
                    min_x = x;
                    proof {
                        wy_min_x = y as int;
                    }
                }
                if x > max_x {
                    max_x = x;
                    proof {
                        wy_max_x = y as int;
                    }
                }
                if !changed && !row_changed {
                    // first change seen: both bounds are this pixel
                    proof {
                        wy_min_x = y as int;
                        wy_max_x = y as int;
                    }
                }
                row_changed = true;
                proof {
                    wrow_x = x as int;
                }
            }
            x = x + 1;
        }
        if row_changed {
            if y < min_y {
                min_y = y;
                proof {
                    wx_min_y = wrow_x;
                }
            }
            if y > max_y {
                max_y = y;
                proof {
                    wx_max_y = wrow_x;
                }
            }
            if !changed {
                proof {
                    wx_min_y = wrow_x;
                    wx_max_y = wrow_x;
                }
            }
            changed = true;
        }
        y = y + 1;
    }

    if changed {
        let r = Rect { x: min_x, y: min_y, width: max_x - min_x + 1, height: max_y - min_y + 1 };
        proof {
            assert(pixel_changed(o, n, w, r.x as int, wy_min_x));
            assert(pixel_changed(o, n, w, r.x + r.width - 1, wy_max_x));
            assert(pixel_changed(o, n, w, wx_min_y, r.y as int));
            assert(pixel_changed(o, n, w, wx_max_y, r.y + r.height - 1));
            assert(frames_differ(old_frame, new_frame));
            assert(is_bounding_box(old_frame, new_frame, r));
        }
        DiffResult { has_changes: true, dirty_rect: Some(r) }
    } else {
        assert(!frames_differ(old_frame, new_frame));
        DiffResult { has_changes: false, dirty_rect: None }
    }
}

} // verus!

verus! {

/// Abstract trait for screen capture to allow swapping backends later.
pub trait CaptureDevice {
    fn capture_frame(&mut self) -> Result<Frame, String>;

    fn get_width(&self) -> u32;

    fn get_height(&self) -> u32;
}

/// Native Windows capture. Only a Windows build can create one; its size is a
/// fixed 1920x1080 and frames are not delivered yet.
pub struct WinCapture {
    width: u32,
    height: u32,
}

impl WinCapture {
    /// The size this capture reports.
    pub closed spec fn size(&self) -> (u32, u32) {
        (self.width, self.height)
    }

    /// Creates the capture; `on_windows` tells whether this is a Windows build.
    pub fn new(on_windows: bool) -> (r: Result<Self, String>)
        ensures
            on_windows ==> (r matches Ok(c) && c.size() == (1920u32, 1080u32)),
            !on_windows ==> (r matches Err(e) && e@ == "WinCapture only supported on Windows"@),
    {
        if on_windows {
            Ok(WinCapture { width: 1920, height: 1080 })
        } else {
            Err("WinCapture only supported on Windows".to_owned())
        }
    }
}

impl CaptureDevice for WinCapture {
    /// Frames are not delivered yet.
    fn capture_frame(&mut self) -> (r: Result<Frame, String>)
        ensures
            r matches Err(e) && e@ == "Not fully implemented yet"@,
            *final(self) == *old(self),
    {
        Err("Not fully implemented yet".to_owned())
    }

    fn get_width(&self) -> (w: u32)
        ensures
            w == self.size().0,
    {
        self.width
    }

    fn get_height(&self) -> (h: u32)
        ensures
            h == self.size().1,
    {
        self.height
    }
}

/// Native macOS capture, built on the `xcap` backend, which is not a dependency
/// of this crate: creating one always fails.
pub struct MacCapture {
    no_backend: (),
}

impl MacCapture {
    pub fn new() -> (r: Result<Self, String>)
        ensures
            r matches Err(e) && e@ == "MacCapture only supported on macOS"@,
    {
        Err("MacCapture only supported on macOS".to_owned())
    }
}

impl CaptureDevice for MacCapture {
    /// No `MacCapture` can be created, so no frame is ever asked of one.
    fn capture_frame(&mut self) -> (r: Result<Frame, String>)
        ensures
            r matches Err(e) && e@ == "MacCapture only supported on macOS"@,
            *final(self) == *old(self),
    {
        Err("MacCapture only supported on macOS".to_owned())
    }

    fn get_width(&self) -> (w: u32)
        ensures
            w == 0,
    {
        0
    }

    fn get_height(&self) -> (h: u32)
        ensures
            h == 0,
    {
        0
    }
}

/// The `0x00RRGGBB` word of an RGB pixel, as software framebuffers take it.
pub open spec fn xrgb_of(r: u8, g: u8, b: u8) -> u32 {
    (r * 65536 + g * 256 + b) as u32
}

/// Converts RGBA pixels to `0x00RRGGBB` words, one per whole pixel, filling at
/// most `max_pixels` words (the framebuffer's size).
pub fn rgba_to_xrgb(data: &Vec<u8>, max_pixels: usize) -> (out: Vec<u32>)
    ensures
        out@.len() == if data@.len() / 4 < max_pixels { (data@.len() / 4) as int } else { max_pixels as int },
        forall|k: int| 0 <= k < out@.len() ==> #[trigger] out@[k] == xrgb_of(data@[4 * k], data@[4 * k + 1], data@[4 * k + 2]),
{
    let n = if data.len() / 4 < max_pixels { data.len() / 4 } else { max_pixels };
    let mut out: Vec<u32> = Vec::new();
    let mut k: usize = 0;
    while k < n
        invariant
            n <= data@.len() / 4,
            data@.len() == data.len(),
            0 <= k <= n,
            out@.len() == k,
            forall|j: int| 0 <= j < k ==> #[trigger] out@[j] == xrgb_of(data@[4 * j], data@[4 * j + 1], data@[4 * j + 2]),
        decreases n - k,
    {
        let ghost len = data.len() as int;
        assert(4 * k + 3 < len) by (nonlinear_arith)
            requires
                k < n,
                n <= len / 4,
        ;
        let b = 4 * k;
        let r = data[b] as u32;
        let g = data[b + 1] as u32;
        let bl = data[b + 2] as u32;
        assert(bl | (g << 8u32) | (r << 16u32) == r * 65536 + g * 256 + bl) by (bit_vector)
            requires
                r < 256,
                g < 256,
                bl < 256,
        ;
        out.push(bl | (g << 8u32) | (r << 16u32));
        k = k + 1;
    }
    out
}

} // verus!
