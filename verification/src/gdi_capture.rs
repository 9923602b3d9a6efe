//! The arithmetic of the GDI screen grabber used on virtual machines: the
//! frame layout, where the cursor is drawn and the frame timestamps.

use vstd::prelude::*;

verus! {

/// Nanoseconds between two grabbed frames (about 30 frames a second).
pub const GDI_FRAME_DURATION_NS: u64 = 33_333_333;

/// Milliseconds the grabber sleeps after each frame.
pub const GDI_FRAME_PAUSE_MS: u64 = 33;

/// The layout of a grabbed frame: 32-bit pixels, rows of `width * 4`
/// bytes, `height` rows, and a bitmap header height of `-height`, which
/// makes the rows run from the top of the screen down.
#[derive(Debug, PartialEq)]
pub struct GdiFrameLayout {
    pub row_bytes: usize,
    pub frame_bytes: usize,
    pub header_height: i32,
}

/// The layout of a `width` by `height` frame.
pub fn gdi_frame_layout(width: i32, height: i32) -> (r: GdiFrameLayout)
    requires
        0 <= width,
        width * 4 <= i32::MAX,
        0 <= height,
        width * 4 * height <= usize::MAX,
    ensures
        r.row_bytes == width * 4,
        r.frame_bytes == width * 4 * height,
        r.header_height == -height,
{
    let row: i32 = width * 4;
    let row_bytes = row as usize;
    assert(row_bytes * (height as usize) == width * 4 * height);
    let frame_bytes = row_bytes * (height as usize);
    GdiFrameLayout { row_bytes, frame_bytes, header_height: -height }
}

/// Where the cursor icon is drawn so that its hot spot lands on the cursor
/// position.
pub fn cursor_draw_origin(cursor_x: i32, cursor_y: i32, hotspot_x: i32, hotspot_y: i32) -> (r: (i32, i32))
    requires
        i32::MIN <= cursor_x - hotspot_x <= i32::MAX,
        i32::MIN <= cursor_y - hotspot_y <= i32::MAX,
    ensures
        r.0 == cursor_x - hotspot_x,
        r.1 == cursor_y - hotspot_y,
{
    (cursor_x - hotspot_x, cursor_y - hotspot_y)
}

/// The timestamp of the next grabbed frame.
#[derive(Debug, PartialEq)]
pub struct GdiFrameClock {
    pub pts: u64,
}

impl GdiFrameClock {
    /// The clock before the first frame.
    pub fn new() -> (r: Self)
        ensures
            r.pts == 0,
    {
        GdiFrameClock { pts: 0 }
    }

    /// The timestamp and duration of the next frame; the clock moves on by
    /// one frame duration.
    pub fn next_frame(&mut self) -> (r: (u64, u64))
        requires
            old(self).pts + GDI_FRAME_DURATION_NS <= u64::MAX,
        ensures
            r == (old(self).pts, GDI_FRAME_DURATION_NS),
            final(self).pts == old(self).pts + GDI_FRAME_DURATION_NS,
    {
        let pts = self.pts;
        self.pts = self.pts + GDI_FRAME_DURATION_NS;
        (pts, GDI_FRAME_DURATION_NS)
    }
}

} // verus!
