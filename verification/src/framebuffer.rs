//! The adapter's one frame buffer and the display geometry.
//!
//! The device has a fixed resolution and a single window covering it, so the
//! buffer holds exactly one full frame, sized once at construction and never
//! resized. The rendering engine is handed the pixels for the duration of a
//! render pass; a snapshot of the frame is what goes to the display
//! hardware, always over the full-screen region.

use vstd::prelude::*;

verus! {

/// Width of the writable display area, in pixels.
pub const HORIZONTAL_RESOLUTION: usize = 480;

/// Height of the writable display area, in pixels.
pub const VERTICAL_RESOLUTION: usize = 240;

/// Number of pixels in one full frame.
pub const PIXEL_COUNT: usize = HORIZONTAL_RESOLUTION * VERTICAL_RESOLUTION;

/// How long one tick yields to the scheduler: the display refreshes at
/// roughly 60 frames per second.
pub const REFRESH_INTERVAL_MICROS: u64 = 16667;

/// One RGB pixel, eight bits per channel, as the software renderer writes
/// it.
#[derive(Clone, Copy, PartialEq, Eq, Structural, Debug)]
pub struct Rgb8 {
    pub r: u8,
    pub g: u8,
    pub b: u8,
}

/// The color every pixel starts out as.
pub open spec fn black() -> Rgb8 {
    Rgb8 { r: 0, g: 0, b: 0 }
}

/// An axis-aligned region of the display, by top-left corner and size in
/// pixels.
#[derive(Clone, Copy, PartialEq, Eq, Structural, Debug)]
pub struct Region {
    pub x: usize,
    pub y: usize,
    pub width: usize,
    pub height: usize,
}

impl Region {
    /// Whether the region is exactly the whole writable display.
    pub open spec fn covers_full_screen(self) -> bool {
        self.x == 0 && self.y == 0 && self.width == HORIZONTAL_RESOLUTION && self.height
            == VERTICAL_RESOLUTION
    }

    /// The region every hardware transfer uses: the full screen.
    pub fn full_screen() -> (r: Region)
        ensures
            r.covers_full_screen(),
    {
        Region { x: 0, y: 0, width: HORIZONTAL_RESOLUTION, height: VERTICAL_RESOLUTION }
    }
}

/// The one frame of pixels the adapter owns. Its size is an invariant, not a
/// runtime check: every well-formed buffer holds exactly one full frame, in
/// row-major order with a row stride of [`HORIZONTAL_RESOLUTION`].
pub struct FrameBuffer {
    pixels: Vec<Rgb8>,
}

impl View for FrameBuffer {
    type V = Seq<Rgb8>;

    closed spec fn view(&self) -> Seq<Rgb8> {
        self.pixels@
    }
}

impl FrameBuffer {
    /// The size invariant: exactly one full frame.
    pub open spec fn wf(&self) -> bool {
        self@.len() == PIXEL_COUNT
    }

    /// A fresh frame: full-sized and all black.
    pub fn new() -> (fb: FrameBuffer)
        ensures
            fb.wf(),
            forall|i: int| 0 <= i < fb@.len() ==> fb@[i] == black(),
    {
        let mut pixels: Vec<Rgb8> = Vec::new();
        let mut i: usize = 0;
        while i < PIXEL_COUNT
            invariant
                i <= PIXEL_COUNT,
                pixels@.len() == i,
                forall|j: int| 0 <= j < i ==> pixels@[j] == black(),
            decreases PIXEL_COUNT - i,
        {
            pixels.push(Rgb8 { r: 0, g: 0, b: 0 });
            i = i + 1;
        }
        FrameBuffer { pixels }
    }

    /// How many pixels the frame holds.
    pub fn len(&self) -> (n: usize)
        requires
            self.wf(),
        ensures
            n == PIXEL_COUNT,
    {
        self.pixels.len()
    }

    /// The pixel at column `x` of row `y`, per the row-major layout.
    pub fn pixel(&self, x: usize, y: usize) -> (p: Rgb8)
        requires
            self.wf(),
            x < HORIZONTAL_RESOLUTION,
            y < VERTICAL_RESOLUTION,
        ensures
            p == self@[y * HORIZONTAL_RESOLUTION + x],
    {
        self.pixels[y * HORIZONTAL_RESOLUTION + x]
    }

    /// Write the pixel at column `x` of row `y`, leaving every other pixel
    /// as it was.
    pub fn set_pixel(&mut self, x: usize, y: usize, p: Rgb8)
        requires
            old(self).wf(),
            x < HORIZONTAL_RESOLUTION,
            y < VERTICAL_RESOLUTION,
        ensures
            final(self).wf(),
            final(self)@ == old(self)@.update(y * HORIZONTAL_RESOLUTION + x, p),
    {
        let i = y * HORIZONTAL_RESOLUTION + x;
        self.pixels.set(i, p);
    }

    /// A copy of the frame, taken so the shared buffer need not be held
    /// across the hardware transfer call.
    pub fn snapshot(&self) -> (copy: FrameBuffer)
        ensures
            copy@ == self@,
    {
        let mut pixels: Vec<Rgb8> = Vec::new();
        let mut i: usize = 0;
        while i < self.pixels.len()
            invariant
                i <= self.pixels@.len(),
                pixels@ == self.pixels@.take(i as int),
            decreases self.pixels@.len() - i,
        {
            pixels.push(self.pixels[i]);
            proof {
                assert(self.pixels@.take(i as int + 1) =~= self.pixels@.take(i as int).push(
                    self.pixels@[i as int],
                ));
            }
            i = i + 1;
        }
        proof {
            assert(self.pixels@.take(self.pixels@.len() as int) =~= self.pixels@);
        }
        FrameBuffer { pixels }
    }
}

} // verus!
