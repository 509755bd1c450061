//! The framebuffer: 64 by 32 monochrome pixels, row by row.

use vstd::prelude::*;

verus! {

/// The width of the display in pixels.
pub const DISPLAY_WIDTH: usize = 64;

/// The height of the display in pixels.
pub const DISPLAY_HEIGHT: usize = 32;

/// The number of pixels of the display.
pub const DISPLAY_PIXELS: usize = DISPLAY_WIDTH * DISPLAY_HEIGHT;

/// The side, in window pixels, of the square that shows one display pixel.
pub const SCALE: usize = 8;

/// The width of the window in window pixels.
pub const WINDOW_WIDTH: usize = DISPLAY_WIDTH * SCALE;

/// The height of the window in window pixels.
pub const WINDOW_HEIGHT: usize = DISPLAY_HEIGHT * SCALE;

/// The colour of a lit pixel in the window.
pub const COLOR_ON: u32 = 0xFFFFFFFF;

/// The colour of a dark pixel in the window.
pub const COLOR_OFF: u32 = 0;

/// Where pixel (`x`, `y`) stands in the row-major framebuffer.
pub open spec fn pixel_index(x: int, y: int) -> int {
    y * DISPLAY_WIDTH + x
}

/// A framebuffer with every pixel dark.
pub open spec fn blank() -> Seq<bool> {
    Seq::new(DISPLAY_PIXELS as nat, |p: int| false)
}

/// The window image of framebuffer `pixels`: every display pixel becomes a
/// square of `SCALE` by `SCALE` window pixels of one colour.
pub open spec fn scaled(pixels: Seq<bool>) -> Seq<u32> {
    Seq::new(
        (WINDOW_WIDTH * WINDOW_HEIGHT) as nat,
        |k: int|
            if pixels[pixel_index((k % WINDOW_WIDTH as int) / SCALE as int, (k / WINDOW_WIDTH as int) / SCALE as int)] {
                COLOR_ON
            } else {
                COLOR_OFF
            },
    )
}

/// The display. Its view is the sequence of its 2048 pixels, row by row.
#[derive(Debug, Clone, Copy)]
pub struct Display {
    buf: [bool; DISPLAY_PIXELS],
}

impl View for Display {
    type V = Seq<bool>;

    open spec fn view(&self) -> Seq<bool> {
        Seq::new(DISPLAY_PIXELS as nat, |p: int| self.pixel_at(p))
    }
}

impl Display {
    /// Whether the pixel at index `p` of the framebuffer is lit.
    pub closed spec fn pixel_at(&self, p: int) -> bool {
        self.buf@[p]
    }

    /// A display with every pixel dark.
    pub fn new() -> (d: Display)
        ensures
            d@ == blank(),
    {
        Display { buf: [false; DISPLAY_PIXELS] }
    }

    /// Turns every pixel dark.
    pub fn clear(&mut self)
        ensures
            final(self)@ == blank(),
    {
        self.buf = [false; DISPLAY_PIXELS];
    }

    /// Flips pixel (`x`, `y`) and tells whether it was lit before.
    pub fn xor_pixel(&mut self, x: usize, y: usize) -> (was_set: bool)
        requires
            x < DISPLAY_WIDTH,
            y < DISPLAY_HEIGHT,
        ensures
            was_set == old(self)@[pixel_index(x as int, y as int)],
            final(self)@ == old(self)@.update(pixel_index(x as int, y as int), !was_set),
    {
        let index = y * DISPLAY_WIDTH + x;
        let was_set = self.buf[index];
        self.buf[index] = !was_set;
        was_set
    }

    /// Whether pixel (`x`, `y`) is lit.
    pub fn pixel(&self, x: usize, y: usize) -> (is_set: bool)
        requires
            x < DISPLAY_WIDTH,
            y < DISPLAY_HEIGHT,
        ensures
            is_set == self@[pixel_index(x as int, y as int)],
    {
        self.buf[y * DISPLAY_WIDTH + x]
    }

    /// A copy of all pixels, row by row, for the host to show.
    pub fn snapshot(&self) -> (frame: [bool; DISPLAY_PIXELS])
        ensures
            frame@ == self@,
    {
        self.buf
    }

    /// The window image of the display: one colour value per window pixel,
    /// row by row.
    pub fn render(&self) -> (image: Vec<u32>)
        ensures
            image@ == scaled(self@),
    {
        let total = WINDOW_WIDTH * WINDOW_HEIGHT;
        let mut image: Vec<u32> = Vec::new();
        let mut k: usize = 0;
        while k < total
            invariant
                k <= total,
                total == 512 * 256,
                WINDOW_WIDTH == 512,
                SCALE == 8,
                DISPLAY_WIDTH == 64,
                image@.len() == k,
                forall|j: int| 0 <= j < k ==> image@[j] == scaled(self@)[j],
            decreases total - k,
        {
            let x = (k % WINDOW_WIDTH) / SCALE;
            let y = (k / WINDOW_WIDTH) / SCALE;
            let is_set = self.buf[y * DISPLAY_WIDTH + x];
            image.push(if is_set { COLOR_ON } else { COLOR_OFF });
            k += 1;
        }
        image
    }
}

} // verus!
