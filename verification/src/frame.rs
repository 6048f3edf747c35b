//! The packed frame buffer: two 4-bit grayscale pixels per byte.
//!
//! Pixels are stored row by row. The byte at index `(y * width + x) / 2`
//! holds the pixel with even `x` in its high nibble and the pixel with odd
//! `x` in its low nibble.

use vstd::prelude::*;
use embedded_graphics_core::pixelcolor::Gray4;
use crate::gray::{gray4_luma, level_of, origin_box_contains};

verus! {

/// The number of bytes that hold `width * height` pixels at four bits each.
pub open spec fn spec_buffer_size(width: int, height: int) -> int {
    (width * height) / 2
}

/// Calculates the buffer size required for the 4bpp SSD1322 display based on its width and height.
pub fn calculate_buffer_size(width: usize, height: usize) -> (size: usize)
    requires
        width * height <= usize::MAX,
    ensures
        size == spec_buffer_size(width as int, height as int),
{
    (width * height) / 2
}

/// The byte `byte` with one of its nibbles replaced by the low four bits of
/// `level`: the high nibble when `x` is even, the low nibble when `x` is odd.
pub open spec fn with_nibble(byte: u8, x: int, level: u8) -> u8 {
    if x % 2 == 0 {
        (16 * (level % 16) + byte % 16) as u8
    } else {
        (16 * (byte / 16) + level % 16) as u8
    }
}

/// The nibble of `byte` that belongs to column `x`.
pub open spec fn nibble_of(byte: u8, x: int) -> u8 {
    if x % 2 == 0 {
        byte / 16
    } else {
        byte % 16
    }
}

/// The byte that holds the low four bits of `level` in both nibbles.
pub open spec fn both_nibbles(level: u8) -> u8 {
    (17 * (level % 16)) as u8
}

/// What a frame is to its contracts: its dimensions in pixels and the bytes
/// of its buffer.
pub struct FrameView {
    /// The width in pixels.
    pub width: int,
    /// The height in pixels.
    pub height: int,
    /// The packed pixel data.
    pub bytes: Seq<u8>,
}

impl FrameView {
    /// The buffer has exactly the size that the dimensions call for.
    pub open spec fn wf(self) -> bool {
        self.bytes.len() == spec_buffer_size(self.width, self.height)
    }

    /// The index of the byte that holds pixel `(x, y)`.
    pub open spec fn byte_index(self, x: int, y: int) -> int {
        (y * self.width + x) / 2
    }

    /// Whether `(x, y)` is a pixel of the frame whose byte lies in the buffer.
    pub open spec fn holds(self, x: int, y: int) -> bool {
        &&& 0 <= x < self.width
        &&& 0 <= y < self.height
        &&& self.byte_index(x, y) < self.bytes.len()
    }

    /// The level stored for pixel `(x, y)`.
    pub open spec fn pixel(self, x: int, y: int) -> u8 {
        nibble_of(self.bytes[self.byte_index(x, y)], x)
    }

    /// The frame after pixel `(x, y)` was set to `level`: unchanged when the
    /// frame does not hold the pixel, else changed in one nibble of one byte.
    pub open spec fn written(self, x: int, y: int, level: u8) -> FrameView {
        if self.holds(x, y) {
            let index = self.byte_index(x, y);
            FrameView {
                bytes: self.bytes.update(index, with_nibble(self.bytes[index], x, level)),
                ..self
            }
        } else {
            self
        }
    }

    /// The frame after a drawing layer wrote `level` at the point `(x, y)`.
    ///
    /// A point outside the frame's bounding box is dropped. A point inside it
    /// is addressed by the low eight bits of each coordinate, since the frame
    /// addresses pixels by bytes.
    pub open spec fn plotted(self, x: int, y: int, level: u8) -> FrameView {
        if 0 <= x < self.width && 0 <= y < self.height {
            self.written(x % 256, y % 256, level)
        } else {
            self
        }
    }

    /// The frame after the points of `pixels` were drawn onto it in order.
    pub open spec fn drawn(self, pixels: Seq<(i32, i32, Gray4)>) -> FrameView
        decreases pixels.len(),
    {
        if pixels.len() == 0 {
            self
        } else {
            let last = pixels.last();
            self.drawn(pixels.drop_last()).plotted(
                last.0 as int,
                last.1 as int,
                gray4_luma(last.2),
            )
        }
    }

    /// The frame with every byte replaced by `level` in both nibbles.
    pub open spec fn filled(self, level: u8) -> FrameView {
        FrameView { bytes: Seq::new(self.bytes.len(), |i: int| both_nibbles(level)), ..self }
    }
}

/// A frame buffer for the SSD1322 display.
///
/// The `Frame` struct contains the screen buffer and its dimensions in pixels.
pub struct Frame<const N: usize> {
    /// The width of the frame buffer in pixels.
    pub width: u16,
    /// The height of the frame buffer in pixels.
    pub height: u16,
    /// The buffer storing the pixel data.
    pub buffer: [u8; N],
}

impl<const N: usize> View for Frame<N> {
    type V = FrameView;

    open spec fn view(&self) -> FrameView {
        FrameView { width: self.width as int, height: self.height as int, bytes: self.buffer@ }
    }
}

impl<const N: usize> Frame<N> {
    /// Creates a new `Frame` with the specified dimensions and buffer.
    pub fn new(width: u16, height: u16, buffer: [u8; N]) -> (frame: Self)
        ensures
            frame.width == width,
            frame.height == height,
            frame.buffer == buffer,
    {
        Self { width, height, buffer }
    }

    /// Sets a pixel in the frame buffer to the low four bits of `level`.
    ///
    /// A pixel outside the frame is dropped without an error.
    pub fn set_level(&mut self, x: u8, y: u8, level: u8)
        ensures
            final(self)@ == old(self)@.written(x as int, y as int, level),
    {
        if x as usize >= self.width as usize || y as usize >= self.height as usize {
            return ;
        }
        assert((y as usize) * (self.width as usize) + (x as usize) <= 255 * 65535 + 255)
            by (nonlinear_arith)
            requires
                y <= 255,
                x <= 255,
                self.width <= 65535,
        ;
        let idx: usize = ((y as usize) * (self.width as usize) + (x as usize)) / 2;
        if idx >= N {
            return ;
        }
        let low: u8 = level & 0x0F;
        assert(low == level % 16) by (bit_vector)
            requires
                low == level & 0x0F,
        ;
        let byte: u8 = self.buffer[idx];
        if x % 2 == 0 {
            assert((byte & 0x0F) | (low << 4) == 16 * low + byte % 16) by (bit_vector)
                requires
                    low <= 15,
            ;
            self.buffer[idx] = (byte & 0x0F) | (low << 4);
        } else {
            assert((byte & 0xF0) | low == 16 * (byte / 16) + low) by (bit_vector)
                requires
                    low <= 15,
            ;
            self.buffer[idx] = (byte & 0xF0) | low;
        }
    }

    /// Sets a pixel in the frame buffer to the specified color.
    ///
    /// A pixel outside the frame is dropped without an error.
    pub fn set_pixel(&mut self, x: u8, y: u8, color: Gray4)
        ensures
            final(self)@ == old(self)@.written(x as int, y as int, gray4_luma(color)),
    {
        let level = level_of(color);
        self.set_level(x, y, level);
    }

    /// Reads the level of pixel `(x, y)`, or `None` when the frame does not
    /// hold that pixel.
    pub fn get_pixel(&self, x: u8, y: u8) -> (level: Option<u8>)
        ensures
            level == if self@.holds(x as int, y as int) {
                Some(self@.pixel(x as int, y as int))
            } else {
                None
            },
    {
        if x as usize >= self.width as usize || y as usize >= self.height as usize {
            return None;
        }
        assert((y as usize) * (self.width as usize) + (x as usize) <= 255 * 65535 + 255)
            by (nonlinear_arith)
            requires
                y <= 255,
                x <= 255,
                self.width <= 65535,
        ;
        let idx: usize = ((y as usize) * (self.width as usize) + (x as usize)) / 2;
        if idx >= N {
            return None;
        }
        let byte: u8 = self.buffer[idx];
        if x % 2 == 0 {
            assert(byte >> 4 == byte / 16) by (bit_vector);
            Some(byte >> 4)
        } else {
            assert(byte & 0x0F == byte % 16) by (bit_vector);
            Some(byte & 0x0F)
        }
    }

    /// Fills the whole buffer with the low four bits of `level`.
    pub fn fill(&mut self, level: u8)
        ensures
            final(self)@ == old(self)@.filled(level),
    {
        let low: u8 = level & 0x0F;
        let packed: u8 = (low << 4) | low;
        assert(packed == 17 * (level % 16)) by (bit_vector)
            requires
                low == level & 0x0F,
                packed == (low << 4) | low,
        ;
        let mut i: usize = 0;
        while i < N
            invariant
                i <= N,
                self.width == old(self).width,
                self.height == old(self).height,
                packed == both_nibbles(level),
                forall|k: int| 0 <= k < i ==> self.buffer@[k] == packed,
            decreases N - i,
        {
            self.buffer[i] = packed;
            i += 1;
        }
        assert(self@.bytes =~= old(self)@.filled(level).bytes);
    }

    /// Fills the whole buffer with one color.
    pub fn clear(&mut self, color: Gray4)
        ensures
            final(self)@ == old(self)@.filled(gray4_luma(color)),
    {
        let level = level_of(color);
        self.fill(level);
    }

    /// The dimensions of the frame in pixels, width first.
    pub fn size(&self) -> (size: (u32, u32))
        ensures
            size.0 == self.width,
            size.1 == self.height,
    {
        (self.width as u32, self.height as u32)
    }

    /// Writes one point of a drawing: `color` at `(x, y)`, or nothing when the
    /// point lies outside the frame's bounding box.
    pub fn draw_pixel(&mut self, x: i32, y: i32, color: Gray4)
        ensures
            final(self)@ == old(self)@.plotted(x as int, y as int, gray4_luma(color)),
    {
        if origin_box_contains(self.width, self.height, x, y) {
            self.set_pixel((x % 256) as u8, (y % 256) as u8, color);
        }
    }

    /// Writes the points of a drawing in order; points outside the frame's
    /// bounding box are skipped.
    pub fn draw_iter(&mut self, pixels: &[(i32, i32, Gray4)])
        ensures
            final(self)@ == old(self)@.drawn(pixels@),
    {
        let mut i: usize = 0;
        while i < pixels.len()
            invariant
                i <= pixels.len(),
                self@ == old(self)@.drawn(pixels@.take(i as int)),
            decreases pixels.len() - i,
        {
            let (x, y, color) = pixels[i];
            proof {
                let upto = pixels@.take(i + 1);
                assert(upto.drop_last() =~= pixels@.take(i as int));
                assert(upto.last() == pixels@[i as int]);
            }
            self.draw_pixel(x, y, color);
            i += 1;
        }
        assert(pixels@.take(pixels.len() as int) =~= pixels@);
    }
}

impl<const N: usize> Default for Frame<N> {
    /// A black frame of 256 by 64 pixels.
    fn default() -> (frame: Self)
        ensures
            frame.width == 256,
            frame.height == 64,
            frame.buffer@ == Seq::new(N as nat, |i: int| 0u8),
    {
        let frame = Self { width: 256, height: 64, buffer: [0;N] };
        assert(frame.buffer@ =~= Seq::new(N as nat, |i: int| 0u8));
        frame
    }
}

/// A pixel that was just set reads back as the low four bits of the level
/// that was written.
pub proof fn set_then_get(frame: FrameView, x: int, y: int, level: u8)
    requires
        frame.holds(x, y),
    ensures
        frame.written(x, y, level).pixel(x, y) == level % 16,
        frame.written(x, y, level).holds(x, y),
{
}

/// Setting a pixel changes one nibble of one byte: the buffer keeps its
/// length, every other byte keeps its value, and in the byte that was written
/// the nibble of the neighbouring column keeps its value.
pub proof fn set_keeps_the_rest(frame: FrameView, x: int, y: int, level: u8, i: int)
    requires
        frame.holds(x, y),
        0 <= i < frame.bytes.len(),
    ensures
        frame.written(x, y, level).width == frame.width,
        frame.written(x, y, level).height == frame.height,
        frame.written(x, y, level).bytes.len() == frame.bytes.len(),
        i != frame.byte_index(x, y) ==> frame.written(x, y, level).bytes[i] == frame.bytes[i],
        nibble_of(frame.written(x, y, level).bytes[i], x + 1) == nibble_of(frame.bytes[i], x + 1),
{
}

/// On a frame of even width no two pixels share a nibble: setting one pixel
/// leaves every other pixel of the frame as it was.
pub proof fn set_keeps_other_pixels(
    frame: FrameView,
    x: int,
    y: int,
    level: u8,
    other_x: int,
    other_y: int,
)
    requires
        frame.width % 2 == 0,
        frame.holds(x, y),
        frame.holds(other_x, other_y),
        other_x != x || other_y != y,
    ensures
        frame.written(x, y, level).pixel(other_x, other_y) == frame.pixel(other_x, other_y),
{
    let w = frame.width;
    let here = y * w + x;
    let there = other_y * w + other_x;
    assert(here != there) by (nonlinear_arith)
        requires
            here == y * w + x,
            there == other_y * w + other_x,
            0 <= x < w,
            0 <= other_x < w,
            other_x != x || other_y != y,
    ;
    let half = w / 2;
    assert(y * w == 2 * (y * half) && other_y * w == 2 * (other_y * half)) by (nonlinear_arith)
        requires
            w == 2 * half,
    ;
}

/// After a clear every pixel that the frame holds reads back as the low four
/// bits of the level it was cleared to.
pub proof fn clear_then_get(frame: FrameView, level: u8, x: int, y: int)
    requires
        frame.holds(x, y),
    ensures
        frame.filled(level).holds(x, y),
        frame.filled(level).pixel(x, y) == level % 16,
{
    assert(0 <= frame.byte_index(x, y)) by (nonlinear_arith)
        requires
            frame.byte_index(x, y) == (y * frame.width + x) / 2,
            0 <= x,
            0 <= y,
            0 <= frame.width,
    ;
}

/// Clearing a second time to the same level changes nothing.
pub proof fn clear_is_idempotent(frame: FrameView, level: u8)
    ensures
        frame.filled(level).filled(level) == frame.filled(level),
{
    assert(frame.filled(level).filled(level).bytes =~= frame.filled(level).bytes);
}

/// A frame whose buffer has the size that its dimensions call for holds
/// every pixel within its dimensions, provided the number of pixels is even
/// (with an odd number the last pixel has no byte).
pub proof fn well_formed_holds_all(frame: FrameView, x: int, y: int)
    requires
        frame.wf(),
        (frame.width * frame.height) % 2 == 0,
        0 <= x < frame.width,
        0 <= y < frame.height,
    ensures
        frame.holds(x, y),
{
    let w = frame.width;
    let h = frame.height;
    assert(y * w + x < w * h) by (nonlinear_arith)
        requires
            0 <= x < w,
            0 <= y < h,
    ;
}

} // verus!
