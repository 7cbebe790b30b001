//! The bit-packed monochrome frame and its mapping from logical pixels to the
//! controller's RAM layout.
//!
//! The panel's electrical pixel order is turned by a quarter and mirrored
//! against the logical picture: the logical column `y` is the hardware column
//! within a RAM row, and the logical row `x`, counted from the far edge, is the
//! RAM row.
use vstd::prelude::*;
use crate::panel::{BUFFER_SIZE, DISPLAY_HEIGHT, DISPLAY_WIDTH, DISPLAY_WIDTH_BYTES, packed_len};

verus! {

/// The colour of one pixel.
#[derive(Clone, Copy, Debug, PartialEq, Eq, Structural)]
pub enum BinaryColor {
    /// Dark: the pixel is charged, its bit is 1.
    Off,
    /// Light: the pixel is not charged, its bit is 0.
    On,
}

/// The other colour.
pub open spec fn opposite(c: BinaryColor) -> BinaryColor {
    match c {
        BinaryColor::Off => BinaryColor::On,
        BinaryColor::On => BinaryColor::Off,
    }
}

/// The bit that stands for a colour in the frame.
pub open spec fn color_bit(c: BinaryColor) -> bool {
    c == BinaryColor::Off
}

/// One pixel to draw, at logical coordinates.
#[derive(Clone, Copy, Debug, PartialEq, Eq, Structural)]
pub struct Pixel {
    pub x: i32,
    pub y: i32,
    pub color: BinaryColor,
}

/// Why a pixel could not be drawn.
#[derive(Clone, Copy, Debug, PartialEq, Eq, Structural)]
pub enum DrawError {
    /// The pixel lies outside the panel.
    OutOfBounds,
}

/// A raw byte source of the wrong length was offered as a frame.
#[derive(Clone, Copy, Debug, PartialEq, Eq, Structural)]
pub struct FrameLengthError {
    /// The length that was offered.
    pub len: usize,
}

/// How the logical picture is laid on the panel.
#[derive(Clone, Copy, Debug, PartialEq, Eq, Structural)]
pub enum Orientation {
    Portrait,
    /// Reserved: nothing draws in this orientation yet.
    Landscape,
}

/// Whether `(x, y)` lies on the panel.
pub open spec fn in_bounds(x: int, y: int) -> bool {
    0 <= x < DISPLAY_WIDTH as int && 0 <= y < DISPLAY_HEIGHT as int
}

/// Whether the address mapping gives `(x, y)` a place in the frame: the pixel
/// is on the panel and its reversed row index `H - x - 1` is not negative.
pub open spec fn addressable(x: int, y: int) -> bool {
    in_bounds(x, y) && x < DISPLAY_HEIGHT as int
}

/// Byte that holds pixel `(x, y)` in a frame of `w` by `h` pixels.
pub open spec fn pixel_byte(w: int, h: int, x: int, y: int) -> int {
    (h - x - 1) * (w / 8) + y / 8
}

/// Position of pixel `(x, y)` within its byte, counted from the least
/// significant bit: the first pixel of a byte is its most significant bit.
pub open spec fn pixel_bit(y: int) -> u8 {
    (7 - y % 8) as u8
}

/// Byte that holds pixel `(x, y)` on this panel.
pub open spec fn byte_index(x: int, y: int) -> int {
    pixel_byte(DISPLAY_WIDTH as int, DISPLAY_HEIGHT as int, x, y)
}

/// Bit `k` of `b`.
pub open spec fn get_bit(b: u8, k: u8) -> bool {
    (b >> k) & 1u8 == 1u8
}

/// `b` with bit `k` set to the bit of colour `c`.
pub open spec fn paint(b: u8, k: u8, c: BinaryColor) -> u8 {
    match c {
        BinaryColor::Off => b | (1u8 << k),
        BinaryColor::On => b & !(1u8 << k),
    }
}

/// The bit of pixel `(x, y)` in frame bytes `buf`.
pub open spec fn pixel_value(buf: Seq<u8>, x: int, y: int) -> bool {
    get_bit(buf[byte_index(x, y)], pixel_bit(y))
}

/// Frame bytes `buf` after pixel `(x, y)` is drawn in colour `c`.
pub open spec fn drawn(buf: Seq<u8>, x: int, y: int, c: BinaryColor) -> Seq<u8> {
    let i = byte_index(x, y);
    buf.update(i, paint(buf[i], pixel_bit(y), c))
}

/// Frame bytes `buf` after the pixels of `px` are drawn one after the other.
pub open spec fn drawn_all(buf: Seq<u8>, px: Seq<Pixel>) -> Seq<u8>
    decreases px.len(),
{
    if px.len() == 0 {
        buf
    } else {
        let p = px.last();
        drawn(drawn_all(buf, px.drop_last()), p.x as int, p.y as int, p.color)
    }
}

/// The bytes of a fresh frame: every pixel light-side unset, all bits 1.
pub open spec fn blank_frame() -> Seq<u8> {
    Seq::new(BUFFER_SIZE as nat, |i: int| 0xFFu8)
}

/// Painting a bit sets that bit to the colour's bit and keeps the other seven.
pub proof fn lemma_paint(b: u8, k: u8, c: BinaryColor)
    requires
        k < 8,
    ensures
        get_bit(paint(b, k, c), k) == color_bit(c),
        forall|j: u8| j < 8 && j != k ==> #[trigger] get_bit(paint(b, k, c), j) == get_bit(b, j),
{
    match c {
        BinaryColor::Off => {
            assert(get_bit(b | (1u8 << k), k)) by (bit_vector)
                requires
                    k < 8,
            ;
            assert(forall|j: u8|
                j < 8 && j != k ==> #[trigger] get_bit(b | (1u8 << k), j) == get_bit(b, j))
                by (bit_vector)
                requires
                    k < 8,
            ;
        },
        BinaryColor::On => {
            assert(!get_bit(b & !(1u8 << k), k)) by (bit_vector)
                requires
                    k < 8,
            ;
            assert(forall|j: u8|
                j < 8 && j != k ==> #[trigger] get_bit(b & !(1u8 << k), j) == get_bit(b, j))
                by (bit_vector)
                requires
                    k < 8,
            ;
        },
    }
}

/// Painting a bit with the colour it already holds changes nothing.
proof fn lemma_paint_same(b: u8, k: u8, c: BinaryColor)
    requires
        k < 8,
        get_bit(b, k) == color_bit(c),
    ensures
        paint(b, k, c) == b,
{
    match c {
        BinaryColor::Off => {
            assert(b | (1u8 << k) == b) by (bit_vector)
                requires
                    k < 8,
                    (b >> k) & 1u8 == 1u8,
            ;
        },
        BinaryColor::On => {
            assert(b & !(1u8 << k) == b) by (bit_vector)
                requires
                    k < 8,
                    (b >> k) & 1u8 != 1u8,
            ;
        },
    }
}

/// Painting a bit twice keeps only the second colour.
proof fn lemma_paint_twice(b: u8, k: u8, c1: BinaryColor, c2: BinaryColor)
    requires
        k < 8,
    ensures
        paint(paint(b, k, c1), k, c2) == paint(b, k, c2),
{
    assert(((b | (1u8 << k)) | (1u8 << k)) == b | (1u8 << k)) by (bit_vector);
    assert(((b & !(1u8 << k)) | (1u8 << k)) == b | (1u8 << k)) by (bit_vector);
    assert(((b | (1u8 << k)) & !(1u8 << k)) == b & !(1u8 << k)) by (bit_vector);
    assert(((b & !(1u8 << k)) & !(1u8 << k)) == b & !(1u8 << k)) by (bit_vector);
}

/// For any panel whose width is a multiple of eight, the packed frame holds
/// `(w / 8) * h` bytes, every pixel of the mapping lands inside it, and no two
/// pixels share a bit.
pub proof fn lemma_packing(w: int, h: int, x1: int, y1: int, x2: int, y2: int)
    requires
        w > 0,
        h > 0,
        w % 8 == 0,
        0 <= x1 < h,
        0 <= y1 < w,
        0 <= x2 < h,
        0 <= y2 < w,
    ensures
        packed_len(w, h) == (w / 8) * h,
        0 <= pixel_byte(w, h, x1, y1) < packed_len(w, h),
        pixel_bit(y1) < 8,
        pixel_byte(w, h, x1, y1) == pixel_byte(w, h, x2, y2) && pixel_bit(y1) == pixel_bit(y2)
            ==> x1 == x2 && y1 == y2,
{
    let wb = w / 8;
    assert(0 <= y1 / 8 < wb);
    assert(0 <= y2 / 8 < wb);
    assert(0 <= (h - x1 - 1) * wb <= (h - 1) * wb) by (nonlinear_arith)
        requires
            0 <= h - x1 - 1 <= h - 1,
            wb > 0,
    ;
    assert((h - 1) * wb + wb == h * wb) by (nonlinear_arith);
    if pixel_byte(w, h, x1, y1) == pixel_byte(w, h, x2, y2) && pixel_bit(y1) == pixel_bit(y2) {
        let r1 = h - x1 - 1;
        let r2 = h - x2 - 1;
        assert(r1 == r2 && y1 / 8 == y2 / 8) by (nonlinear_arith)
            requires
                r1 * wb + y1 / 8 == r2 * wb + y2 / 8,
                0 <= y1 / 8 < wb,
                0 <= y2 / 8 < wb,
                r1 >= 0,
                r2 >= 0,
        ;
        assert(y1 == 8 * (y1 / 8) + y1 % 8);
        assert(y2 == 8 * (y2 / 8) + y2 % 8);
    }
}

/// Drawing an addressable pixel changes exactly its own bit: the bit takes the
/// colour's value, every other bit of its byte and every other byte stay. Drawing
/// the opposite colour and then the pixel's present colour restores the frame.
pub proof fn lemma_draw_pixel(buf: Seq<u8>, x: int, y: int, c: BinaryColor)
    requires
        buf.len() == BUFFER_SIZE,
        addressable(x, y),
    ensures
        drawn(buf, x, y, c).len() == buf.len(),
        0 <= byte_index(x, y) < buf.len(),
        pixel_value(drawn(buf, x, y, c), x, y) == color_bit(c),
        forall|i: int|
            0 <= i < buf.len() && i != byte_index(x, y) ==> #[trigger] drawn(buf, x, y, c)[i]
                == buf[i],
        forall|j: u8|
            j < 8 && j != pixel_bit(y) ==> #[trigger] get_bit(drawn(buf, x, y, c)[byte_index(x, y)], j)
                == get_bit(buf[byte_index(x, y)], j),
        pixel_value(buf, x, y) == color_bit(c) ==> drawn(drawn(buf, x, y, opposite(c)), x, y, c)
            == buf,
{
    lemma_packing(DISPLAY_WIDTH as int, DISPLAY_HEIGHT as int, x, y, x, y);
    let i = byte_index(x, y);
    let k = pixel_bit(y);
    lemma_paint(buf[i], k, c);
    lemma_paint_twice(buf[i], k, opposite(c), c);
    if pixel_value(buf, x, y) == color_bit(c) {
        lemma_paint_same(buf[i], k, c);
        assert(drawn(drawn(buf, x, y, opposite(c)), x, y, c) =~= buf);
    }
}

/// A monochrome frame of the panel's size, one bit per pixel.
#[derive(Debug, PartialEq, Eq)]
pub struct Frame {
    buffer: [u8; BUFFER_SIZE],
    /// Room for drawing in another orientation later; always portrait so far.
    #[allow(dead_code)]
    orientation: Orientation,
}

impl View for Frame {
    type V = Seq<u8>;

    closed spec fn view(&self) -> Seq<u8> {
        self.buffer@
    }
}

impl Frame {
    /// A frame with every bit set.
    pub fn new() -> (r: Frame)
        ensures
            r@ == blank_frame(),
    {
        let buffer: [u8; BUFFER_SIZE] = [0xFFu8; BUFFER_SIZE];
        assert(buffer@ =~= blank_frame());
        Frame { buffer, orientation: Orientation::Portrait }
    }

    /// A frame holding `bytes`, which must be exactly one panel's worth.
    pub fn from_bytes(bytes: &[u8]) -> (r: Result<Frame, FrameLengthError>)
        ensures
            bytes@.len() == BUFFER_SIZE ==> r is Ok && r->Ok_0@ == bytes@,
            bytes@.len() != BUFFER_SIZE ==> r == Err::<Frame, _>(
                FrameLengthError { len: bytes@.len() as usize },
            ),
    {
        if bytes.len() != BUFFER_SIZE {
            return Err(FrameLengthError { len: bytes.len() });
        }
        let mut buffer: [u8; BUFFER_SIZE] = [0u8; BUFFER_SIZE];
        let mut i: usize = 0;
        while i < BUFFER_SIZE
            invariant
                i <= BUFFER_SIZE,
                bytes@.len() == BUFFER_SIZE,
                buffer@.len() == BUFFER_SIZE,
                forall|k: int| 0 <= k < i ==> buffer@[k] == bytes@[k],
            decreases BUFFER_SIZE - i,
        {
            buffer[i] = bytes[i];
            i = i + 1;
        }
        assert(buffer@ =~= bytes@);
        Ok(Frame { buffer, orientation: Orientation::Portrait })
    }

    /// The frame's bytes, row after row of the controller's RAM.
    pub fn as_bytes(&self) -> (r: &[u8])
        ensures
            r@ == self@,
            r@.len() == BUFFER_SIZE,
    {
        self.buffer.as_slice()
    }

    /// Width and height of the frame in pixels.
    pub fn size(&self) -> (r: (u32, u32))
        ensures
            r == (DISPLAY_WIDTH as u32, DISPLAY_HEIGHT as u32),
    {
        (DISPLAY_WIDTH as u32, DISPLAY_HEIGHT as u32)
    }

    /// Draws one pixel. A pixel off the panel, or one that the address mapping
    /// gives no place, is refused and the frame is left as it was.
    pub fn draw_pixel(&mut self, x: i32, y: i32, color: BinaryColor) -> (r: Result<(), DrawError>)
        ensures
            addressable(x as int, y as int) ==> r is Ok && final(self)@ == drawn(
                old(self)@,
                x as int,
                y as int,
                color,
            ),
            !addressable(x as int, y as int) ==> r == Err::<(), _>(DrawError::OutOfBounds)
                && final(self)@ == old(self)@,
            x >= DISPLAY_WIDTH || y >= DISPLAY_HEIGHT ==> r == Err::<(), _>(
                DrawError::OutOfBounds,
            ),
    {
        if x < 0 || y < 0 || x >= DISPLAY_WIDTH as i32 || y >= DISPLAY_HEIGHT as i32 || x
            >= DISPLAY_HEIGHT as i32 {
            return Err(DrawError::OutOfBounds);
        }
        proof {
            lemma_packing(DISPLAY_WIDTH as int, DISPLAY_HEIGHT as int, x as int, y as int, x as int, y as int);
        }
        // The logical column is the hardware column; the logical row, counted
        // from the far edge, is the hardware row.
        let column = y as usize;
        let row = DISPLAY_HEIGHT as usize - x as usize - 1;
        let index = row * DISPLAY_WIDTH_BYTES + column / 8;
        let bit = (7 - column % 8) as u8;
        let old_byte = self.buffer[index];
        let new_byte = match color {
            BinaryColor::Off => old_byte | (1u8 << bit),
            BinaryColor::On => old_byte & !(1u8 << bit),
        };
        self.buffer[index] = new_byte;
        Ok(())
    }

    /// Draws the pixels in order. At the first pixel that cannot be drawn it
    /// stops with that pixel's error; the pixels before it stay drawn.
    pub fn draw_iter(&mut self, pixels: &[Pixel]) -> (r: Result<(), DrawError>)
        ensures
            r is Ok <==> forall|i: int|
                0 <= i < pixels@.len() ==> addressable(
                    #[trigger] pixels@[i].x as int,
                    pixels@[i].y as int,
                ),
            r is Ok ==> final(self)@ == drawn_all(old(self)@, pixels@),
            r is Err ==> r == Err::<(), _>(DrawError::OutOfBounds) && exists|k: int|
                0 <= k < pixels@.len() && !addressable(pixels@[k].x as int, pixels@[k].y as int)
                    && (forall|i: int|
                    0 <= i < k ==> addressable(#[trigger] pixels@[i].x as int, pixels@[i].y as int))
                    && final(self)@ == drawn_all(old(self)@, pixels@.take(k)),
    {
        let mut i: usize = 0;
        while i < pixels.len()
            invariant
                i <= pixels@.len(),
                forall|j: int| 0 <= j < i ==> addressable(#[trigger] pixels@[j].x as int, pixels@[j].y as int),
                self@ == drawn_all(old(self)@, pixels@.take(i as int)),
            decreases pixels@.len() - i,
        {
            let p = pixels[i];
            let drew = self.draw_pixel(p.x, p.y, p.color);
            if drew.is_err() {
                assert(pixels@.take(i as int) =~= pixels@.take(i as int));
                return Err(DrawError::OutOfBounds);
            }
            proof {
                assert(pixels@.take(i + 1).drop_last() =~= pixels@.take(i as int));
            }
            i = i + 1;
        }
        assert(pixels@.take(pixels@.len() as int) =~= pixels@);
        Ok(())
    }
}

impl Default for Frame {
    fn default() -> (r: Frame)
        ensures
            r@ == blank_frame(),
    {
        Frame::new()
    }
}

} // verus!
