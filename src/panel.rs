//! Geometry of the panel.
use vstd::prelude::*;

verus! {

/// Panel width in pixels.
pub const DISPLAY_WIDTH: u16 = 800;

/// Panel height in pixels.
pub const DISPLAY_HEIGHT: u16 = 480;

/// Bytes in one row of the frame: eight pixels to a byte.
pub const DISPLAY_WIDTH_BYTES: usize = 100;

/// Bytes in a whole frame.
pub const BUFFER_SIZE: usize = 48000;

/// Length of a bit-packed frame of `w` by `h` pixels, `w` a multiple of eight.
pub open spec fn packed_len(w: int, h: int) -> int {
    (w / 8) * h
}

/// The constants describe one consistent geometry.
pub proof fn lemma_panel_geometry()
    ensures
        DISPLAY_WIDTH % 8 == 0,
        DISPLAY_WIDTH_BYTES == DISPLAY_WIDTH / 8,
        BUFFER_SIZE == packed_len(DISPLAY_WIDTH as int, DISPLAY_HEIGHT as int),
{
}

/// Low byte of a 16-bit value, as the controller takes it.
pub open spec fn lo(v: int) -> u8 {
    (v % 256) as u8
}

/// High byte of a 16-bit value, as the controller takes it.
pub open spec fn hi(v: int) -> u8 {
    (v / 256) as u8
}

/// Splitting a 16-bit value into its low and high byte loses nothing.
pub proof fn lemma_byte_split(v: int)
    requires
        0 <= v < 65536,
    ensures
        lo(v) as int + 256 * (hi(v) as int) == v,
        lo(v) as int == v % 256,
        hi(v) as int == v / 256,
{
}

/// Low byte of `v`.
pub fn low_byte(v: u16) -> (r: u8)
    ensures
        r == lo(v as int),
{
    (v % 256) as u8
}

/// High byte of `v`.
pub fn high_byte(v: u16) -> (r: u8)
    ensures
        r == hi(v as int),
{
    (v / 256) as u8
}

} // verus!
