//! Frame-buffer geometry shared by the graphics buffers: rotation of the
//! drawing coordinates onto the panel, and the byte and bit of each pixel.
//!
//! A buffer holds one bit per pixel, row after row of the panel's native
//! orientation; each row is padded to a whole number of bytes and the first
//! pixel of a byte is its most significant bit.
use vstd::prelude::*;

use crate::color::Color;

pub mod display290_gray4_mfgn;
pub mod display290_mono;

verus! {

/// Rotation of the drawing coordinates relative to the panel's native orientation.
#[derive(Clone, Copy, PartialEq, Eq, Debug, Structural)]
pub enum DisplayRotation {
    /// No rotation
    Rotate0,
    /// Rotate by 90 degrees clockwise
    Rotate90,
    /// Rotate by 180 degrees clockwise
    Rotate180,
    /// Rotate by 270 degrees clockwise
    Rotate270,
}

/// Bytes in one row of a buffer `width` pixels wide.
pub open spec fn spec_row_bytes(width: int) -> int {
    (width + 7) / 8
}

/// Bytes in a buffer of `width` x `height` pixels.
pub open spec fn spec_buffer_len(width: int, height: int) -> int {
    spec_row_bytes(width) * height
}

/// Whether the rotation exchanges the two axes.
pub open spec fn swaps_axes(rotation: DisplayRotation) -> bool {
    rotation == DisplayRotation::Rotate90 || rotation == DisplayRotation::Rotate270
}

/// Whether the point `(x, y)` of the rotated drawing area lies off the panel.
pub open spec fn spec_outside_display(
    x: int,
    y: int,
    width: int,
    height: int,
    rotation: DisplayRotation,
) -> bool {
    ||| x < 0
    ||| y < 0
    ||| (!swaps_axes(rotation) && (x >= width || y >= height))
    ||| (swaps_axes(rotation) && (y >= width || x >= height))
}

/// The panel coordinates of the drawing point `(x, y)`.
pub open spec fn spec_find_rotation(
    x: int,
    y: int,
    width: int,
    height: int,
    rotation: DisplayRotation,
) -> (int, int) {
    match rotation {
        DisplayRotation::Rotate0 => (x, y),
        DisplayRotation::Rotate90 => (width - 1 - y, x),
        DisplayRotation::Rotate180 => (width - 1 - x, height - 1 - y),
        DisplayRotation::Rotate270 => (y, height - 1 - x),
    }
}

/// The bit mask of panel column `nx` within its byte: the leftmost pixel is the top bit.
pub open spec fn spec_bit_mask(nx: int) -> u8 {
    0x80u8 >> ((nx % 8) as u8)
}

/// The byte index and bit mask of the drawing point `(x, y)` in the buffer.
pub open spec fn spec_find_position(
    x: int,
    y: int,
    width: int,
    height: int,
    rotation: DisplayRotation,
) -> (int, u8) {
    let (nx, ny) = spec_find_rotation(x, y, width, height, rotation);
    (nx / 8 + spec_row_bytes(width) * ny, spec_bit_mask(nx))
}

/// Whether the rotation of `(x, y)` stays within unsigned panel coordinates.
pub open spec fn spec_rotation_defined(
    x: int,
    y: int,
    width: int,
    height: int,
    rotation: DisplayRotation,
) -> bool {
    match rotation {
        DisplayRotation::Rotate0 => true,
        DisplayRotation::Rotate90 => y < width,
        DisplayRotation::Rotate180 => x < width && y < height,
        DisplayRotation::Rotate270 => x < height,
    }
}

/// A black/white frame buffer to draw on: one bit per pixel, laid out as
/// [`spec_find_position`] says, with a rotation for the drawing coordinates.
///
/// Implementors give access to the buffer and the rotation; clearing and
/// drawing a pixel are provided on top of them.
pub trait Display {
    /// The bytes of the frame buffer.
    spec fn display_frame(&self) -> Seq<u8>;

    /// The rotation of the drawing coordinates.
    spec fn display_rotation(&self) -> DisplayRotation;

    /// Whether drawing stores the complement of each pixel.
    spec fn display_inverted(&self) -> bool;

    /// The frame buffer.
    fn buffer(&self) -> (buffer: &[u8])
        ensures
            buffer@ == self.display_frame(),
    ;

    /// Mutable access to the frame buffer.
    fn get_mut_buffer(&mut self) -> (buffer: &mut [u8])
        ensures
            buffer@ == old(self).display_frame(),
            final(self).display_frame() == final(buffer)@,
            final(self).display_rotation() == old(self).display_rotation(),
            final(self).display_inverted() == old(self).display_inverted(),
    ;

    /// Set the rotation used for coordinate transforms.
    fn set_rotation(&mut self, rotation: DisplayRotation)
        ensures
            final(self).display_frame() == old(self).display_frame(),
            final(self).display_rotation() == rotation,
            final(self).display_inverted() == old(self).display_inverted(),
    ;

    /// Get the current rotation.
    fn rotation(&self) -> (rotation: DisplayRotation)
        ensures
            rotation == self.display_rotation(),
    ;

    /// Whether drawing stores the complement of each pixel.
    fn is_inverted(&self) -> (inverted: bool)
        ensures
            inverted == self.display_inverted(),
    ;

    /// Fill the whole buffer with `background_color`.
    fn clear_buffer(&mut self, background_color: Color)
        ensures
            final(self).display_frame() == Seq::new(
                old(self).display_frame().len(),
                |i: int| background_color.spec_byte_value(),
            ),
            final(self).display_rotation() == old(self).display_rotation(),
            final(self).display_inverted() == old(self).display_inverted(),
    {
        let byte = background_color.get_byte_value();
        let buffer = self.get_mut_buffer();
        let len = buffer.len();
        let ghost start = buffer@;
        let mut i: usize = 0;
        while i < len
            invariant
                len == buffer@.len(),
                len == start.len(),
                i <= len,
                forall|j: int| 0 <= j < i ==> buffer@[j] == byte,
            decreases len - i,
        {
            buffer[i] = byte;
            i = i + 1;
        }
        assert(buffer@ =~= Seq::new(start.len(), |i: int| background_color.spec_byte_value()));
    }

    /// Draw one pixel of `color` at `(x, y)` in the rotated drawing area of a
    /// panel of `width` x `height` pixels; points off the panel are ignored.
    ///
    /// A white pixel sets its bit and a black one clears it, the other way
    /// round when the buffer is inverted.
    fn draw_helper(&mut self, width: u32, height: u32, x: i32, y: i32, color: Color)
        requires
            !spec_outside_display(x as int, y as int, width as int, height as int, old(self).display_rotation())
                ==> spec_find_position(
                x as int,
                y as int,
                width as int,
                height as int,
                old(self).display_rotation(),
            ).0 < old(self).display_frame().len() && spec_find_position(
                x as int,
                y as int,
                width as int,
                height as int,
                old(self).display_rotation(),
            ).0 <= u32::MAX,
        ensures
            final(self).display_frame() == write_pixel(
                old(self).display_frame(),
                x as int,
                y as int,
                width as int,
                height as int,
                old(self).display_rotation(),
                (color == Color::White) != old(self).display_inverted(),
            ),
            final(self).display_rotation() == old(self).display_rotation(),
            final(self).display_inverted() == old(self).display_inverted(),
    {
        let rotation = self.rotation();
        let is_inverted = self.is_inverted();
        if outside_display(x, y, width, height, rotation) {
            return;
        }
        let (index, bit) = find_position(x as u32, y as u32, width, height, rotation);
        let index = index as usize;
        let on = match color {
            Color::White => !is_inverted,
            Color::Black => is_inverted,
        };
        let buffer = self.get_mut_buffer();
        let byte = buffer[index];
        if on {
            buffer[index] = byte | bit;
        } else {
            buffer[index] = byte & !bit;
        }
    }
}

/// Length in bytes of a buffer of `width` x `height` pixels.
pub fn buffer_len(width: usize, height: usize) -> (len: usize)
    requires
        spec_buffer_len(width as int, height as int) <= usize::MAX,
    ensures
        len == spec_buffer_len(width as int, height as int),
{
    proof {
        lemma_row_bytes(width as int);
    }
    let row_bytes = width / 8 + if width % 8 != 0 { 1 } else { 0 };
    row_bytes * height
}

/// Rows are rounded up to whole bytes: the row length is `width / 8`, plus one
/// for a partial byte.
proof fn lemma_row_bytes(width: int)
    requires
        width >= 0,
    ensures
        spec_row_bytes(width) == width / 8 + if width % 8 != 0 { 1int } else { 0int },
{
}

/// Whether the point `(x, y)` of the rotated drawing area lies off the panel.
pub fn outside_display(x: i32, y: i32, width: u32, height: u32, rotation: DisplayRotation) -> (outside: bool)
    ensures
        outside == spec_outside_display(x as int, y as int, width as int, height as int, rotation),
{
    if x < 0 || y < 0 {
        return true;
    }
    let (ux, uy) = (x as u32, y as u32);
    match rotation {
        DisplayRotation::Rotate0 | DisplayRotation::Rotate180 => ux >= width || uy >= height,
        DisplayRotation::Rotate90 | DisplayRotation::Rotate270 => uy >= width || ux >= height,
    }
}

/// The panel coordinates of the drawing point `(x, y)`.
pub fn find_rotation(x: u32, y: u32, width: u32, height: u32, rotation: DisplayRotation) -> (n: (u32, u32))
    requires
        spec_rotation_defined(x as int, y as int, width as int, height as int, rotation),
    ensures
        (n.0 as int, n.1 as int) == spec_find_rotation(x as int, y as int, width as int, height as int, rotation),
{
    match rotation {
        DisplayRotation::Rotate0 => (x, y),
        DisplayRotation::Rotate90 => (width - 1 - y, x),
        DisplayRotation::Rotate180 => (width - 1 - x, height - 1 - y),
        DisplayRotation::Rotate270 => (y, height - 1 - x),
    }
}

/// The byte index in the buffer and the bit mask within that byte of the
/// drawing point `(x, y)`.
pub fn find_position(x: u32, y: u32, width: u32, height: u32, rotation: DisplayRotation) -> (pos: (u32, u8))
    requires
        spec_rotation_defined(x as int, y as int, width as int, height as int, rotation),
        spec_find_position(x as int, y as int, width as int, height as int, rotation).0 <= u32::MAX,
    ensures
        (pos.0 as int, pos.1) == spec_find_position(x as int, y as int, width as int, height as int, rotation),
        !spec_outside_display(x as int, y as int, width as int, height as int, rotation) ==> {
            &&& pos.0 < spec_buffer_len(width as int, height as int)
            &&& is_pixel_mask(pos.1)
        },
{
    let (nx, ny) = find_rotation(x, y, width, height, rotation);
    proof {
        lemma_row_bytes(width as int);
    }
    let row_bytes = width / 8 + if width % 8 != 0 { 1 } else { 0 };
    proof {
        assert(0 <= nx / 8);
        assert(0 <= row_bytes * ny) by (nonlinear_arith)
            requires 0 <= row_bytes, 0 <= ny;
        if !spec_outside_display(x as int, y as int, width as int, height as int, rotation) {
            lemma_position_in_buffer(x as int, y as int, width as int, height as int, rotation);
        }
    }
    let shift: u32 = nx % 8;
    (nx / 8 + row_bytes * ny, 0x80u8 >> shift)
}

/// A mask with exactly one of the eight bits of a byte set.
pub open spec fn is_pixel_mask(mask: u8) -> bool {
    exists|j: u8| j < 8 && mask == 0x80u8 >> j
}

/// The pixel bit `mask` of `byte` after it is set (`on`) or cleared.
pub open spec fn write_bit(byte: u8, mask: u8, on: bool) -> u8 {
    if on {
        byte | mask
    } else {
        byte & !mask
    }
}

/// Whether the pixel bit `mask` of `byte` is set.
pub open spec fn bit_is_set(byte: u8, mask: u8) -> bool {
    byte & mask != 0
}

/// Whether the drawing point `(x, y)` is set in the one-bit-per-pixel plane `plane`.
pub open spec fn pixel_is_set(
    plane: Seq<u8>,
    x: int,
    y: int,
    width: int,
    height: int,
    rotation: DisplayRotation,
) -> bool {
    let (idx, mask) = spec_find_position(x, y, width, height, rotation);
    bit_is_set(plane[idx], mask)
}

/// The plane `plane` with the drawing point `(x, y)` set (`on`) or cleared;
/// a point off the panel leaves the plane as it is.
pub open spec fn write_pixel(
    plane: Seq<u8>,
    x: int,
    y: int,
    width: int,
    height: int,
    rotation: DisplayRotation,
    on: bool,
) -> Seq<u8> {
    if spec_outside_display(x, y, width, height, rotation) {
        plane
    } else {
        let (idx, mask) = spec_find_position(x, y, width, height, rotation);
        plane.update(idx, write_bit(plane[idx], mask, on))
    }
}

/// Every point of the drawing area maps to a byte inside the buffer and to a
/// single bit of that byte.
pub proof fn lemma_position_in_buffer(x: int, y: int, width: int, height: int, rotation: DisplayRotation)
    requires
        !spec_outside_display(x, y, width, height, rotation),
    ensures
        0 <= spec_find_position(x, y, width, height, rotation).0 < spec_buffer_len(width, height),
        is_pixel_mask(spec_find_position(x, y, width, height, rotation).1),
{
    let (nx, ny) = spec_find_rotation(x, y, width, height, rotation);
    let k = spec_row_bytes(width);
    assert(0 <= nx < width && 0 <= ny < height);
    assert(nx / 8 < k);
    assert(0 <= nx / 8);
    assert(nx / 8 + k * ny < k * height) by (nonlinear_arith)
        requires 0 <= nx / 8 < k, 0 <= ny < height;
    assert(0 <= k * ny) by (nonlinear_arith)
        requires 0 <= k, 0 <= ny;
    let j: u8 = (nx % 8) as u8;
    assert(j < 8);
    assert(spec_bit_mask(nx) == 0x80u8 >> j);
}

/// The rotation is one-to-one on the drawing area.
proof fn lemma_rotation_injective(
    x1: int,
    y1: int,
    x2: int,
    y2: int,
    width: int,
    height: int,
    rotation: DisplayRotation,
)
    requires
        spec_find_rotation(x1, y1, width, height, rotation) == spec_find_rotation(x2, y2, width, height, rotation),
    ensures
        x1 == x2 && y1 == y2,
{
}

/// Two single-bit masks of column positions are equal only for the same
/// position within the byte.
proof fn lemma_mask_injective(a: u8, b: u8)
    requires
        a < 8,
        b < 8,
        0x80u8 >> a == 0x80u8 >> b,
    ensures
        a == b,
{
    assert(a < 8 && b < 8 && 0x80u8 >> a == 0x80u8 >> b ==> a == b) by (bit_vector);
}

/// Two distinct points of the drawing area never share a pixel of the buffer:
/// their bytes or their bits differ.
pub proof fn lemma_positions_distinct(
    x1: int,
    y1: int,
    x2: int,
    y2: int,
    width: int,
    height: int,
    rotation: DisplayRotation,
)
    requires
        !spec_outside_display(x1, y1, width, height, rotation),
        !spec_outside_display(x2, y2, width, height, rotation),
        x1 != x2 || y1 != y2,
    ensures
        spec_find_position(x1, y1, width, height, rotation) != spec_find_position(x2, y2, width, height, rotation),
{
    let (nx1, ny1) = spec_find_rotation(x1, y1, width, height, rotation);
    let (nx2, ny2) = spec_find_rotation(x2, y2, width, height, rotation);
    let k = spec_row_bytes(width);
    if spec_find_position(x1, y1, width, height, rotation) == spec_find_position(x2, y2, width, height, rotation) {
        assert(0 <= nx1 < width && 0 <= ny1 < height);
        assert(0 <= nx2 < width && 0 <= ny2 < height);
        lemma_mask_injective((nx1 % 8) as u8, (nx2 % 8) as u8);
        assert(nx1 % 8 == nx2 % 8);
        let q1 = nx1 / 8;
        let q2 = nx2 / 8;
        assert(0 <= q1 < k && 0 <= q2 < k);
        assert(q1 + k * ny1 == q2 + k * ny2);
        assert(ny1 == ny2 && q1 == q2) by (nonlinear_arith)
            requires
                0 <= q1 < k,
                0 <= q2 < k,
                q1 + k * ny1 == q2 + k * ny2,
        {
            if ny1 < ny2 {
                assert(k * ny2 >= k * ny1 + k);
            } else if ny2 < ny1 {
                assert(k * ny1 >= k * ny2 + k);
            }
        }
        assert(nx1 == 8 * q1 + nx1 % 8);
        assert(nx2 == 8 * q2 + nx2 % 8);
        lemma_rotation_injective(x1, y1, x2, y2, width, height, rotation);
    }
}

/// Setting or clearing one bit of a byte leaves every other pixel bit of the byte.
proof fn lemma_write_bit(byte: u8, a: u8, b: u8, on: bool)
    requires
        a < 8,
        b < 8,
    ensures
        bit_is_set(write_bit(byte, 0x80u8 >> a, on), 0x80u8 >> b) == if a == b {
            on
        } else {
            bit_is_set(byte, 0x80u8 >> b)
        },
{
    assert(a < 8 && b < 8 && a != b ==> ((byte | (0x80u8 >> a)) & (0x80u8 >> b)) == (byte & (0x80u8 >> b))) by (bit_vector);
    assert(a < 8 && b < 8 && a != b ==> ((byte & !(0x80u8 >> a)) & (0x80u8 >> b)) == (byte & (0x80u8 >> b))) by (bit_vector);
    assert(a < 8 ==> ((byte | (0x80u8 >> a)) & (0x80u8 >> a)) != 0) by (bit_vector);
    assert(a < 8 ==> ((byte & !(0x80u8 >> a)) & (0x80u8 >> a)) == 0) by (bit_vector);
}

/// Writing a pixel of a plane: afterwards that pixel reads as written and
/// every other pixel of the drawing area reads as before.
pub proof fn lemma_write_pixel_reads_back(
    plane: Seq<u8>,
    x: int,
    y: int,
    px: int,
    py: int,
    width: int,
    height: int,
    rotation: DisplayRotation,
    on: bool,
)
    requires
        plane.len() == spec_buffer_len(width, height),
        !spec_outside_display(px, py, width, height, rotation),
    ensures
        write_pixel(plane, x, y, width, height, rotation, on).len() == plane.len(),
        pixel_is_set(write_pixel(plane, x, y, width, height, rotation, on), px, py, width, height, rotation)
            == if px == x && py == y {
            on
        } else {
            pixel_is_set(plane, px, py, width, height, rotation)
        },
{
    lemma_position_in_buffer(px, py, width, height, rotation);
    if !spec_outside_display(x, y, width, height, rotation) {
        lemma_position_in_buffer(x, y, width, height, rotation);
        let (i, m) = spec_find_position(x, y, width, height, rotation);
        let (pi, pm) = spec_find_position(px, py, width, height, rotation);
        let (nx, ny) = spec_find_rotation(x, y, width, height, rotation);
        let (pnx, pny) = spec_find_rotation(px, py, width, height, rotation);
        let a = (nx % 8) as u8;
        let b = (pnx % 8) as u8;
        assert(m == 0x80u8 >> a);
        assert(pm == 0x80u8 >> b);
        if px == x && py == y {
            lemma_write_bit(plane[i], a, a, on);
        } else {
            lemma_positions_distinct(x, y, px, py, width, height, rotation);
            if pi == i {
                if a == b {
                    assert(m == pm);
                }
                lemma_write_bit(plane[i], a, b, on);
            }
        }
    }
}

/// A plane filled with one byte value reads the same at every pixel: set for
/// `0xFF`, cleared for `0x00`.
pub proof fn lemma_filled_plane_reads(
    plane: Seq<u8>,
    fill: u8,
    px: int,
    py: int,
    width: int,
    height: int,
    rotation: DisplayRotation,
)
    requires
        fill == 0xFF || fill == 0x00,
        plane.len() == spec_buffer_len(width, height),
        forall|i: int| 0 <= i < plane.len() ==> plane[i] == fill,
        !spec_outside_display(px, py, width, height, rotation),
    ensures
        pixel_is_set(plane, px, py, width, height, rotation) == (fill == 0xFF),
{
    lemma_position_in_buffer(px, py, width, height, rotation);
    let (pnx, pny) = spec_find_rotation(px, py, width, height, rotation);
    let b = (pnx % 8) as u8;
    assert(b < 8 ==> (0xFFu8 & (0x80u8 >> b)) != 0) by (bit_vector);
    assert((0x00u8 & (0x80u8 >> b)) == 0) by (bit_vector);
}

/// Writing a bit of a byte twice leaves what the second write left.
proof fn lemma_write_bit_twice(byte: u8, mask: u8, first: bool, second: bool)
    ensures
        write_bit(write_bit(byte, mask, first), mask, second) == write_bit(byte, mask, second),
{
    assert(((byte | mask) | mask) == (byte | mask)) by (bit_vector);
    assert(((byte | mask) & !mask) == (byte & !mask)) by (bit_vector);
    assert(((byte & !mask) | mask) == (byte | mask)) by (bit_vector);
    assert(((byte & !mask) & !mask) == (byte & !mask)) by (bit_vector);
}

/// Writes of two different pixel bits of a byte may be done in either order.
proof fn lemma_write_bits_commute(byte: u8, a: u8, b: u8, on_a: bool, on_b: bool)
    requires
        a < 8,
        b < 8,
        a != b,
    ensures
        write_bit(write_bit(byte, 0x80u8 >> a, on_a), 0x80u8 >> b, on_b) == write_bit(
            write_bit(byte, 0x80u8 >> b, on_b),
            0x80u8 >> a,
            on_a,
        ),
{
    assert(a < 8 && b < 8 && a != b ==> ((byte | (0x80u8 >> a)) | (0x80u8 >> b)) == ((byte | (0x80u8 >> b)) | (
    0x80u8 >> a))) by (bit_vector);
    assert(a < 8 && b < 8 && a != b ==> ((byte | (0x80u8 >> a)) & !(0x80u8 >> b)) == ((byte & !(0x80u8 >> b)) | (
    0x80u8 >> a))) by (bit_vector);
    assert(a < 8 && b < 8 && a != b ==> ((byte & !(0x80u8 >> a)) | (0x80u8 >> b)) == ((byte | (0x80u8 >> b)) & !(
    0x80u8 >> a))) by (bit_vector);
    assert(a < 8 && b < 8 && a != b ==> ((byte & !(0x80u8 >> a)) & !(0x80u8 >> b)) == ((byte & !(0x80u8 >> b))
        & !(0x80u8 >> a))) by (bit_vector);
}

/// Writing the same pixel twice leaves what the second write left.
pub proof fn lemma_write_pixel_twice(
    plane: Seq<u8>,
    x: int,
    y: int,
    width: int,
    height: int,
    rotation: DisplayRotation,
    first: bool,
    second: bool,
)
    requires
        plane.len() == spec_buffer_len(width, height),
    ensures
        write_pixel(write_pixel(plane, x, y, width, height, rotation, first), x, y, width, height, rotation, second)
            == write_pixel(plane, x, y, width, height, rotation, second),
{
    if !spec_outside_display(x, y, width, height, rotation) {
        lemma_position_in_buffer(x, y, width, height, rotation);
        let (i, m) = spec_find_position(x, y, width, height, rotation);
        lemma_write_bit_twice(plane[i], m, first, second);
        assert(write_pixel(write_pixel(plane, x, y, width, height, rotation, first), x, y, width, height, rotation, second)
            =~= write_pixel(plane, x, y, width, height, rotation, second));
    }
}

/// Writing two different pixels gives the same plane in either order.
pub proof fn lemma_write_pixels_commute(
    plane: Seq<u8>,
    x1: int,
    y1: int,
    on1: bool,
    x2: int,
    y2: int,
    on2: bool,
    width: int,
    height: int,
    rotation: DisplayRotation,
)
    requires
        plane.len() == spec_buffer_len(width, height),
        x1 != x2 || y1 != y2,
    ensures
        write_pixel(write_pixel(plane, x1, y1, width, height, rotation, on1), x2, y2, width, height, rotation, on2)
            == write_pixel(write_pixel(plane, x2, y2, width, height, rotation, on2), x1, y1, width, height, rotation, on1),
{
    let out1 = spec_outside_display(x1, y1, width, height, rotation);
    let out2 = spec_outside_display(x2, y2, width, height, rotation);
    if !out1 && !out2 {
        lemma_position_in_buffer(x1, y1, width, height, rotation);
        lemma_position_in_buffer(x2, y2, width, height, rotation);
        lemma_positions_distinct(x1, y1, x2, y2, width, height, rotation);
        let (i1, m1) = spec_find_position(x1, y1, width, height, rotation);
        let (i2, m2) = spec_find_position(x2, y2, width, height, rotation);
        let (nx1, ny1) = spec_find_rotation(x1, y1, width, height, rotation);
        let (nx2, ny2) = spec_find_rotation(x2, y2, width, height, rotation);
        let a = (nx1 % 8) as u8;
        let b = (nx2 % 8) as u8;
        assert(m1 == 0x80u8 >> a);
        assert(m2 == 0x80u8 >> b);
        if i1 == i2 {
            assert(a != b);
            lemma_write_bits_commute(plane[i1], a, b, on1, on2);
        }
        assert(write_pixel(write_pixel(plane, x1, y1, width, height, rotation, on1), x2, y2, width, height, rotation, on2)
            =~= write_pixel(write_pixel(plane, x2, y2, width, height, rotation, on2), x1, y1, width, height, rotation, on1));
    }
}

/// The drawing point shown by bit `0x80 >> j` of byte `i` of the buffer.
pub open spec fn spec_pixel_of_bit(i: int, j: int, width: int, height: int, rotation: DisplayRotation) -> (int, int) {
    let k = spec_row_bytes(width);
    let nx = 8 * (i % k) + j;
    let ny = i / k;
    match rotation {
        DisplayRotation::Rotate0 => (nx, ny),
        DisplayRotation::Rotate90 => (ny, width - 1 - nx),
        DisplayRotation::Rotate180 => (width - 1 - nx, height - 1 - ny),
        DisplayRotation::Rotate270 => (height - 1 - ny, nx),
    }
}

/// When the panel width is a whole number of bytes, every bit of the buffer is
/// the pixel of a point of the drawing area.
pub proof fn lemma_bit_is_a_pixel(i: int, j: int, width: int, height: int, rotation: DisplayRotation)
    requires
        width > 0,
        width % 8 == 0,
        0 <= i < spec_buffer_len(width, height),
        0 <= j < 8,
    ensures
        !spec_outside_display(
            spec_pixel_of_bit(i, j, width, height, rotation).0,
            spec_pixel_of_bit(i, j, width, height, rotation).1,
            width,
            height,
            rotation,
        ),
        spec_find_position(
            spec_pixel_of_bit(i, j, width, height, rotation).0,
            spec_pixel_of_bit(i, j, width, height, rotation).1,
            width,
            height,
            rotation,
        ) == (i, 0x80u8 >> (j as u8)),
{
    let k = spec_row_bytes(width);
    assert(k * 8 == width);
    assert(k > 0);
    let q = i % k;
    let ny = i / k;
    let nx = 8 * q + j;
    assert(i == k * ny + q) by {
        vstd::arithmetic::div_mod::lemma_fundamental_div_mod(i, k);
    }
    assert(0 <= q < k) by {
        vstd::arithmetic::div_mod::lemma_mod_bound(i, k);
    }
    assert(0 <= ny < height) by (nonlinear_arith)
        requires
            i == k * ny + q,
            0 <= q < k,
            0 <= i < k * height,
    {
        if ny < 0 {
            assert(k * ny <= -k);
        }
        if ny >= height {
            assert(k * ny >= k * height);
        }
    }
    assert(0 <= nx < width);
    assert(nx / 8 == q);
    assert(nx % 8 == j);
    let (x, y) = spec_pixel_of_bit(i, j, width, height, rotation);
    assert(spec_find_rotation(x, y, width, height, rotation) == (nx, ny));
    assert(nx / 8 + k * ny == i);
}

/// A byte whose eight pixel bits all equal `on` is `0xFF` or `0x00`.
proof fn lemma_byte_of_equal_bits(byte: u8, on: bool)
    requires
        forall|j: u8| j < 8 ==> bit_is_set(byte, #[trigger] (0x80u8 >> j)) == on,
    ensures
        byte == if on {
            0xFFu8
        } else {
            0x00u8
        },
{
    assert(bit_is_set(byte, 0x80u8 >> 0u8) == on);
    assert(bit_is_set(byte, 0x80u8 >> 1u8) == on);
    assert(bit_is_set(byte, 0x80u8 >> 2u8) == on);
    assert(bit_is_set(byte, 0x80u8 >> 3u8) == on);
    assert(bit_is_set(byte, 0x80u8 >> 4u8) == on);
    assert(bit_is_set(byte, 0x80u8 >> 5u8) == on);
    assert(bit_is_set(byte, 0x80u8 >> 6u8) == on);
    assert(bit_is_set(byte, 0x80u8 >> 7u8) == on);
    assert(byte == if on { 0xFFu8 } else { 0x00u8 }) by (bit_vector)
        requires
            ((byte & (0x80u8 >> 0u8)) != 0) == on,
            ((byte & (0x80u8 >> 1u8)) != 0) == on,
            ((byte & (0x80u8 >> 2u8)) != 0) == on,
            ((byte & (0x80u8 >> 3u8)) != 0) == on,
            ((byte & (0x80u8 >> 4u8)) != 0) == on,
            ((byte & (0x80u8 >> 5u8)) != 0) == on,
            ((byte & (0x80u8 >> 6u8)) != 0) == on,
            ((byte & (0x80u8 >> 7u8)) != 0) == on,
    ;
}

/// The points of the drawing area cover every bit of the buffer: when the
/// panel width is a whole number of bytes and every point reads `on`, the
/// plane is the one filled with `0xFF` (`on`) or `0x00`.
pub proof fn lemma_uniform_plane_is_filled(
    plane: Seq<u8>,
    width: int,
    height: int,
    rotation: DisplayRotation,
    on: bool,
)
    requires
        width > 0,
        width % 8 == 0,
        plane.len() == spec_buffer_len(width, height),
        forall|x: int, y: int|
            !spec_outside_display(x, y, width, height, rotation) ==> #[trigger] pixel_is_set(
                plane,
                x,
                y,
                width,
                height,
                rotation,
            ) == on,
    ensures
        plane == Seq::new(plane.len(), |i: int| if on { 0xFFu8 } else { 0x00u8 }),
{
    assert forall|i: int| 0 <= i < plane.len() implies plane[i] == if on { 0xFFu8 } else { 0x00u8 } by {
        assert forall|j: u8| j < 8 implies bit_is_set(plane[i], #[trigger] (0x80u8 >> j)) == on by {
            lemma_bit_is_a_pixel(i, j as int, width, height, rotation);
            let (x, y) = spec_pixel_of_bit(i, j as int, width, height, rotation);
            assert(pixel_is_set(plane, x, y, width, height, rotation) == on);
        }
        lemma_byte_of_equal_bits(plane[i], on);
    }
    assert(plane =~= Seq::new(plane.len(), |i: int| if on { 0xFFu8 } else { 0x00u8 }));
}

/// The plane after writing the points of `points` in order, each set (`on`)
/// or cleared: the result of one pixel write per point.
pub open spec fn paint(
    plane: Seq<u8>,
    points: Seq<(int, int)>,
    width: int,
    height: int,
    rotation: DisplayRotation,
    on: bool,
) -> Seq<u8>
    decreases points.len(),
{
    if points.len() == 0 {
        plane
    } else {
        let last = points.last();
        write_pixel(paint(plane, points.drop_last(), width, height, rotation, on), last.0, last.1, width, height, rotation, on)
    }
}

/// After a run of writes, a point of the drawing area reads as written when
/// the run holds it, and as before otherwise; the length never changes.
pub proof fn lemma_paint_reads_back(
    plane: Seq<u8>,
    points: Seq<(int, int)>,
    width: int,
    height: int,
    rotation: DisplayRotation,
    on: bool,
    px: int,
    py: int,
)
    requires
        plane.len() == spec_buffer_len(width, height),
    ensures
        paint(plane, points, width, height, rotation, on).len() == plane.len(),
        !spec_outside_display(px, py, width, height, rotation) ==> pixel_is_set(
            paint(plane, points, width, height, rotation, on),
            px,
            py,
            width,
            height,
            rotation,
        ) == if points.contains((px, py)) {
            on
        } else {
            pixel_is_set(plane, px, py, width, height, rotation)
        },
    decreases points.len(),
{
    if points.len() > 0 {
        let rest = points.drop_last();
        let last = points.last();
        lemma_paint_reads_back(plane, rest, width, height, rotation, on, px, py);
        let before = paint(plane, rest, width, height, rotation, on);
        if !spec_outside_display(px, py, width, height, rotation) {
            lemma_write_pixel_reads_back(before, last.0, last.1, px, py, width, height, rotation, on);
            if points.contains((px, py)) && (px, py) != last {
                let k = choose|k: int| 0 <= k < points.len() && points[k] == (px, py);
                assert(k < points.len() - 1);
                assert(rest[k] == (px, py));
            }
            if rest.contains((px, py)) {
                let k = choose|k: int| 0 <= k < rest.len() && rest[k] == (px, py);
                assert(points[k] == (px, py));
            }
            if (px, py) == last {
                assert(points[points.len() - 1] == (px, py));
            }
        } else {
            lemma_write_pixel_len(before, last.0, last.1, width, height, rotation, on);
        }
    }
}

/// Writing a pixel never changes the plane's length.
proof fn lemma_write_pixel_len(
    plane: Seq<u8>,
    x: int,
    y: int,
    width: int,
    height: int,
    rotation: DisplayRotation,
    on: bool,
)
    requires
        plane.len() == spec_buffer_len(width, height),
    ensures
        write_pixel(plane, x, y, width, height, rotation, on).len() == plane.len(),
{
    if !spec_outside_display(x, y, width, height, rotation) {
        lemma_position_in_buffer(x, y, width, height, rotation);
    }
}

/// Writing every point of the drawing area, in any order and with repeats
/// allowed, gives the plane filled with `0xFF` (`on`) or `0x00`, whatever the
/// plane held before; the panel width must be a whole number of bytes.
pub proof fn lemma_paint_everything_fills(
    plane: Seq<u8>,
    points: Seq<(int, int)>,
    width: int,
    height: int,
    rotation: DisplayRotation,
    on: bool,
)
    requires
        width > 0,
        width % 8 == 0,
        plane.len() == spec_buffer_len(width, height),
        forall|x: int, y: int|
            !spec_outside_display(x, y, width, height, rotation) ==> #[trigger] points.contains((x, y)),
    ensures
        paint(plane, points, width, height, rotation, on) == Seq::new(
            plane.len(),
            |i: int| if on { 0xFFu8 } else { 0x00u8 },
        ),
{
    let painted = paint(plane, points, width, height, rotation, on);
    lemma_paint_reads_back(plane, points, width, height, rotation, on, 0, 0);
    assert forall|x: int, y: int|
        !spec_outside_display(x, y, width, height, rotation) implies #[trigger] pixel_is_set(
        painted,
        x,
        y,
        width,
        height,
        rotation,
    ) == on by {
        assert(points.contains((x, y)));
        lemma_paint_reads_back(plane, points, width, height, rotation, on, x, y);
    }
    lemma_uniform_plane_is_filled(painted, width, height, rotation, on);
}

/// The size of the rotated drawing area, `(width, height)`: the panel's own
/// dimensions, exchanged for the rotations by 90 and 270 degrees.
pub open spec fn spec_drawing_size(width: int, height: int, rotation: DisplayRotation) -> (int, int) {
    if swaps_axes(rotation) {
        (height, width)
    } else {
        (width, height)
    }
}

/// The size of the rotated drawing area, `(width, height)`.
pub fn drawing_size(width: u32, height: u32, rotation: DisplayRotation) -> (size: (u32, u32))
    ensures
        (size.0 as int, size.1 as int) == spec_drawing_size(width as int, height as int, rotation),
{
    match rotation {
        DisplayRotation::Rotate0 | DisplayRotation::Rotate180 => (width, height),
        DisplayRotation::Rotate90 | DisplayRotation::Rotate270 => (height, width),
    }
}

/// A point lies on the panel exactly when it lies within the drawing size
/// reported for the rotation.
pub proof fn lemma_size_matches_bounds(x: int, y: int, width: int, height: int, rotation: DisplayRotation)
    ensures
        !spec_outside_display(x, y, width, height, rotation) <==> {
            let (w, h) = spec_drawing_size(width, height, rotation);
            0 <= x < w && 0 <= y < h
        },
{
}

} // verus!
