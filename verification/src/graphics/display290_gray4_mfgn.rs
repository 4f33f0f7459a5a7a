//! Grayscale graphics buffer for the SSD1680-based 2.9" display (ThinkInk MFGN / MagTag 2025).
use vstd::prelude::*;

use crate::color::{Color, GrayLevel};
use crate::graphics::{
    drawing_size, find_position, lemma_filled_plane_reads, lemma_uniform_plane_is_filled,
    lemma_paint_everything_fills, paint,
    lemma_write_pixel_reads_back, lemma_write_pixel_twice, lemma_write_pixels_commute,
    outside_display, pixel_is_set, spec_buffer_len, spec_drawing_size, spec_outside_display, swaps_axes,
    write_pixel, DisplayRotation,
};

verus! {

/// Display width of the MFGN 2.9" panel in pixels.
pub const WIDTH: u16 = 128;

/// Display height of the MFGN 2.9" panel in pixels.
pub const HEIGHT: u16 = 296;

/// Length in bytes of each of the two planes: 16 bytes per row of 128 pixels, 296 rows.
pub const BUFFER_LEN: usize = 4736;

/// The bit stored in the BW RAM (high) plane for a level: the complement of
/// the level's most significant bit.
pub open spec fn high_plane_bit(luma: u8) -> bool {
    luma < 2
}

/// The bit stored in the Red RAM (low) plane for a level: the complement of
/// the level's least significant bit.
pub open spec fn low_plane_bit(luma: u8) -> bool {
    luma % 2 == 0
}

/// The level that a pair of plane bits stands for.
pub open spec fn level_of_bits(high: bool, low: bool) -> u8 {
    ((if high { 0u8 } else { 2u8 }) + (if low { 0u8 } else { 1u8 })) as u8
}

/// Grayscale (2-bit) graphics buffer for the SSD1680-based 2.9" MFGN display.
///
/// Encodes 4-level grayscale across two RAM planes (BW and Red). The SSD1680
/// expects inverted polarity in Gray2 mode, so stored bits are the logical
/// complement of the Gray2 storage value:
///
/// | Gray2 | BW RAM (high) | Red RAM (low) | Displayed |
/// |-------|---------------|---------------|-----------|
/// | 0     | 1             | 1             | Black     |
/// | 1     | 1             | 0             | Light gray|
/// | 2     | 0             | 1             | Dark gray |
/// | 3     | 0             | 0             | White     |
///
/// Pass [`Display2in9Gray2::high_buffer`] to `update_gray2_and_display` as the
/// BW buffer and [`Display2in9Gray2::low_buffer`] as the Red buffer.
pub struct Display2in9Gray2 {
    high_buffer: Vec<u8>,
    low_buffer: Vec<u8>,
    rotation: DisplayRotation,
}

impl Display2in9Gray2 {
    /// Both planes hold one bit for each pixel of the panel.
    pub open spec fn wf(&self) -> bool {
        &&& self.high().len() == BUFFER_LEN
        &&& self.low().len() == BUFFER_LEN
    }

    /// The bytes of the BW RAM (high) plane.
    pub closed spec fn high(&self) -> Seq<u8> {
        self.high_buffer@
    }

    /// The bytes of the Red RAM (low) plane.
    pub closed spec fn low(&self) -> Seq<u8> {
        self.low_buffer@
    }

    /// The rotation of the drawing coordinates.
    pub closed spec fn spec_rotation(&self) -> DisplayRotation {
        self.rotation
    }

    /// The level shown at the drawing point `(x, y)`.
    pub open spec fn level_at(&self, x: int, y: int) -> u8 {
        level_of_bits(
            pixel_is_set(self.high(), x, y, WIDTH as int, HEIGHT as int, self.spec_rotation()),
            pixel_is_set(self.low(), x, y, WIDTH as int, HEIGHT as int, self.spec_rotation()),
        )
    }

    /// Create a new grayscale buffer initialised to white.
    pub fn new() -> (display: Self)
        ensures
            display.wf(),
            display.high() == Seq::new(BUFFER_LEN as nat, |i: int| 0x00u8),
            display.low() == Seq::new(BUFFER_LEN as nat, |i: int| 0x00u8),
            display.spec_rotation() == DisplayRotation::Rotate270,
    {
        // Inverted polarity: stored 0x00 = logical white.
        let display = Self {
            high_buffer: vec![0x00u8; BUFFER_LEN],
            low_buffer: vec![0x00u8; BUFFER_LEN],
            rotation: DisplayRotation::Rotate270,
        };
        assert(display.high() =~= Seq::new(BUFFER_LEN as nat, |i: int| 0x00u8));
        assert(display.low() =~= Seq::new(BUFFER_LEN as nat, |i: int| 0x00u8));
        display
    }

    /// Get a reference to the high buffer (BW RAM plane).
    pub fn high_buffer(&self) -> (buffer: &[u8])
        ensures
            buffer@ == self.high(),
    {
        self.high_buffer.as_slice()
    }

    /// Get a reference to the low buffer (Red RAM plane).
    pub fn low_buffer(&self) -> (buffer: &[u8])
        ensures
            buffer@ == self.low(),
    {
        self.low_buffer.as_slice()
    }

    /// Get mutable access to the high buffer.
    pub fn get_mut_high_buffer(&mut self) -> (buffer: &mut [u8])
        ensures
            buffer@ == old(self).high(),
            final(self).high() == final(buffer)@,
            final(self).low() == old(self).low(),
            final(self).spec_rotation() == old(self).spec_rotation(),
            old(self).wf() ==> (final(self).wf() <==> final(buffer)@.len() == buffer@.len()),
    {
        self.high_buffer.as_mut_slice()
    }

    /// Get mutable access to the low buffer.
    pub fn get_mut_low_buffer(&mut self) -> (buffer: &mut [u8])
        ensures
            buffer@ == old(self).low(),
            final(self).low() == final(buffer)@,
            final(self).high() == old(self).high(),
            final(self).spec_rotation() == old(self).spec_rotation(),
            old(self).wf() ==> (final(self).wf() <==> final(buffer)@.len() == buffer@.len()),
    {
        self.low_buffer.as_mut_slice()
    }

    /// Set the rotation used for coordinate transforms.
    pub fn set_rotation(&mut self, rotation: DisplayRotation)
        ensures
            final(self).high() == old(self).high(),
            final(self).low() == old(self).low(),
            final(self).spec_rotation() == rotation,
            final(self).wf() == old(self).wf(),
    {
        self.rotation = rotation;
    }

    /// Get the current rotation.
    pub fn rotation(&self) -> (rotation: DisplayRotation)
        ensures
            rotation == self.spec_rotation(),
    {
        self.rotation
    }

    /// Clear both buffers to the given grayscale level.
    pub fn clear_buffer(&mut self, level: GrayLevel)
        requires
            old(self).wf(),
        ensures
            final(self).wf(),
            final(self).high() == Seq::new(
                BUFFER_LEN as nat,
                |i: int| if high_plane_bit(level.luma()) { 0xFFu8 } else { 0x00u8 },
            ),
            final(self).low() == Seq::new(
                BUFFER_LEN as nat,
                |i: int| if low_plane_bit(level.luma()) { 0xFFu8 } else { 0x00u8 },
            ),
            final(self).spec_rotation() == old(self).spec_rotation(),
    {
        let storage = level.into_storage();
        proof {
            lemma_plane_bits(storage);
        }
        // MSB of storage → BW RAM (high), LSB → Red RAM (low); bits inverted for SSD1680.
        let bw_byte: u8 = if (storage & 0b10) != 0 { 0x00 } else { 0xFF };
        let red_byte: u8 = if (storage & 0b01) != 0 { 0x00 } else { 0xFF };
        let mut i: usize = 0;
        while i < BUFFER_LEN
            invariant
                self.high_buffer@.len() == BUFFER_LEN,
                self.low_buffer@.len() == BUFFER_LEN,
                i <= BUFFER_LEN,
                forall|j: int| 0 <= j < i ==> self.high_buffer@[j] == bw_byte,
                forall|j: int| 0 <= j < i ==> self.low_buffer@[j] == red_byte,
                self.rotation == old(self).rotation,
            decreases BUFFER_LEN - i,
        {
            self.high_buffer.set(i, bw_byte);
            self.low_buffer.set(i, red_byte);
            i = i + 1;
        }
        assert(self.high() =~= Seq::new(
            BUFFER_LEN as nat,
            |i: int| if high_plane_bit(level.luma()) { 0xFFu8 } else { 0x00u8 },
        ));
        assert(self.low() =~= Seq::new(
            BUFFER_LEN as nat,
            |i: int| if low_plane_bit(level.luma()) { 0xFFu8 } else { 0x00u8 },
        ));
    }

    /// Set a single pixel to the given 2-bit grayscale level; points off the
    /// panel are ignored.
    pub fn set_pixel(&mut self, x: i32, y: i32, level: GrayLevel)
        requires
            old(self).wf(),
        ensures
            final(self).wf(),
            final(self).high() == write_pixel(
                old(self).high(),
                x as int,
                y as int,
                WIDTH as int,
                HEIGHT as int,
                old(self).spec_rotation(),
                high_plane_bit(level.luma()),
            ),
            final(self).low() == write_pixel(
                old(self).low(),
                x as int,
                y as int,
                WIDTH as int,
                HEIGHT as int,
                old(self).spec_rotation(),
                low_plane_bit(level.luma()),
            ),
            final(self).spec_rotation() == old(self).spec_rotation(),
    {
        let rotation = self.rotation;
        if outside_display(x, y, WIDTH as u32, HEIGHT as u32, rotation) {
            return;
        }
        proof {
            crate::graphics::lemma_position_in_buffer(x as int, y as int, WIDTH as int, HEIGHT as int, rotation);
        }
        let (idx_u32, bit) = find_position(x as u32, y as u32, WIDTH as u32, HEIGHT as u32, rotation);
        let idx = idx_u32 as usize;

        let storage = level.into_storage();
        proof {
            lemma_plane_bits(storage);
        }
        // MSB → BW RAM (high), LSB → Red RAM (low); inverted polarity for SSD1680.
        let bw_val = (storage & 0b10) == 0;
        let red_val = (storage & 0b01) == 0;

        let high_byte = self.high_buffer[idx];
        if bw_val {
            self.high_buffer.set(idx, high_byte | bit);
        } else {
            self.high_buffer.set(idx, high_byte & !bit);
        }
        let low_byte = self.low_buffer[idx];
        if red_val {
            self.low_buffer.set(idx, low_byte | bit);
        } else {
            self.low_buffer.set(idx, low_byte & !bit);
        }
    }

    /// Draw a black/white pixel: white is drawn as level 3, black as level 0.
    pub fn set_binary_pixel(&mut self, x: i32, y: i32, color: Color)
        requires
            old(self).wf(),
        ensures
            final(self).wf(),
            final(self).high() == write_pixel(
                old(self).high(),
                x as int,
                y as int,
                WIDTH as int,
                HEIGHT as int,
                old(self).spec_rotation(),
                high_plane_bit(binary_level(color)),
            ),
            final(self).low() == write_pixel(
                old(self).low(),
                x as int,
                y as int,
                WIDTH as int,
                HEIGHT as int,
                old(self).spec_rotation(),
                low_plane_bit(binary_level(color)),
            ),
            final(self).spec_rotation() == old(self).spec_rotation(),
    {
        let level = match color {
            Color::White => GrayLevel::white(),
            Color::Black => GrayLevel::black(),
        };
        self.set_pixel(x, y, level);
    }

    /// Size of the drawing area, `(width, height)`, for the current rotation.
    pub fn size(&self) -> (size: (u32, u32))
        ensures
            (size.0 as int, size.1 as int) == spec_drawing_size(WIDTH as int, HEIGHT as int, self.spec_rotation()),
    {
        drawing_size(WIDTH as u32, HEIGHT as u32, self.rotation)
    }
}

impl Default for Display2in9Gray2 {
    fn default() -> (display: Self)
        ensures
            display.wf(),
            display.high() == Seq::new(BUFFER_LEN as nat, |i: int| 0x00u8),
            display.low() == Seq::new(BUFFER_LEN as nat, |i: int| 0x00u8),
            display.spec_rotation() == DisplayRotation::Rotate270,
    {
        Self::new()
    }
}

/// The level a black/white pixel is drawn with: white is 3, black is 0.
pub open spec fn binary_level(color: Color) -> u8 {
    match color {
        Color::White => 3,
        Color::Black => 0,
    }
}

/// The plane bits of a level are the complements of its two bits.
proof fn lemma_plane_bits(storage: u8)
    requires
        storage < 4,
    ensures
        ((storage & 0b10) == 0) == high_plane_bit(storage),
        ((storage & 0b01) == 0) == low_plane_bit(storage),
{
    assert(storage < 4 ==> (((storage & 0b10) == 0) == (storage < 2))) by (bit_vector);
    assert(((storage & 0b01) == 0) == (storage % 2 == 0)) by (bit_vector);
}

/// The two-plane encoding is one-to-one: the bits stored for each of the four
/// levels give that level back.
pub proof fn lemma_encoding_round_trip(luma: u8)
    requires
        luma < 4,
    ensures
        level_of_bits(high_plane_bit(luma), low_plane_bit(luma)) == luma,
{
}

/// Setting a pixel on the panel makes it show the level written and leaves
/// every other pixel showing what it showed before.
pub proof fn lemma_set_pixel_reads_back(
    before: Display2in9Gray2,
    after: Display2in9Gray2,
    x: int,
    y: int,
    luma: u8,
    px: int,
    py: int,
)
    requires
        before.wf(),
        luma < 4,
        after.spec_rotation() == before.spec_rotation(),
        after.high() == write_pixel(before.high(), x, y, WIDTH as int, HEIGHT as int, before.spec_rotation(), high_plane_bit(luma)),
        after.low() == write_pixel(before.low(), x, y, WIDTH as int, HEIGHT as int, before.spec_rotation(), low_plane_bit(luma)),
        !spec_outside_display(px, py, WIDTH as int, HEIGHT as int, before.spec_rotation()),
    ensures
        after.level_at(px, py) == if px == x && py == y {
            luma
        } else {
            before.level_at(px, py)
        },
{
    let r = before.spec_rotation();
    lemma_write_pixel_reads_back(before.high(), x, y, px, py, WIDTH as int, HEIGHT as int, r, high_plane_bit(luma));
    lemma_write_pixel_reads_back(before.low(), x, y, px, py, WIDTH as int, HEIGHT as int, r, low_plane_bit(luma));
}

/// After clearing to a level every pixel of the panel shows that level.
pub proof fn lemma_clear_reads_level(display: Display2in9Gray2, luma: u8, px: int, py: int)
    requires
        luma < 4,
        display.high() == Seq::new(BUFFER_LEN as nat, |i: int| if high_plane_bit(luma) { 0xFFu8 } else { 0x00u8 }),
        display.low() == Seq::new(BUFFER_LEN as nat, |i: int| if low_plane_bit(luma) { 0xFFu8 } else { 0x00u8 }),
        !spec_outside_display(px, py, WIDTH as int, HEIGHT as int, display.spec_rotation()),
    ensures
        display.level_at(px, py) == luma,
{
    let r = display.spec_rotation();
    assert(spec_buffer_len(WIDTH as int, HEIGHT as int) == BUFFER_LEN);
    lemma_filled_plane_reads(
        display.high(),
        if high_plane_bit(luma) { 0xFFu8 } else { 0x00u8 },
        px,
        py,
        WIDTH as int,
        HEIGHT as int,
        r,
    );
    lemma_filled_plane_reads(
        display.low(),
        if low_plane_bit(luma) { 0xFFu8 } else { 0x00u8 },
        px,
        py,
        WIDTH as int,
        HEIGHT as int,
        r,
    );
}

/// Setting the same pixel twice leaves what the second setting left, in both planes.
pub proof fn lemma_set_pixel_twice(display: Display2in9Gray2, x: int, y: int, first: u8, second: u8)
    requires
        display.wf(),
    ensures
        ({
            let r = display.spec_rotation();
            &&& write_pixel(
                write_pixel(display.high(), x, y, WIDTH as int, HEIGHT as int, r, high_plane_bit(first)),
                x,
                y,
                WIDTH as int,
                HEIGHT as int,
                r,
                high_plane_bit(second),
            ) == write_pixel(display.high(), x, y, WIDTH as int, HEIGHT as int, r, high_plane_bit(second))
            &&& write_pixel(
                write_pixel(display.low(), x, y, WIDTH as int, HEIGHT as int, r, low_plane_bit(first)),
                x,
                y,
                WIDTH as int,
                HEIGHT as int,
                r,
                low_plane_bit(second),
            ) == write_pixel(display.low(), x, y, WIDTH as int, HEIGHT as int, r, low_plane_bit(second))
        }),
{
    let r = display.spec_rotation();
    lemma_write_pixel_twice(display.high(), x, y, WIDTH as int, HEIGHT as int, r, high_plane_bit(first), high_plane_bit(second));
    lemma_write_pixel_twice(display.low(), x, y, WIDTH as int, HEIGHT as int, r, low_plane_bit(first), low_plane_bit(second));
}

/// Setting two different pixels gives the same planes in either order.
pub proof fn lemma_set_pixels_commute(
    display: Display2in9Gray2,
    x1: int,
    y1: int,
    l1: u8,
    x2: int,
    y2: int,
    l2: u8,
)
    requires
        display.wf(),
        x1 != x2 || y1 != y2,
    ensures
        ({
            let r = display.spec_rotation();
            &&& write_pixel(
                write_pixel(display.high(), x1, y1, WIDTH as int, HEIGHT as int, r, high_plane_bit(l1)),
                x2,
                y2,
                WIDTH as int,
                HEIGHT as int,
                r,
                high_plane_bit(l2),
            ) == write_pixel(
                write_pixel(display.high(), x2, y2, WIDTH as int, HEIGHT as int, r, high_plane_bit(l2)),
                x1,
                y1,
                WIDTH as int,
                HEIGHT as int,
                r,
                high_plane_bit(l1),
            )
            &&& write_pixel(
                write_pixel(display.low(), x1, y1, WIDTH as int, HEIGHT as int, r, low_plane_bit(l1)),
                x2,
                y2,
                WIDTH as int,
                HEIGHT as int,
                r,
                low_plane_bit(l2),
            ) == write_pixel(
                write_pixel(display.low(), x2, y2, WIDTH as int, HEIGHT as int, r, low_plane_bit(l2)),
                x1,
                y1,
                WIDTH as int,
                HEIGHT as int,
                r,
                low_plane_bit(l1),
            )
        }),
{
    let r = display.spec_rotation();
    lemma_write_pixels_commute(display.high(), x1, y1, high_plane_bit(l1), x2, y2, high_plane_bit(l2), WIDTH as int, HEIGHT as int, r);
    lemma_write_pixels_commute(display.low(), x1, y1, low_plane_bit(l1), x2, y2, low_plane_bit(l2), WIDTH as int, HEIGHT as int, r);
}

/// The pixels of the panel cover every bit of both planes exactly once: a
/// valid buffer in which every pixel shows one level is exactly the buffer
/// cleared to that level.
pub proof fn lemma_uniform_level_is_cleared(display: Display2in9Gray2, luma: u8)
    requires
        display.wf(),
        luma < 4,
        forall|x: int, y: int|
            !spec_outside_display(x, y, WIDTH as int, HEIGHT as int, display.spec_rotation())
                ==> #[trigger] display.level_at(x, y) == luma,
    ensures
        display.high() == Seq::new(BUFFER_LEN as nat, |i: int| if high_plane_bit(luma) { 0xFFu8 } else { 0x00u8 }),
        display.low() == Seq::new(BUFFER_LEN as nat, |i: int| if low_plane_bit(luma) { 0xFFu8 } else { 0x00u8 }),
{
    let r = display.spec_rotation();
    assert forall|x: int, y: int|
        !spec_outside_display(x, y, WIDTH as int, HEIGHT as int, r) implies #[trigger] pixel_is_set(
        display.high(),
        x,
        y,
        WIDTH as int,
        HEIGHT as int,
        r,
    ) == high_plane_bit(luma) by {
        assert(display.level_at(x, y) == luma);
    }
    assert forall|x: int, y: int|
        !spec_outside_display(x, y, WIDTH as int, HEIGHT as int, r) implies #[trigger] pixel_is_set(
        display.low(),
        x,
        y,
        WIDTH as int,
        HEIGHT as int,
        r,
    ) == low_plane_bit(luma) by {
        assert(display.level_at(x, y) == luma);
    }
    lemma_uniform_plane_is_filled(display.high(), WIDTH as int, HEIGHT as int, r, high_plane_bit(luma));
    lemma_uniform_plane_is_filled(display.low(), WIDTH as int, HEIGHT as int, r, low_plane_bit(luma));
    assert(display.high() =~= Seq::new(BUFFER_LEN as nat, |i: int| if high_plane_bit(luma) { 0xFFu8 } else { 0x00u8 }));
    assert(display.low() =~= Seq::new(BUFFER_LEN as nat, |i: int| if low_plane_bit(luma) { 0xFFu8 } else { 0x00u8 }));
}

/// Setting every pixel of the drawing area to one level, one `set_pixel` per
/// point of `points` in order (repeats allowed), leaves both planes exactly as
/// `clear_buffer` to that level leaves them, whatever they held before.
pub proof fn lemma_setting_every_pixel_is_clearing(display: Display2in9Gray2, points: Seq<(int, int)>, luma: u8)
    requires
        display.wf(),
        forall|x: int, y: int|
            !spec_outside_display(x, y, WIDTH as int, HEIGHT as int, display.spec_rotation())
                ==> #[trigger] points.contains((x, y)),
    ensures
        paint(display.high(), points, WIDTH as int, HEIGHT as int, display.spec_rotation(), high_plane_bit(luma))
            == Seq::new(BUFFER_LEN as nat, |i: int| if high_plane_bit(luma) { 0xFFu8 } else { 0x00u8 }),
        paint(display.low(), points, WIDTH as int, HEIGHT as int, display.spec_rotation(), low_plane_bit(luma))
            == Seq::new(BUFFER_LEN as nat, |i: int| if low_plane_bit(luma) { 0xFFu8 } else { 0x00u8 }),
{
    let r = display.spec_rotation();
    lemma_paint_everything_fills(display.high(), points, WIDTH as int, HEIGHT as int, r, high_plane_bit(luma));
    lemma_paint_everything_fills(display.low(), points, WIDTH as int, HEIGHT as int, r, low_plane_bit(luma));
}

/// The drawing area has one pixel for each bit of a plane, in every rotation.
pub proof fn lemma_drawing_area_matches_planes(rotation: DisplayRotation)
    ensures
        spec_drawing_size(WIDTH as int, HEIGHT as int, rotation).0 * spec_drawing_size(
            WIDTH as int,
            HEIGHT as int,
            rotation,
        ).1 == 8 * BUFFER_LEN,
{
    if swaps_axes(rotation) {
        assert(spec_drawing_size(WIDTH as int, HEIGHT as int, rotation) == (296int, 128int));
    } else {
        assert(spec_drawing_size(WIDTH as int, HEIGHT as int, rotation) == (128int, 296int));
    }
}

} // verus!
