//! 2.9" display graphics b/w buffer
use vstd::prelude::*;

use crate::color::Color;
use crate::graphics::{
    drawing_size, lemma_filled_plane_reads, lemma_uniform_plane_is_filled,
    lemma_paint_everything_fills, paint,
    lemma_write_pixel_reads_back, lemma_write_pixel_twice, lemma_write_pixels_commute,
    pixel_is_set, spec_buffer_len, spec_drawing_size, spec_find_position,
    spec_outside_display, write_pixel, Display, DisplayRotation,
};

verus! {

/// Display width of the MagTag 2.9" IL0373 and SSD1680 panel in pixels.
pub const WIDTH: u16 = 128;

/// Display height of the MagTag 2.9" IL0373 and SSD1680 panel in pixels.
pub const HEIGHT: u16 = 296;

/// Length in bytes of the frame buffer: 16 bytes per row of 128 pixels, 296 rows.
pub const BUFFER_LEN: usize = 4736;

/// Graphics buffer for the 2.9" display
pub struct Display2in9Mono {
    buffer: Vec<u8>,
    rotation: DisplayRotation,
    is_inverted: bool,
}

impl Display2in9Mono {
    /// The frame buffer holds one bit for each pixel of the panel, and pixels
    /// are stored as drawn: no operation of the buffer sets it inverted.
    pub open spec fn wf(&self) -> bool {
        &&& self.frame().len() == BUFFER_LEN
        &&& !self.spec_is_inverted()
    }

    /// The bytes of the frame buffer.
    pub closed spec fn frame(&self) -> Seq<u8> {
        self.buffer@
    }

    /// The rotation of the drawing coordinates.
    pub closed spec fn spec_rotation(&self) -> DisplayRotation {
        self.rotation
    }

    /// Whether drawing stores the complement of each pixel.
    pub closed spec fn spec_is_inverted(&self) -> bool {
        self.is_inverted
    }

    /// The color shown at the drawing point `(x, y)`.
    pub open spec fn color_at(&self, x: int, y: int) -> Color {
        if pixel_is_set(self.frame(), x, y, WIDTH as int, HEIGHT as int, self.spec_rotation())
            != self.spec_is_inverted() {
            Color::White
        } else {
            Color::Black
        }
    }

    /// Create a new black and white graphics buffer for the 2.9" display:
    /// all white, rotated by 270 degrees, not inverted.
    pub fn new() -> (display: Self)
        ensures
            display.wf(),
            display.frame() == Seq::new(BUFFER_LEN as nat, |i: int| Color::White.spec_byte_value()),
            display.spec_rotation() == DisplayRotation::Rotate270,
            !display.spec_is_inverted(),
    {
        let buffer = vec![Color::White.get_byte_value(); BUFFER_LEN];
        let display = Self { buffer, rotation: DisplayRotation::Rotate270, is_inverted: false };
        assert(display.frame() =~= Seq::new(BUFFER_LEN as nat, |i: int| Color::White.spec_byte_value()));
        display
    }

    /// Size of the drawing area, `(width, height)`, for the current rotation.
    pub fn size(&self) -> (size: (u32, u32))
        ensures
            (size.0 as int, size.1 as int) == spec_drawing_size(WIDTH as int, HEIGHT as int, self.spec_rotation()),
    {
        drawing_size(WIDTH as u32, HEIGHT as u32, self.rotation)
    }
}

impl Display for Display2in9Mono {
    open spec fn display_frame(&self) -> Seq<u8> {
        self.frame()
    }

    open spec fn display_rotation(&self) -> DisplayRotation {
        self.spec_rotation()
    }

    open spec fn display_inverted(&self) -> bool {
        self.spec_is_inverted()
    }

    /// The frame buffer, to be sent to the display controller.
    fn buffer(&self) -> (buffer: &[u8]) {
        self.buffer.as_slice()
    }

    /// Mutable access to the frame buffer; the buffer stays valid exactly when
    /// the slice keeps its length.
    fn get_mut_buffer(&mut self) -> (buffer: &mut [u8])
        ensures
            old(self).wf() ==> (final(self).wf() <==> final(buffer)@.len() == buffer@.len()),
    {
        self.buffer.as_mut_slice()
    }

    /// Set the rotation used for coordinate transforms.
    fn set_rotation(&mut self, rotation: DisplayRotation)
        ensures
            final(self).wf() == old(self).wf(),
    {
        self.rotation = rotation;
    }

    /// Get the current rotation.
    fn rotation(&self) -> (rotation: DisplayRotation) {
        self.rotation
    }

    /// Whether drawing stores the complement of each pixel.
    fn is_inverted(&self) -> (inverted: bool) {
        self.is_inverted
    }
}

impl Default for Display2in9Mono {
    fn default() -> (display: Self)
        ensures
            display.wf(),
            display.frame() == Seq::new(BUFFER_LEN as nat, |i: int| Color::White.spec_byte_value()),
            display.spec_rotation() == DisplayRotation::Rotate270,
            !display.spec_is_inverted(),
    {
        Self::new()
    }
}

/// Drawing a pixel of the panel makes it show the color drawn and leaves every
/// other pixel showing what it showed before.
pub proof fn lemma_draw_reads_back(
    before: Display2in9Mono,
    after: Display2in9Mono,
    x: int,
    y: int,
    color: Color,
    px: int,
    py: int,
)
    requires
        before.wf(),
        after.spec_rotation() == before.spec_rotation(),
        after.spec_is_inverted() == before.spec_is_inverted(),
        after.frame() == write_pixel(
            before.frame(),
            x,
            y,
            WIDTH as int,
            HEIGHT as int,
            before.spec_rotation(),
            (color == Color::White) != before.spec_is_inverted(),
        ),
        !spec_outside_display(px, py, WIDTH as int, HEIGHT as int, before.spec_rotation()),
    ensures
        after.color_at(px, py) == if px == x && py == y {
            color
        } else {
            before.color_at(px, py)
        },
{
    lemma_write_pixel_reads_back(
        before.frame(),
        x,
        y,
        px,
        py,
        WIDTH as int,
        HEIGHT as int,
        before.spec_rotation(),
        (color == Color::White) != before.spec_is_inverted(),
    );
}

/// After clearing to a color every pixel of the panel shows that color (its
/// inverse when the buffer is inverted).
pub proof fn lemma_clear_reads_color(display: Display2in9Mono, color: Color, px: int, py: int)
    requires
        display.frame() == Seq::new(BUFFER_LEN as nat, |i: int| color.spec_byte_value()),
        !spec_outside_display(px, py, WIDTH as int, HEIGHT as int, display.spec_rotation()),
    ensures
        display.color_at(px, py) == if display.spec_is_inverted() {
            color.spec_inverse()
        } else {
            color
        },
{
    lemma_filled_plane_reads(
        display.frame(),
        color.spec_byte_value(),
        px,
        py,
        WIDTH as int,
        HEIGHT as int,
        display.spec_rotation(),
    );
}

/// Drawing the same pixel twice leaves what the second drawing left.
pub proof fn lemma_draw_twice(display: Display2in9Mono, x: int, y: int, first: Color, second: Color)
    requires
        display.wf(),
    ensures
        write_pixel(
            write_pixel(display.frame(), x, y, WIDTH as int, HEIGHT as int, display.spec_rotation(), first == Color::White),
            x,
            y,
            WIDTH as int,
            HEIGHT as int,
            display.spec_rotation(),
            second == Color::White,
        ) == write_pixel(display.frame(), x, y, WIDTH as int, HEIGHT as int, display.spec_rotation(), second == Color::White),
{
    lemma_write_pixel_twice(
        display.frame(),
        x,
        y,
        WIDTH as int,
        HEIGHT as int,
        display.spec_rotation(),
        first == Color::White,
        second == Color::White,
    );
}

/// Drawing two different pixels gives the same buffer in either order.
pub proof fn lemma_draws_commute(
    display: Display2in9Mono,
    x1: int,
    y1: int,
    c1: Color,
    x2: int,
    y2: int,
    c2: Color,
)
    requires
        display.wf(),
        x1 != x2 || y1 != y2,
    ensures
        ({
            let r = display.spec_rotation();
            write_pixel(
                write_pixel(display.frame(), x1, y1, WIDTH as int, HEIGHT as int, r, c1 == Color::White),
                x2,
                y2,
                WIDTH as int,
                HEIGHT as int,
                r,
                c2 == Color::White,
            ) == write_pixel(
                write_pixel(display.frame(), x2, y2, WIDTH as int, HEIGHT as int, r, c2 == Color::White),
                x1,
                y1,
                WIDTH as int,
                HEIGHT as int,
                r,
                c1 == Color::White,
            )
        }),
{
    lemma_write_pixels_commute(
        display.frame(),
        x1,
        y1,
        c1 == Color::White,
        x2,
        y2,
        c2 == Color::White,
        WIDTH as int,
        HEIGHT as int,
        display.spec_rotation(),
    );
}

/// The pixels of the panel cover the whole buffer: a valid buffer in which
/// every pixel shows one color is exactly the buffer cleared to that color.
pub proof fn lemma_uniform_color_is_cleared(display: Display2in9Mono, color: Color)
    requires
        display.wf(),
        forall|x: int, y: int|
            !spec_outside_display(x, y, WIDTH as int, HEIGHT as int, display.spec_rotation())
                ==> #[trigger] display.color_at(x, y) == color,
    ensures
        display.frame() == Seq::new(BUFFER_LEN as nat, |i: int| color.spec_byte_value()),
{
    let r = display.spec_rotation();
    assert forall|x: int, y: int|
        !spec_outside_display(x, y, WIDTH as int, HEIGHT as int, r) implies #[trigger] pixel_is_set(
        display.frame(),
        x,
        y,
        WIDTH as int,
        HEIGHT as int,
        r,
    ) == (color == Color::White) by {
        assert(display.color_at(x, y) == color);
    }
    lemma_uniform_plane_is_filled(display.frame(), WIDTH as int, HEIGHT as int, r, color == Color::White);
    assert(display.frame() =~= Seq::new(BUFFER_LEN as nat, |i: int| color.spec_byte_value()));
}

/// Drawing every pixel of the drawing area in one color, one `draw_helper` per
/// point of `points` in order (repeats allowed), leaves the buffer exactly as
/// `clear_buffer` to that color leaves it, whatever it held before.
pub proof fn lemma_drawing_every_pixel_is_clearing(display: Display2in9Mono, points: Seq<(int, int)>, color: Color)
    requires
        display.wf(),
        forall|x: int, y: int|
            !spec_outside_display(x, y, WIDTH as int, HEIGHT as int, display.spec_rotation())
                ==> #[trigger] points.contains((x, y)),
    ensures
        paint(display.frame(), points, WIDTH as int, HEIGHT as int, display.spec_rotation(), color == Color::White)
            == Seq::new(BUFFER_LEN as nat, |i: int| color.spec_byte_value()),
{
    lemma_paint_everything_fills(
        display.frame(),
        points,
        WIDTH as int,
        HEIGHT as int,
        display.spec_rotation(),
        color == Color::White,
    );
    assert(Seq::new(BUFFER_LEN as nat, |i: int| if color == Color::White { 0xFFu8 } else { 0x00u8 })
        =~= Seq::new(BUFFER_LEN as nat, |i: int| color.spec_byte_value()));
}

/// The buffer length is that of a 128 x 296 panel.
pub proof fn lemma_buffer_len_fits_panel()
    ensures
        spec_buffer_len(WIDTH as int, HEIGHT as int) == BUFFER_LEN,
{
}

} // verus!
