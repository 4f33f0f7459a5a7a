use display_interface::DisplayError;
use embedded_graphics::pixelcolor::BinaryColor;
use embedded_graphics::draw_target::DrawTarget;
use embedded_graphics::geometry::{OriginDimensions, Point, Size};
use embedded_graphics::Drawable;
use embedded_graphics::primitives::Primitive;
use embedded_graphics::Pixel;
use embedded_graphics::primitives::{Line, PrimitiveStyle};
use epd_datafuri::color::Color;
use epd_datafuri::graphics::display290_mono::{Display2in9Mono, HEIGHT, WIDTH};
use epd_datafuri::graphics::{Display, DisplayRotation};

/// An embedded-graphics target over the library's buffer, drawing each pixel
/// with `draw_helper` (on is white, off is black).
struct Target(Display2in9Mono);

impl DrawTarget for Target {
    type Error = DisplayError;
    type Color = BinaryColor;

    fn draw_iter<I>(&mut self, pixels: I) -> Result<(), Self::Error>
    where
        I: IntoIterator<Item = Pixel<Self::Color>>,
    {
        for Pixel(point, color) in pixels {
            let color = match color {
                BinaryColor::On => Color::White,
                BinaryColor::Off => Color::Black,
            };
            self.0.draw_helper(WIDTH as u32, HEIGHT as u32, point.x, point.y, color);
        }
        Ok(())
    }
}

impl OriginDimensions for Target {
    fn size(&self) -> Size {
        let (width, height) = self.0.size();
        Size::new(width, height)
    }
}

#[test]
fn line_through_embedded_graphics() {
    let mut display = Display2in9Mono::new();
    display.set_rotation(DisplayRotation::Rotate0);
    let mut target = Target(display);

    let _ = Line::new(Point::new(0, 0), Point::new(7, 0))
        .into_styled(PrimitiveStyle::with_stroke(BinaryColor::Off, 1))
        .draw(&mut target);

    let buffer = target.0.buffer();
    assert_eq!(buffer[0], Color::Black.get_byte_value());
    for &byte in buffer.iter().skip(1) {
        assert_eq!(byte, Color::White.get_byte_value());
    }
}
