# epd-datafuri

Drivers for Adafruit 2.9" e-paper displays (SSD1680 and IL0373 controllers).

- `src/` is the verified library: the frame buffers and their pixel geometry
  (`graphics`), pixel values (`color`), the command sequences that each driver
  operation sends (`displays`, `driver`), and the rule by which a sequence is
  carried out and stops at its first failure (`driver::Transaction`).
- `app/` drives the hardware with embedded-hal (SPI bus, pins, delays), carrying
  out the library's sequences, and implements the embedded-graphics drawing
  traits over the library's buffers.
