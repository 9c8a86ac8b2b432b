# rusta drivers as register programs

Arduino-style drivers for the Raspberry Pi peripherals (GPIO, UART, SPI, I2C,
PWM, ADC, DMA, RTC, system timer, watchdog, per-core registers, VideoCore
mailbox, SSD1306 OLED), plus small pure components (pulse measurement, shift
registers, quadrature decoding, pseudo-random numbers, a task table, an
interrupt table, HTTP request building and the start of a JSON reader).

Every driver describes its effect on the hardware as a *register program*, a
`Vec<RegOp>` (see `src/mmio.rs`): writes, reads, read-modify-writes, polls and
delays on registers named by block and offset.  Values that a program reads are
decoded by companion functions.  Each function's contract states the exact
program it returns or the exact value it computes, and the proofs cover the
laws that tie operations together (a pin's mode field is the only one a mode
change touches, a byte shifted out comes back unchanged, a pixel reads back as
drawn, and so on).

- `src/` is the verified library; it contains no `unsafe` code and no trusted
  items.
- `app/` runs register programs on real memory-mapped I/O for a given board
  layout, and holds what needs machine instructions, statics, floats or
  futures.
- `tests/` exercises the library on concrete values.
