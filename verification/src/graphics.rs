//! 128x64 monochrome OLED (SSD1306) over I2C, with a local frame buffer.
use crate::i2c::{write_ops, I2C};
use crate::mmio::RegOp;
use vstd::prelude::*;

verus! {

/// Width in pixels.
pub const WIDTH: u8 = 128;
/// Height in pixels.
pub const HEIGHT: u8 = 64;
/// Bytes in the frame buffer: one bit per pixel, pages of 8 rows.
pub const BUFFER_LEN: usize = 1024;

#[derive(Clone, Copy, Debug, PartialEq, Eq, Structural)]
pub enum Font {
    Small,
    Medium,
    Large,
}

#[derive(Clone, Copy, Debug, PartialEq, Eq, Structural)]
pub enum Fill {
    Solid,
    Outline,
}

/// The controller's power-up command stream.
pub open spec fn init_commands() -> Seq<u8> {
    seq![
        0x00u8, 0xAE, 0xD5, 0x80, 0xA8, 0x3F, 0xD3, 0x00, 0x40, 0x8D, 0x14, 0x20, 0x00, 0xA1,
        0xC8, 0xDA, 0x12, 0x81, 0xCF, 0xD9, 0xF1, 0xDB, 0x40, 0xA4, 0xA6, 0xAF,
    ]
}

/// The command stream that selects the whole display as write window.
pub open spec fn window_commands() -> Seq<u8> {
    seq![0x00u8, 0x21, 0, 127, 0x22, 0, 7]
}

/// Byte of the frame buffer that holds pixel `(x, y)`.
pub open spec fn pixel_index(x: u8, y: u8) -> int {
    (y as int / 8) * 128 + x as int
}

/// Bit of that byte that holds pixel `(x, y)`.
pub open spec fn pixel_mask(y: u8) -> u8 {
    1u8 << (y % 8)
}

/// Whether pixel `(x, y)` is lit in `frame`.
pub open spec fn pixel_on(frame: Seq<u8>, x: u8, y: u8) -> bool {
    frame[pixel_index(x, y)] & pixel_mask(y) != 0
}

pub open spec fn on_screen(x: u8, y: u8) -> bool {
    x < WIDTH && y < HEIGHT
}

/// The frame after setting pixel `(x, y)` to `on` (pixels off screen are
/// ignored).
pub open spec fn with_pixel(frame: Seq<u8>, x: u8, y: u8, on: bool) -> Seq<u8> {
    if on_screen(x, y) {
        frame.update(
            pixel_index(x, y),
            if on {
                frame[pixel_index(x, y)] | pixel_mask(y)
            } else {
                frame[pixel_index(x, y)] & !pixel_mask(y)
            },
        )
    } else {
        frame
    }
}

/// An SSD1306 display at I2C address `addr`.
pub struct OLED {
    addr: u8,
    buffer: [u8; 1024],
}

impl OLED {
    pub closed spec fn address(&self) -> u8 {
        self.addr
    }

    /// The frame buffer.
    pub closed spec fn frame(&self) -> Seq<u8> {
        self.buffer@
    }

    /// Every display's frame holds `BUFFER_LEN` bytes.
    pub proof fn lemma_frame_len(&self)
        ensures
            self.frame().len() == BUFFER_LEN,
    {
    }

    /// A display at `addr` with a blank frame.
    pub fn new(addr: u8) -> (d: Self)
        ensures
            d.address() == addr,
            d.frame() == Seq::new(BUFFER_LEN as nat, |i: int| 0u8),
    {
        let buffer = [0u8; 1024];
        assert(buffer@ =~= Seq::new(BUFFER_LEN as nat, |i: int| 0u8));
        OLED { addr, buffer }
    }

    /// Send the power-up command stream.
    pub fn init(&self) -> (ops: Vec<RegOp>)
        ensures
            ops@ == write_ops(self.address(), init_commands()),
    {
        let cmds: Vec<u8> = vec![
            0x00, 0xAE, 0xD5, 0x80, 0xA8, 0x3F, 0xD3, 0x00, 0x40, 0x8D, 0x14, 0x20, 0x00, 0xA1,
            0xC8, 0xDA, 0x12, 0x81, 0xCF, 0xD9, 0xF1, 0xDB, 0x40, 0xA4, 0xA6, 0xAF,
        ];
        assert(cmds@ =~= init_commands());
        I2C::write(self.addr, cmds.as_slice())
    }

    /// Blank the frame.
    pub fn clear(&mut self)
        ensures
            final(self).address() == old(self).address(),
            final(self).frame() == Seq::new(BUFFER_LEN as nat, |i: int| 0u8),
    {
        let buffer = [0u8; 1024];
        assert(buffer@ =~= Seq::new(BUFFER_LEN as nat, |i: int| 0u8));
        self.buffer = buffer;
    }

    /// Light (`on`) or darken pixel `(x, y)`; pixels off screen are ignored.
    pub fn pixel(&mut self, x: u8, y: u8, on: bool)
        ensures
            final(self).address() == old(self).address(),
            final(self).frame() == with_pixel(old(self).frame(), x, y, on),
    {
        if x < 128 && y < 64 {
            let idx = (y as usize / 8) * 128 + x as usize;
            let bit = y % 8;
            let b = self.buffer[idx];
            if on {
                self.buffer[idx] = b | (1u8 << bit);
            } else {
                self.buffer[idx] = b & !(1u8 << bit);
            }
        }
    }

    /// Send the frame: select the whole window, start a data stream, send
    /// the buffer.
    pub fn flush(&self) -> (ops: Vec<RegOp>)
        ensures
            ops@ == write_ops(self.address(), window_commands()) + write_ops(self.address(), seq![0x40u8])
                + write_ops(self.address(), self.frame()),
    {
        let cmds: Vec<u8> = vec![0x00, 0x21, 0, 127, 0x22, 0, 7];
        assert(cmds@ =~= window_commands());
        let data: Vec<u8> = vec![0x40];
        assert(data@ =~= seq![0x40u8]);
        let mut ops = I2C::write(self.addr, cmds.as_slice());
        let mut stream = I2C::write(self.addr, data.as_slice());
        let mut frame = I2C::write(self.addr, self.buffer.as_slice());
        ops.append(&mut stream);
        ops.append(&mut frame);
        ops
    }

    /// The frame buffer.
    pub fn buffer(&self) -> (b: &[u8])
        ensures
            b@ == self.frame(),
    {
        self.buffer.as_slice()
    }
}

/// Reading a pixel back gives what was drawn there, and drawing one pixel
/// leaves every other on-screen pixel as it was.
pub proof fn lemma_pixel_read_back(frame: Seq<u8>, x: u8, y: u8, on: bool, x2: u8, y2: u8)
    requires
        frame.len() == BUFFER_LEN,
        on_screen(x, y),
        on_screen(x2, y2),
    ensures
        pixel_on(with_pixel(frame, x, y, on), x, y) == on,
        (x2 != x || y2 != y) ==> pixel_on(with_pixel(frame, x, y, on), x2, y2) == pixel_on(frame, x2, y2),
{
    let b = frame[pixel_index(x, y)];
    let k = y % 8;
    assert(k < 8);
    assert(((b | (1u8 << k)) & (1u8 << k) != 0) && ((b & !(1u8 << k)) & (1u8 << k) == 0)) by (bit_vector)
        requires
            k < 8,
    ;
    if (x2 != x || y2 != y) && pixel_index(x2, y2) == pixel_index(x, y) {
        let j = y2 % 8;
        assert(x2 == x && y2 / 8 == y / 8);
        assert(j != k);
        assert(((b | (1u8 << k)) & (1u8 << j) != 0) == (b & (1u8 << j) != 0)
            && ((b & !(1u8 << k)) & (1u8 << j) != 0) == (b & (1u8 << j) != 0)) by (bit_vector)
            requires
                k < 8,
                j < 8,
                j != k,
        ;
    }
}

} // verus!
