//! PL011 UART.
use crate::mmio::{Block, RegOp, load, rd, store, until_clear, wait_clear, wr};
use vstd::prelude::*;
use vstd::string::StringSliceAdditionalSpecFns;

verus! {

/// Data register.
pub const DR: usize = 0x00;
/// Flag register.
pub const FR: usize = 0x18;
/// Integer baud-rate divisor.
pub const IBRD: usize = 0x24;
/// Fractional baud-rate divisor.
pub const FBRD: usize = 0x28;
/// Line control.
pub const LCRH: usize = 0x2C;
/// Control.
pub const CR: usize = 0x30;
/// Transmit FIFO full.
pub const FR_TXFF: u32 = 0x20;
/// Receive FIFO empty.
pub const FR_RXFE: u32 = 0x10;

/// The primary UART.
pub struct UART;

/// The two steps that send byte `c`.
pub open spec fn putc_ops(c: u8) -> Seq<RegOp> {
    seq![wait_clear(Block::Uart0, FR, FR_TXFF), wr(Block::Uart0, DR, c as u32)]
}

/// The program that sends the bytes `bytes` in order.
pub open spec fn puts_ops(bytes: Seq<u8>) -> Seq<RegOp>
    decreases bytes.len(),
{
    if bytes.len() == 0 {
        Seq::empty()
    } else {
        puts_ops(bytes.drop_last()) + putc_ops(bytes.last())
    }
}

impl UART {
    /// Disable, program the integer divisor for `baud` from the 48 MHz
    /// clock, select 8-bit words with FIFOs, enable RX/TX.
    pub fn init(baud: u32) -> (ops: Vec<RegOp>)
        requires
            baud > 0,
            16 * baud <= u32::MAX,
        ensures
            ops@ == seq![
                wr(Block::Uart0, CR, 0),
                wr(Block::Uart0, IBRD, (48_000_000int / (16 * baud)) as u32),
                wr(Block::Uart0, FBRD, 0),
                wr(Block::Uart0, LCRH, 0x60),
                wr(Block::Uart0, CR, 0x301),
            ],
    {
        let div = 48_000_000 / (16 * baud);
        vec![
            store(Block::Uart0, CR, 0),
            store(Block::Uart0, IBRD, div),
            store(Block::Uart0, FBRD, 0),
            store(Block::Uart0, LCRH, 0x60),
            store(Block::Uart0, CR, 0x301),
        ]
    }

    /// Wait for room in the transmit FIFO, then send `c`.
    pub fn putc(c: u8) -> (ops: Vec<RegOp>)
        ensures
            ops@ == putc_ops(c),
    {
        vec![until_clear(Block::Uart0, FR, FR_TXFF), store(Block::Uart0, DR, c as u32)]
    }

    /// Wait for a received byte, then read the data register; decode with
    /// [`UART::getc_value`].
    pub fn getc() -> (ops: Vec<RegOp>)
        ensures
            ops@ == seq![wait_clear(Block::Uart0, FR, FR_RXFE), rd(Block::Uart0, DR)],
    {
        vec![until_clear(Block::Uart0, FR, FR_RXFE), load(Block::Uart0, DR)]
    }

    /// The byte in a data-register word (its low eight bits).
    pub fn getc_value(dr: u32) -> (c: u8)
        ensures
            c == dr % 256,
    {
        (dr % 256) as u8
    }

    /// A writer that sends text through this UART.
    pub fn writer() -> UartWriter {
        UartWriter
    }
}

/// Text sink on the primary UART.
pub struct UartWriter;

impl UartWriter {
    /// Send the bytes of `s`, one [`UART::putc`] each.
    pub fn write_str(&self, s: &str) -> (ops: Vec<RegOp>)
        ensures
            ops@ == puts_ops(s.spec_bytes()),
    {
        let bytes = s.as_bytes();
        let mut ops: Vec<RegOp> = Vec::new();
        let mut i: usize = 0;
        while i < bytes.len()
            invariant
                i <= bytes@.len(),
                bytes@ == s.spec_bytes(),
                ops@ == puts_ops(bytes@.subrange(0, i as int)),
            decreases bytes@.len() - i,
        {
            let c = bytes[i];
            ops.push(until_clear(Block::Uart0, FR, FR_TXFF));
            ops.push(store(Block::Uart0, DR, c as u32));
            assert(bytes@.subrange(0, i as int + 1).drop_last() =~= bytes@.subrange(0, i as int));
            assert(ops@ =~= puts_ops(bytes@.subrange(0, i as int + 1)));
            i = i + 1;
        }
        assert(bytes@.subrange(0, bytes@.len() as int) =~= bytes@);
        ops
    }
}

} // verus!
