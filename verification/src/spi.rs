//! SPI0 master.
use crate::mmio::{Block, RegOp, load, rd, store, until_set, wait_set, wr};
use vstd::prelude::*;

verus! {

/// Control and status.
pub const CS: usize = 0x00;
/// TX/RX FIFO.
pub const FIFO: usize = 0x04;
/// Clock divider.
pub const CLK: usize = 0x08;
/// TX FIFO can accept data.
pub const CS_TXD: u32 = 0x400;
/// RX FIFO holds data.
pub const CS_RXD: u32 = 0x200;

/// The SPI0 controller.
pub struct SPI;

impl SPI {
    /// Reset, set the clock divider `div`, clear the FIFOs and start a
    /// transfer.
    pub fn init(div: u32) -> (ops: Vec<RegOp>)
        ensures
            ops@ == seq![
                wr(Block::Spi0, CS, 0),
                wr(Block::Spi0, CLK, div),
                wr(Block::Spi0, CS, 0x30),
                wr(Block::Spi0, CS, 0x80),
            ],
    {
        vec![
            store(Block::Spi0, CS, 0),
            store(Block::Spi0, CLK, div),
            store(Block::Spi0, CS, 0x30),
            store(Block::Spi0, CS, 0x80),
        ]
    }

    /// Exchange one byte: send `b`, then read the byte clocked in; decode
    /// with [`SPI::xfer_value`].
    pub fn xfer(b: u8) -> (ops: Vec<RegOp>)
        ensures
            ops@ == seq![
                wait_set(Block::Spi0, CS, CS_TXD),
                wr(Block::Spi0, FIFO, b as u32),
                wait_set(Block::Spi0, CS, CS_RXD),
                rd(Block::Spi0, FIFO),
            ],
    {
        vec![
            until_set(Block::Spi0, CS, CS_TXD),
            store(Block::Spi0, FIFO, b as u32),
            until_set(Block::Spi0, CS, CS_RXD),
            load(Block::Spi0, FIFO),
        ]
    }

    /// The byte received, from the FIFO word read by [`SPI::xfer`].
    pub fn xfer_value(fifo: u32) -> (b: u8)
        ensures
            b == fifo % 256,
    {
        (fifo % 256) as u8
    }
}

} // verus!
