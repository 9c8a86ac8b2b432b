//! DMA channel 0.
use crate::mmio::{load, rd, store, until_clear, wait_clear, wr, Block, RegOp};
use vstd::prelude::*;

verus! {

/// Control and status.
pub const CS: usize = 0x00;
/// Control block address.
pub const CONBLK_AD: usize = 0x04;
/// Reset bit of `CS`.
pub const CS_RESET: u32 = 0x8000_0000;
/// Active bit of `CS`.
pub const CS_ACTIVE: u32 = 0x1;
/// Physical address of the (uncached) control block.
pub const CONTROL_BLOCK_ADDR: u32 = 0x1000_0000;
/// Transfer information: increment the source, wait for write responses.
pub const TI_SRC_INC_WAIT_RESP: u32 = 0x110;

/// The fields of a control block that a transfer sets.
#[derive(Clone, Copy, Debug, PartialEq, Eq, Structural)]
pub struct DmaControlBlock {
    pub ti: u32,
    pub source_ad: u32,
    pub dest_ad: u32,
    pub txfr_len: u32,
    pub nextconbk: u32,
}

/// The DMA controller.
pub struct DMA;

impl DMA {
    /// Reset the channel and wait for the reset to complete.
    pub fn init() -> (ops: Vec<RegOp>)
        ensures
            ops@ == seq![wr(Block::Dma, CS, CS_RESET), wait_clear(Block::Dma, CS, CS_RESET)],
    {
        vec![store(Block::Dma, CS, CS_RESET), until_clear(Block::Dma, CS, CS_RESET)]
    }

    /// Copy `len` bytes from bus address `src` to bus address `dst`: the
    /// control block to place at [`CONTROL_BLOCK_ADDR`], and the program
    /// that points the channel at it and starts it.  The length field holds
    /// the low 32 bits of `len`.
    pub fn start_transfer(src: u32, dst: u32, len: usize) -> (r: (DmaControlBlock, Vec<RegOp>))
        ensures
            r.0 == (DmaControlBlock {
                ti: TI_SRC_INC_WAIT_RESP,
                source_ad: src,
                dest_ad: dst,
                txfr_len: len as u32,
                nextconbk: 0,
            }),
            r.1@ == seq![wr(Block::Dma, CONBLK_AD, CONTROL_BLOCK_ADDR), wr(Block::Dma, CS, CS_ACTIVE)],
    {
        let cb = DmaControlBlock {
            ti: TI_SRC_INC_WAIT_RESP,
            source_ad: src,
            dest_ad: dst,
            txfr_len: len as u32,
            nextconbk: 0,
        };
        (cb, vec![store(Block::Dma, CONBLK_AD, CONTROL_BLOCK_ADDR), store(Block::Dma, CS, CS_ACTIVE)])
    }

    /// Read the status register; decode with [`DMA::busy`].
    pub fn is_busy() -> (ops: Vec<RegOp>)
        ensures
            ops@ == seq![rd(Block::Dma, CS)],
    {
        vec![load(Block::Dma, CS)]
    }

    /// Whether the status word `cs` shows an active transfer.
    pub fn busy(cs: u32) -> (b: bool)
        ensures
            b == (cs & CS_ACTIVE != 0),
    {
        cs & CS_ACTIVE != 0
    }
}

} // verus!
