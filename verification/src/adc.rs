//! Analog-to-digital converter.
use crate::mmio::{Block, RegOp, load, rd, store, until_set, wait_set, wr};
use vstd::prelude::*;

verus! {

/// Control and status.
pub const CS: usize = 0x00;
/// Conversion result.
pub const RESULT: usize = 0x04;
/// FIFO control and status.
pub const FCS: usize = 0x08;
/// Voltage range.
pub const RNG: usize = 0x20;
/// Clock divider.
pub const DIV: usize = 0x24;

/// The converter.
pub struct ADC;

impl ADC {
    /// Reset the converter, select the 0-3.3 V range and a 500 kHz clock,
    /// disable the FIFO and enable conversions.
    pub fn init() -> (ops: Vec<RegOp>)
        ensures
            ops@ == seq![
                wr(Block::Adc, CS, 0x10),
                RegOp::Spin { cycles: 10 },
                wr(Block::Adc, CS, 0),
                wr(Block::Adc, RNG, 1),
                wr(Block::Adc, DIV, 2000),
                wr(Block::Adc, FCS, 0),
                wr(Block::Adc, CS, 1),
            ],
    {
        vec![
            store(Block::Adc, CS, 0x10),
            RegOp::Spin { cycles: 10 },
            store(Block::Adc, CS, 0),
            store(Block::Adc, RNG, 1),
            store(Block::Adc, DIV, 2000),
            store(Block::Adc, FCS, 0),
            store(Block::Adc, CS, 1),
        ]
    }

    /// Convert on `channel` (its low three bits): start the conversion,
    /// wait for the done flag, read the result.  Decode with
    /// [`ADC::sample`].
    pub fn read(channel: u8) -> (ops: Vec<RegOp>)
        ensures
            ops@ == seq![
                wr(Block::Adc, CS, 0x100u32 | (1u32 << (((channel & 7) + 1) as u32))),
                wait_set(Block::Adc, CS, 0x1_0000),
                rd(Block::Adc, RESULT),
            ],
    {
        let ch = channel & 0x7;
        assert(ch < 8) by (bit_vector)
            requires
                ch == channel & 7,
        ;
        vec![
            store(Block::Adc, CS, 0x100u32 | (1u32 << ((ch + 1) as u32))),
            until_set(Block::Adc, CS, 0x1_0000),
            load(Block::Adc, RESULT),
        ]
    }

    /// The 12-bit right-aligned sample in a result word.
    pub fn sample(result: u32) -> (v: u32)
        ensures
            v == result & 0xFFF,
            v <= 0xFFF,
    {
        let v = result & 0xFFF;
        assert(v <= 0xFFF) by (bit_vector)
            requires
                v == result & 0xFFF,
        ;
        v
    }
}

} // verus!
