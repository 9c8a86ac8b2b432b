//! System timer compare channel 1, used as a periodic interrupt source.
use crate::mmio::{reg, store, wr, Block, Reg, RegOp};
use vstd::prelude::*;

verus! {

/// Control/status: one match flag per compare channel.
pub const CS: usize = 0x00;
/// Counter, lower 32 bits.
pub const CLO: usize = 0x04;
/// Compare channel 1.
pub const C1: usize = 0x10;
/// Match flag of channel 1.
pub const CS_M1: u32 = 0x2;
/// Period re-armed by the interrupt handler, in microseconds.
pub const IRQ_PERIOD_US: u32 = 1_000_000;

/// The compare-channel timer.
pub struct Timer;

impl Timer {
    /// Schedule the first match `1_000_000 / freq` microseconds from now.
    pub fn init(freq: u32) -> (ops: Vec<RegOp>)
        requires
            freq > 0,
        ensures
            ops@ == seq![
                RegOp::CopyAdd {
                    from: reg(Block::Timer, CLO),
                    to: reg(Block::Timer, C1),
                    add: (1_000_000int / freq as int) as u32,
                },
            ],
    {
        let interval = 1_000_000 / freq;
        vec![
            RegOp::CopyAdd {
                from: Reg { block: Block::Timer, offset: CLO },
                to: Reg { block: Block::Timer, offset: C1 },
                add: interval,
            },
        ]
    }
}

/// The two programs of the timer interrupt: acknowledge the match before the
/// registered handler runs, re-arm channel 1 one period later after it.
pub fn timer_irq_handler() -> (r: (Vec<RegOp>, Vec<RegOp>))
    ensures
        r.0@ == seq![wr(Block::Timer, CS, CS_M1)],
        r.1@ == seq![
            RegOp::CopyAdd { from: reg(Block::Timer, CLO), to: reg(Block::Timer, C1), add: IRQ_PERIOD_US },
        ],
{
    (
        vec![store(Block::Timer, CS, CS_M1)],
        vec![
            RegOp::CopyAdd {
                from: Reg { block: Block::Timer, offset: CLO },
                to: Reg { block: Block::Timer, offset: C1 },
                add: IRQ_PERIOD_US,
            },
        ],
    )
}

} // verus!
