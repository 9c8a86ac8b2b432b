//! Real-time clock with a one-shot alarm.
use crate::mmio::{load, rd, reg, store, wr, Block, Reg, RegOp};
use vstd::prelude::*;

verus! {

/// Data (current time) register.
pub const DR: usize = 0x00;
/// Match (alarm) register.
pub const MR: usize = 0x04;
/// Control register.
pub const CR: usize = 0x0C;
/// Interrupt mask register.
pub const IMSC: usize = 0x10;

/// The real-time clock.
pub struct RTC;

impl RTC {
    /// Start the clock.
    pub fn init() -> (ops: Vec<RegOp>)
        ensures
            ops@ == seq![wr(Block::Rtc, CR, 1)],
    {
        vec![store(Block::Rtc, CR, 1)]
    }

    /// Raise the alarm `seconds` after the current time (the sum wraps
    /// with the counter), and unmask the alarm interrupt.
    pub fn set_alarm(seconds: u32) -> (ops: Vec<RegOp>)
        ensures
            ops@ == seq![
                RegOp::CopyAdd { from: reg(Block::Rtc, DR), to: reg(Block::Rtc, MR), add: seconds },
                wr(Block::Rtc, IMSC, 1),
            ],
    {
        vec![
            RegOp::CopyAdd {
                from: Reg { block: Block::Rtc, offset: DR },
                to: Reg { block: Block::Rtc, offset: MR },
                add: seconds,
            },
            store(Block::Rtc, IMSC, 1),
        ]
    }

    /// Read the current time (the word read is the time in seconds).
    pub fn current_time() -> (ops: Vec<RegOp>)
        ensures
            ops@ == seq![rd(Block::Rtc, DR)],
    {
        vec![load(Block::Rtc, DR)]
    }
}

} // verus!
