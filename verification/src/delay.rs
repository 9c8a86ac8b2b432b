//! Time keeping on the free-running 1 MHz system timer.
use crate::mmio::{Block, Reg, RegOp, rd, repeat};
use vstd::prelude::*;

verus! {

/// Lower 32 bits of the system timer counter (`CLO`).
pub const SYS_TIMER_CLO: usize = 0x04;

/// Read the lower counter word; convert with [`micros_value`].
pub fn micros() -> (ops: Vec<RegOp>)
    ensures
        ops@ == seq![rd(Block::SysTimer, SYS_TIMER_CLO)],
{
    vec![RegOp::Read { reg: Reg { block: Block::SysTimer, offset: SYS_TIMER_CLO } }]
}

/// Microseconds since boot from the counter word `clo` (wraps after
/// 2^32 us, about 71 minutes).
pub fn micros_value(clo: u32) -> (us: u64)
    ensures
        us == clo,
{
    clo as u64
}

/// Microseconds the 32-bit counter has advanced from sample `start` to
/// sample `now`, counted modulo 2^32 (so a wrap of the counter in between is
/// accounted for).
pub open spec fn ticks_between(now: u64, start: u64) -> u32 {
    vstd::wrapping::u32_specs::wrapping_sub(now as u32, start as u32)
}

/// Whether a busy-wait of `n` microseconds begun at counter sample `start`
/// is over at sample `now`.
pub fn us_elapsed(start: u64, now: u64, n: u32) -> (done: bool)
    ensures
        done == (ticks_between(now, start) >= n),
{
    (now as u32).wrapping_sub(start as u32) >= n
}

/// Delay `n` microseconds.
pub fn us(n: u32) -> (ops: Vec<RegOp>)
    ensures
        ops@ == seq![RegOp::DelayUs { us: n }],
{
    vec![RegOp::DelayUs { us: n }]
}

/// Delay `n` milliseconds: `n` successive delays of 1000 microseconds.
pub fn ms(n: u32) -> (ops: Vec<RegOp>)
    ensures
        ops@ == repeat(seq![RegOp::DelayUs { us: 1000 }], n as nat),
{
    let mut ops: Vec<RegOp> = Vec::new();
    let mut i: u32 = 0;
    while i < n
        invariant
            i <= n,
            ops@ == repeat(seq![RegOp::DelayUs { us: 1000 }], i as nat),
        decreases n - i,
    {
        ops.push(RegOp::DelayUs { us: 1000 });
        assert(ops@ =~= repeat(seq![RegOp::DelayUs { us: 1000 }], (i + 1) as nat));
        i = i + 1;
    }
    ops
}

/// Burn `n` iterations of a `nop` loop (for waits shorter than 1 us).
pub fn cycles(n: u32) -> (ops: Vec<RegOp>)
    ensures
        ops@ == seq![RegOp::Spin { cycles: n }],
{
    vec![RegOp::Spin { cycles: n }]
}

} // verus!
