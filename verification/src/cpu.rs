//! Per-core helpers on the ARM-local register block: core identity,
//! secondary-core start-up, inter-processor interrupts and the local timer.
use crate::mmio::{load, rd, store, wr, Block, RegOp};
use vstd::prelude::*;

verus! {

/// Core 0 mailbox 0; the mailbox of core `n` is 4 bytes further each.
pub const MAILBOX0: usize = 0x00;
/// Mailbox set register.
pub const MAILBOX_SET: usize = 0x10;
/// Mailbox clear register.
pub const MAILBOX_CLR: usize = 0x14;
/// Local timer reload value.
pub const CORE_TIMER: usize = 0x2C;
/// Free-running 1 MHz counter.
pub const TIMER_CNT: usize = 0x44;
/// Number of cores.
pub const CORES: usize = 4;

/// The core's own index from an `MPIDR_EL1` value (its affinity-0 bits).
pub open spec fn core_of(mpidr: usize) -> usize {
    mpidr & 3
}

/// Core helpers.
pub struct Cpu;

impl Cpu {
    /// The running core's index (0-3) from the `MPIDR_EL1` value `mpidr`.
    pub fn core_id(mpidr: usize) -> (id: usize)
        ensures
            id == core_of(mpidr),
            id < CORES,
    {
        let id = mpidr & 0b11;
        assert(id < 4) by (bit_vector)
            requires
                id == mpidr & 3,
        ;
        id
    }

    /// [`Cpu::core_id`] as a `u32`.
    pub fn current_core(mpidr: usize) -> (id: u32)
        ensures
            id == core_of(mpidr),
    {
        Self::core_id(mpidr) as u32
    }

    /// Start secondary `core` at the code address `entry`: post the address
    /// in its mailbox, flag the mailbox, wake the cores.
    pub fn launch_core(core: usize, entry: u32) -> (ops: Vec<RegOp>)
        requires
            core < CORES,
        ensures
            ops@ == seq![
                wr(Block::Local, (MAILBOX0 + 4 * core) as usize, entry),
                wr(Block::Local, MAILBOX_SET, 1u32 << (core as u32)),
                RegOp::SendEvent,
            ],
    {
        vec![
            store(Block::Local, MAILBOX0 + 4 * core, entry),
            store(Block::Local, MAILBOX_SET, 1u32 << (core as u32)),
            RegOp::SendEvent,
        ]
    }

    /// Send an inter-processor interrupt to `core`.
    pub fn send_ipi(core: usize) -> (ops: Vec<RegOp>)
        requires
            core < 32,
        ensures
            ops@ == seq![wr(Block::Local, MAILBOX_SET, 1u32 << (core as u32))],
    {
        vec![store(Block::Local, MAILBOX_SET, 1u32 << (core as u32))]
    }

    /// Clear the pending inter-processor interrupt of the running core,
    /// whose `MPIDR_EL1` value is `mpidr`.
    pub fn clear_ipi(mpidr: usize) -> (ops: Vec<RegOp>)
        ensures
            ops@ == seq![wr(Block::Local, MAILBOX_CLR, 1u32 << (core_of(mpidr) as u32))],
    {
        let id = Self::core_id(mpidr);
        vec![store(Block::Local, MAILBOX_CLR, 1u32 << (id as u32))]
    }

    /// Load the local timer with `interval_us`.
    pub fn timer_enable(interval_us: u32) -> (ops: Vec<RegOp>)
        ensures
            ops@ == seq![wr(Block::Local, CORE_TIMER, interval_us)],
    {
        vec![store(Block::Local, CORE_TIMER, interval_us)]
    }

    /// Read the free-running 1 MHz counter (the word read is the count).
    pub fn timer_now() -> (ops: Vec<RegOp>)
        ensures
            ops@ == seq![rd(Block::Local, TIMER_CNT)],
    {
        vec![load(Block::Local, TIMER_CNT)]
    }
}

} // verus!
