//! Register programs.
//!
//! Every driver of this crate describes what it does to the peripherals as a
//! *register program*: a sequence of [`RegOp`]s over registers named by a
//! peripheral block and a byte offset inside that block.  Running a program
//! against real memory-mapped I/O (volatile loads and stores at
//! `base(block) + offset`) is the job of the platform layer, which also picks
//! the base address of each block for the board in use.
//!
//! Values that a program reads back (the [`RegOp::Read`] steps) are handed to
//! the driver again, in order, as a `Vec<u32>` of readings.
use vstd::prelude::*;

verus! {

/// A block of memory-mapped peripheral registers.
#[derive(Clone, Copy, Debug, PartialEq, Eq, Structural)]
pub enum Block {
    Gpio,
    Uart0,
    Pwm,
    Spi0,
    I2c1,
    Adc,
    Dma,
    Rtc,
    /// The timer block used by the interrupt-driven `Timer` driver.
    Timer,
    /// The free-running system timer at `PERIPHERAL_BASE + 0x3000`.
    SysTimer,
    /// The ARM-local (per-core) register block.
    Local,
    /// The power-management block at `PERIPHERAL_BASE + 0x10_0000`.
    Pm,
    /// The VideoCore mailbox at `PERIPHERAL_BASE + 0xB880`.
    Mailbox,
}

/// One 32-bit register: a block and a byte offset inside it.
#[derive(Clone, Copy, Debug, PartialEq, Eq, Structural)]
pub struct Reg {
    pub block: Block,
    pub offset: usize,
}

/// One step of a register program.
#[derive(Clone, Copy, Debug, PartialEq, Eq, Structural)]
pub enum RegOp {
    /// Store `value` into `reg`.
    Write { reg: Reg, value: u32 },
    /// Load `reg`; the value read is appended to the program's readings.
    Read { reg: Reg },
    /// Read-modify-write: `reg = (reg & !clear) | set`.
    Modify { reg: Reg, clear: u32, set: u32 },
    /// `to = from.wrapping_add(add)`, reading `from` once.
    CopyAdd { from: Reg, to: Reg, add: u32 },
    /// Spin until `reg & mask != 0`.
    WaitSet { reg: Reg, mask: u32 },
    /// Spin until `reg & mask == 0`.
    WaitClear { reg: Reg, mask: u32 },
    /// Burn `cycles` iterations of a `nop` loop.
    Spin { cycles: u32 },
    /// Busy-wait until the system timer has advanced `us` microseconds,
    /// counted modulo 2^32 (see `delay::us_elapsed`).
    DelayUs { us: u32 },
    /// Signal an event to the other cores (`sev`).
    SendEvent,
}

/// The value that a [`RegOp::Modify`] stores when the register held `old`.
pub open spec fn modified(old: u32, clear: u32, set: u32) -> u32 {
    (old & !clear) | set
}

/// Executable form of [`modified`].
pub fn apply_modify(old: u32, clear: u32, set: u32) -> (r: u32)
    ensures
        r == modified(old, clear, set),
{
    (old & !clear) | set
}

pub open spec fn reg(block: Block, offset: usize) -> Reg {
    Reg { block, offset }
}

pub open spec fn wr(block: Block, offset: usize, value: u32) -> RegOp {
    RegOp::Write { reg: reg(block, offset), value }
}

pub open spec fn rd(block: Block, offset: usize) -> RegOp {
    RegOp::Read { reg: reg(block, offset) }
}

pub open spec fn wait_set(block: Block, offset: usize, mask: u32) -> RegOp {
    RegOp::WaitSet { reg: reg(block, offset), mask }
}

pub open spec fn wait_clear(block: Block, offset: usize, mask: u32) -> RegOp {
    RegOp::WaitClear { reg: reg(block, offset), mask }
}

/// Executable constructor of a [`RegOp::Write`].
pub fn store(block: Block, offset: usize, value: u32) -> (op: RegOp)
    ensures
        op == wr(block, offset, value),
{
    RegOp::Write { reg: Reg { block, offset }, value }
}

/// Executable constructor of a [`RegOp::Read`].
pub fn load(block: Block, offset: usize) -> (op: RegOp)
    ensures
        op == rd(block, offset),
{
    RegOp::Read { reg: Reg { block, offset } }
}

/// Executable constructor of a [`RegOp::WaitSet`].
pub fn until_set(block: Block, offset: usize, mask: u32) -> (op: RegOp)
    ensures
        op == wait_set(block, offset, mask),
{
    RegOp::WaitSet { reg: Reg { block, offset }, mask }
}

/// Executable constructor of a [`RegOp::WaitClear`].
pub fn until_clear(block: Block, offset: usize, mask: u32) -> (op: RegOp)
    ensures
        op == wait_clear(block, offset, mask),
{
    RegOp::WaitClear { reg: Reg { block, offset }, mask }
}

/// The register contents after `op`, for registers that behave as plain
/// storage (function selects, enables, compares, ...).  Reads, polls, delays
/// and events leave the contents as they were.
pub open spec fn step(mem: Map<Reg, u32>, op: RegOp) -> Map<Reg, u32> {
    match op {
        RegOp::Write { reg, value } => mem.insert(reg, value),
        RegOp::Modify { reg, clear, set } => mem.insert(reg, modified(mem[reg], clear, set)),
        RegOp::CopyAdd { from, to, add } => mem.insert(
            to,
            vstd::wrapping::u32_specs::wrapping_add(mem[from], add),
        ),
        _ => mem,
    }
}

/// The register contents after running `ops` from `mem`.
pub open spec fn effect(mem: Map<Reg, u32>, ops: Seq<RegOp>) -> Map<Reg, u32>
    decreases ops.len(),
{
    if ops.len() == 0 {
        mem
    } else {
        step(effect(mem, ops.drop_last()), ops.last())
    }
}

/// Running a program and then one more step is running the longer program.
pub proof fn lemma_effect_push(mem: Map<Reg, u32>, ops: Seq<RegOp>, op: RegOp)
    ensures
        effect(mem, ops.push(op)) == step(effect(mem, ops), op),
{
    assert(ops.push(op).drop_last() =~= ops);
}

/// The empty program changes nothing.
pub proof fn lemma_effect_empty(mem: Map<Reg, u32>)
    ensures
        effect(mem, Seq::empty()) == mem,
{
}

/// `n` copies of the program `s`, one after another.
pub open spec fn repeat(s: Seq<RegOp>, n: nat) -> Seq<RegOp>
    decreases n,
{
    if n == 0 {
        Seq::empty()
    } else {
        repeat(s, (n - 1) as nat) + s
    }
}

} // verus!
