//! Power-management watchdog: reboots the board unless it is kicked in time.
use crate::mmio::{store, wr, Block, RegOp};
use vstd::prelude::*;

verus! {

/// Reset control register.
pub const PM_RSTC: usize = 0x1C;
/// Watchdog counter register.
pub const PM_WDOG: usize = 0x24;
/// Password that every write to the PM block must carry.
pub const PM_PASSWD: u32 = 0x5A00_0000;
/// Mask of the timeout field of `PM_WDOG` (20 bits of 1/65536 s ticks).
pub const WDOG_TIME_MASK: u32 = 0xF_FFFF;
/// Watchdog ticks per second.
pub const WDOG_TICKS_PER_SEC: u64 = 65536;
/// `PM_RSTC` configuration that arms a full reset.
pub const RSTC_FULL_RESET: u32 = 0x20;

/// Reset kinds, in the encoding of `PM_RSTC`.
#[derive(Clone, Copy, Debug, PartialEq, Eq, Structural)]
pub enum ResetCause {
    Full,
    Halt,
}

impl ResetCause {
    pub open spec fn code(self) -> u32 {
        match self {
            ResetCause::Full => 0x0000_0000,
            ResetCause::Halt => 0x0000_0020,
        }
    }

    pub fn bits(&self) -> (b: u32)
        ensures
            b == self.code(),
    {
        match self {
            ResetCause::Full => 0x0000_0000,
            ResetCause::Halt => 0x0000_0020,
        }
    }
}

/// The timeout field for `timeout_ms` milliseconds: the count of 1/65536 s
/// ticks, rounded down, kept to the field's 20 bits (timeouts up to about
/// 16 s fit).
pub open spec fn wdog_ticks(timeout_ms: u32) -> u32 {
    ((timeout_ms as int * 65536 / 1000) % 0x10_0000) as u32
}

/// The program that arms the watchdog to reset the board `timeout_ms`
/// milliseconds from now.
pub open spec fn enable_ops(timeout_ms: u32) -> Seq<RegOp> {
    seq![
        wr(Block::Pm, PM_WDOG, PM_PASSWD | wdog_ticks(timeout_ms)),
        wr(Block::Pm, PM_RSTC, PM_PASSWD | RSTC_FULL_RESET),
    ]
}

/// The watchdog.
pub struct Watchdog;

impl Watchdog {
    /// Arm the watchdog with a timeout of `timeout_ms` milliseconds (about
    /// 16 s at most): load the timeout, then select a full reset.
    pub fn enable(timeout_ms: u32) -> (ops: Vec<RegOp>)
        ensures
            ops@ == enable_ops(timeout_ms),
    {
        let ticks = ((timeout_ms as u64) * WDOG_TICKS_PER_SEC / 1000) % 0x10_0000;
        vec![
            store(Block::Pm, PM_WDOG, PM_PASSWD | (ticks as u32)),
            store(Block::Pm, PM_RSTC, PM_PASSWD | RSTC_FULL_RESET),
        ]
    }

    /// Reload the watchdog so that it does not fire: the same program as
    /// [`Watchdog::enable`].
    pub fn pet(timeout_ms: u32) -> (ops: Vec<RegOp>)
        ensures
            ops@ == enable_ops(timeout_ms),
    {
        Self::enable(timeout_ms)
    }

    /// Disarm the watchdog.
    pub fn disable() -> (ops: Vec<RegOp>)
        ensures
            ops@ == seq![wr(Block::Pm, PM_RSTC, PM_PASSWD), wr(Block::Pm, PM_WDOG, PM_PASSWD)],
    {
        vec![store(Block::Pm, PM_RSTC, PM_PASSWD), store(Block::Pm, PM_WDOG, PM_PASSWD)]
    }
}

/// Every word written to the PM block carries the password in its top
/// byte, and the counter word holds the timeout's tick count.
pub proof fn lemma_watchdog_words(timeout_ms: u32)
    ensures
        (PM_PASSWD | wdog_ticks(timeout_ms)) >> 24 == 0x5A,
        (PM_PASSWD | wdog_ticks(timeout_ms)) & WDOG_TIME_MASK == wdog_ticks(timeout_ms),
        (PM_PASSWD | RSTC_FULL_RESET) >> 24 == 0x5A,
{
    let t = wdog_ticks(timeout_ms);
    assert(t < 0x10_0000);
    assert({
        &&& (0x5A00_0000u32 | t) >> 24u32 == 0x5Au32
        &&& (0x5A00_0000u32 | t) & 0xF_FFFFu32 == t
        &&& (0x5A00_0000u32 | 0x20u32) >> 24u32 == 0x5Au32
    }) by (bit_vector)
        requires
            t < 0x10_0000u32,
    ;
}

} // verus!
