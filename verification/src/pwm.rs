//! PWM channel 1.  The duty cycle is a fraction; turning it into a data word
//! (`range * duty`) is left to the caller, which hands the word in.
use crate::mmio::{effect, lemma_effect_empty, lemma_effect_push, load, rd, reg, store, wr, Block, Reg, RegOp};
use vstd::prelude::*;

verus! {

/// Control.
pub const CTL: usize = 0x00;
/// Range of channel 1.
pub const RNG1: usize = 0x10;
/// Data of channel 1.
pub const DAT1: usize = 0x14;
/// PWM clock in Hz.
pub const PWM_CLOCK_HZ: u32 = 19_200_000;
/// Control word enabling channel 1 in mark-space mode.
pub const CTL_ENABLE: u32 = 0x81;

/// The program that runs channel 1 at `freq` Hz with a 50 % duty cycle.
pub open spec fn half_duty_ops(freq: u32) -> Seq<RegOp> {
    seq![
        wr(Block::Pwm, CTL, 0),
        wr(Block::Pwm, RNG1, PWM_CLOCK_HZ / freq),
        wr(Block::Pwm, DAT1, (PWM_CLOCK_HZ / freq) / 2),
        wr(Block::Pwm, CTL, CTL_ENABLE),
    ]
}

/// The PWM block.
pub struct PWM;

impl PWM {
    /// The range (clock ticks per period) for a `freq` Hz output.
    pub fn range(freq: u32) -> (r: u32)
        requires
            freq > 0,
        ensures
            r == PWM_CLOCK_HZ / freq,
    {
        PWM_CLOCK_HZ / freq
    }

    /// Stop the channel, set its range for `freq` Hz and its data word
    /// `data`, then enable it.
    pub fn init(freq: u32, data: u32) -> (ops: Vec<RegOp>)
        requires
            freq > 0,
        ensures
            ops@ == seq![
                wr(Block::Pwm, CTL, 0),
                wr(Block::Pwm, RNG1, PWM_CLOCK_HZ / freq),
                wr(Block::Pwm, DAT1, data),
                wr(Block::Pwm, CTL, CTL_ENABLE),
            ],
    {
        let rng = Self::range(freq);
        vec![
            store(Block::Pwm, CTL, 0),
            store(Block::Pwm, RNG1, rng),
            store(Block::Pwm, DAT1, data),
            store(Block::Pwm, CTL, CTL_ENABLE),
        ]
    }

    /// Run channel 1 at `freq` Hz with a 50 % duty cycle.  The data word is
    /// half the range, rounded down: for every range the PWM clock allows
    /// this equals `(range as f32 * 0.5) as u32`, since each such range is
    /// exact in `f32`.
    pub fn half_duty(freq: u32) -> (ops: Vec<RegOp>)
        requires
            freq > 0,
        ensures
            ops@ == half_duty_ops(freq),
    {
        let range = Self::range(freq);
        Self::init(freq, range / 2)
    }

    /// Read the current range, from which the caller derives a data word.
    pub fn read_range() -> (ops: Vec<RegOp>)
        ensures
            ops@ == seq![rd(Block::Pwm, RNG1)],
    {
        vec![load(Block::Pwm, RNG1)]
    }

    /// Set the data word (the duty cycle) of channel 1.
    pub fn set_duty(data: u32) -> (ops: Vec<RegOp>)
        ensures
            ops@ == seq![wr(Block::Pwm, DAT1, data)],
    {
        vec![store(Block::Pwm, DAT1, data)]
    }
}

/// Run on the registers, a 50 % program leaves the range for `freq` in
/// `RNG1`, half of it in `DAT1`, and the channel enabled.
pub proof fn lemma_half_duty_effect(mem: Map<Reg, u32>, freq: u32)
    requires
        freq > 0,
    ensures
        effect(mem, half_duty_ops(freq))[reg(Block::Pwm, RNG1)] == PWM_CLOCK_HZ / freq,
        effect(mem, half_duty_ops(freq))[reg(Block::Pwm, DAT1)] == (PWM_CLOCK_HZ / freq) / 2,
        effect(mem, half_duty_ops(freq))[reg(Block::Pwm, CTL)] == CTL_ENABLE,
{
    let a = wr(Block::Pwm, CTL, 0);
    let b = wr(Block::Pwm, RNG1, PWM_CLOCK_HZ / freq);
    let c = wr(Block::Pwm, DAT1, (PWM_CLOCK_HZ / freq) / 2);
    let d = wr(Block::Pwm, CTL, CTL_ENABLE);
    let e = Seq::<RegOp>::empty();
    assert(half_duty_ops(freq) =~= e.push(a).push(b).push(c).push(d));
    lemma_effect_empty(mem);
    lemma_effect_push(mem, e, a);
    lemma_effect_push(mem, e.push(a), b);
    lemma_effect_push(mem, e.push(a).push(b), c);
    lemma_effect_push(mem, e.push(a).push(b).push(c), d);
    assert(reg(Block::Pwm, RNG1) != reg(Block::Pwm, CTL));
    assert(reg(Block::Pwm, DAT1) != reg(Block::Pwm, CTL));
    assert(reg(Block::Pwm, DAT1) != reg(Block::Pwm, RNG1));
}

} // verus!
