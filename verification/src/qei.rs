//! Quadrature encoder decoding on two GPIO pins.
use crate::gpio::{bank_pin, fsel_op, pin_bit, read_op, Mode, GPIO};
use crate::mmio::RegOp;
use vstd::prelude::*;

verus! {

/// Pins whose word exists in the encoder's view of the GPIO block.
pub const ENCODER_PINS: usize = 54;

/// Count change for a transition, given as `(previous state << 2) | state`
/// with each state `a | (b << 1)`: +1 one step forward, -1 one step back,
/// 0 for no change or a skipped step.
pub open spec fn quad_delta(change: int) -> int {
    if change == 0b0001 || change == 0b0111 || change == 0b1110 || change == 0b1000 {
        1
    } else if change == 0b0010 || change == 0b1011 || change == 0b1101 || change == 0b0100 {
        -1
    } else {
        0
    }
}

/// The 2-bit state of the two channels.
pub open spec fn quad_state(a: bool, b: bool) -> int {
    (if a { 1int } else { 0int }) + (if b { 2int } else { 0int })
}

/// An encoder on channels `pin_a` and `pin_b`.
pub struct QuadratureEncoder {
    pin_a: usize,
    pin_b: usize,
    last_state: u8,
    count: i32,
}

impl QuadratureEncoder {
    pub closed spec fn channel_a(&self) -> usize {
        self.pin_a
    }

    pub closed spec fn channel_b(&self) -> usize {
        self.pin_b
    }

    /// The last sampled 2-bit state.
    pub closed spec fn state(&self) -> u8 {
        self.last_state
    }

    /// The position count.
    pub closed spec fn position(&self) -> i32 {
        self.count
    }

    /// An encoder at count 0 in state 0, and the program that makes both
    /// pins inputs.
    pub fn new(pin_a: usize, pin_b: usize) -> (r: (Self, Vec<RegOp>))
        requires
            pin_a < ENCODER_PINS,
            pin_b < ENCODER_PINS,
        ensures
            r.0.channel_a() == pin_a,
            r.0.channel_b() == pin_b,
            r.0.state() == 0,
            r.0.position() == 0,
            r.1@ == seq![fsel_op(pin_a, Mode::Input), fsel_op(pin_b, Mode::Input)],
    {
        let mut ops = GPIO::set_mode(pin_a, Mode::Input);
        let mut b = GPIO::set_mode(pin_b, Mode::Input);
        ops.append(&mut b);
        (QuadratureEncoder { pin_a, pin_b, last_state: 0, count: 0 }, ops)
    }

    /// Read the level registers of both channels.
    pub fn sample(&self) -> (ops: Vec<RegOp>)
        requires
            bank_pin(self.channel_a()),
            bank_pin(self.channel_b()),
        ensures
            ops@ == seq![read_op(self.channel_a()), read_op(self.channel_b())],
    {
        vec![crate::gpio::pin_read(self.pin_a), crate::gpio::pin_read(self.pin_b)]
    }

    /// Account for one sample: `lev_a` and `lev_b` are the level words read
    /// by [`QuadratureEncoder::sample`].
    pub fn update(&mut self, lev_a: u32, lev_b: u32)
        requires
            old(self).state() < 4,
            i32::MIN <= old(self).position() + quad_delta(
                old(self).state() * 4 + quad_state(
                    lev_a & pin_bit(old(self).channel_a()) != 0,
                    lev_b & pin_bit(old(self).channel_b()) != 0,
                ),
            ) <= i32::MAX,
        ensures
            final(self).channel_a() == old(self).channel_a(),
            final(self).channel_b() == old(self).channel_b(),
            final(self).state() == quad_state(
                lev_a & pin_bit(old(self).channel_a()) != 0,
                lev_b & pin_bit(old(self).channel_b()) != 0,
            ),
            final(self).state() < 4,
            final(self).position() == old(self).position() + quad_delta(
                old(self).state() * 4 + final(self).state(),
            ),
    {
        let a = GPIO::level(self.pin_a, lev_a);
        let b = GPIO::level(self.pin_b, lev_b);
        let state: u8 = (if a { 1u8 } else { 0u8 }) + (if b { 2u8 } else { 0u8 });
        let change: u8 = self.last_state * 4 + state;
        if change == 0b0001 || change == 0b0111 || change == 0b1110 || change == 0b1000 {
            self.count = self.count + 1;
        } else if change == 0b0010 || change == 0b1011 || change == 0b1101 || change == 0b0100 {
            self.count = self.count - 1;
        }
        self.last_state = state;
    }

    /// The position count.
    pub fn count(&self) -> (c: i32)
        ensures
            c == self.position(),
    {
        self.count
    }
}

/// Position of a 2-bit channel state in the forward (Gray-code) cycle
/// 00, 01, 11, 10, with each state written `a | (b << 1)`.
pub open spec fn cycle_pos(s: int) -> int {
    if s == 0 {
        0
    } else if s == 1 {
        1
    } else if s == 3 {
        2
    } else {
        3
    }
}

/// Every single transition counts on its own: a step to the next state of
/// the forward cycle counts +1, a step to the previous state counts -1, and
/// no change or a skip over two positions counts 0.
pub proof fn lemma_step_counts(prev: int, cur: int)
    requires
        0 <= prev < 4,
        0 <= cur < 4,
    ensures
        quad_delta(prev * 4 + cur) == if cycle_pos(cur) == (cycle_pos(prev) + 1) % 4 {
            1int
        } else if cycle_pos(prev) == (cycle_pos(cur) + 1) % 4 {
            -1int
        } else {
            0int
        },
{
    assert(prev == 0 || prev == 1 || prev == 2 || prev == 3);
    assert(cur == 0 || cur == 1 || cur == 2 || cur == 3);
}

/// One full cycle of the channels forward (00, 01, 11, 10, 00) counts +4,
/// the same cycle backward counts -4, and a sample equal to the previous
/// one counts nothing.
pub proof fn lemma_full_cycles()
    ensures
        quad_delta(0int * 4 + 1) + quad_delta(1int * 4 + 3) + quad_delta(3int * 4 + 2) + quad_delta(2int * 4 + 0) == 4,
        quad_delta(0int * 4 + 2) + quad_delta(2int * 4 + 3) + quad_delta(3int * 4 + 1) + quad_delta(1int * 4 + 0) == -4,
        forall|s: int| 0 <= s < 4 ==> #[trigger] quad_delta(s * 4 + s) == 0,
{
}

} // verus!
