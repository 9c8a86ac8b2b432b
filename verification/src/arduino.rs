//! Arduino-style helpers: pin constants, timing, tone, bit-banged shift
//! registers, pulse measurement, GPIO interrupt handlers, a pseudo-random
//! generator and integer/bit helpers.
use crate::delay::{self, ticks_between, SYS_TIMER_CLO};
use crate::gpio::{
    bank_offset, bank_pin, bank_reg, bit_of, detach_ops, pin_bit, read_op, write_op, Edge, Mode,
    GPEDS0, GPFEN0, GPIO, GPREN0,
};
use crate::mmio::{Block, Reg, RegOp, rd, repeat};
use crate::pwm::{half_duty_ops, DAT1, PWM};
use vstd::prelude::*;

verus! {

pub const INPUT: Mode = Mode::Input;

pub const OUTPUT: Mode = Mode::Output;

/// Same function code as [`INPUT`]; the pull-up is a separate step.
pub const INPUT_PULLUP: Mode = Mode::Input;

pub const HIGH: bool = true;

pub const LOW: bool = false;

pub const LSBFIRST: bool = false;

pub const MSBFIRST: bool = true;

/// Read the system timer; convert with [`millis_value`] or
/// [`micros_value`].
pub fn millis() -> (ops: Vec<RegOp>)
    ensures
        ops@ == seq![rd(Block::SysTimer, SYS_TIMER_CLO)],
{
    delay::micros()
}

/// Milliseconds since boot from the system timer word `clo`.
pub fn millis_value(clo: u32) -> (ms: u64)
    ensures
        ms == clo / 1000,
{
    delay::micros_value(clo) / 1000
}

/// Read the system timer; convert with [`micros_value`].
pub fn micros() -> (ops: Vec<RegOp>)
    ensures
        ops@ == seq![rd(Block::SysTimer, SYS_TIMER_CLO)],
{
    delay::micros()
}

/// Microseconds since boot from the system timer word `clo`.
pub fn micros_value(clo: u32) -> (us: u64)
    ensures
        us == clo,
{
    delay::micros_value(clo)
}

/// Blocking delay in milliseconds.
pub fn delay(ms: u32) -> (ops: Vec<RegOp>)
    ensures
        ops@ == repeat(seq![RegOp::DelayUs { us: 1000 }], ms as nat),
{
    delay::ms(ms)
}

/// Blocking delay in microseconds.
pub fn delay_microseconds(us: u32) -> (ops: Vec<RegOp>)
    ensures
        ops@ == seq![RegOp::DelayUs { us: us }],
{
    delay::us(us)
}

/// Start a continuous square wave of `freq_hz` on the PWM channel: the
/// channel is (re)programmed with the range for `freq_hz` and a 50 % duty
/// cycle, whether or not a tone was playing.  `tone_active` is the flag
/// shared by [`tone`] and [`no_tone`].
pub fn tone(tone_active: &mut bool, _pin: usize, freq_hz: u32) -> (ops: Vec<RegOp>)
    requires
        freq_hz > 0,
    ensures
        *final(tone_active),
        ops@ == half_duty_ops(freq_hz),
{
    *tone_active = true;
    PWM::half_duty(freq_hz)
}

/// Stop the square wave: if one is playing, its duty cycle drops to 0 %.
pub fn no_tone(tone_active: &mut bool, _pin: usize) -> (ops: Vec<RegOp>)
    ensures
        !*final(tone_active),
        ops@ == if *old(tone_active) {
            seq![crate::mmio::wr(Block::Pwm, DAT1, 0)]
        } else {
            Seq::empty()
        },
{
    let was = *tone_active;
    *tone_active = false;
    if was {
        PWM::set_duty(0)
    } else {
        Vec::new()
    }
}

/// Position of the `i`-th transferred bit inside the byte.
pub open spec fn bit_pos(order: bool, i: int) -> u8 {
    if order == LSBFIRST {
        i as u8
    } else {
        (7 - i) as u8
    }
}

/// The byte assembled from the first `n` sampled bits.
pub open spec fn assemble(bits: Seq<bool>, order: bool, n: nat) -> u8
    decreases n,
{
    if n == 0 {
        0
    } else {
        assemble(bits, order, (n - 1) as nat) | if bits[n - 1] {
            1u8 << bit_pos(order, n - 1)
        } else {
            0u8
        }
    }
}

/// The `i`-th bit that [`shift_out`] puts on the data line.
pub open spec fn out_bit(value: u8, order: bool, i: int) -> bool {
    (value >> bit_pos(order, i)) & 1 != 0
}

/// One clock period of [`shift_in`]: raise the clock, sample the data pin,
/// lower the clock.
pub open spec fn shift_in_step(data_pin: usize, clock_pin: usize) -> Seq<RegOp> {
    seq![
        write_op(clock_pin, HIGH),
        RegOp::Spin { cycles: 1 },
        read_op(data_pin),
        write_op(clock_pin, LOW),
        RegOp::Spin { cycles: 1 },
    ]
}

/// The first `n` clock periods of [`shift_out`].
pub open spec fn shift_out_steps(data_pin: usize, clock_pin: usize, value: u8, order: bool, n: nat) -> Seq<RegOp>
    decreases n,
{
    if n == 0 {
        Seq::empty()
    } else {
        shift_out_steps(data_pin, clock_pin, value, order, (n - 1) as nat) + seq![
            write_op(data_pin, out_bit(value, order, n - 1)),
            write_op(clock_pin, HIGH),
            RegOp::Spin { cycles: 1 },
            write_op(clock_pin, LOW),
            RegOp::Spin { cycles: 1 },
        ]
    }
}

/// The data-pin levels in the eight words that [`shift_in`] reads.
pub open spec fn sampled_bits(levels: Seq<u32>, data_pin: usize) -> Seq<bool> {
    Seq::new(8, |i: int| levels[i] & pin_bit(data_pin) != 0)
}

/// Bit-banged read of one byte: eight clock periods, each sampling the
/// data pin once.  Decode the eight level words with [`shift_in_value`].
pub fn shift_in<const ORDER: bool>(data_pin: usize, clock_pin: usize) -> (ops: Vec<RegOp>)
    requires
        bank_pin(data_pin),
        bank_pin(clock_pin),
    ensures
        ops@ == repeat(shift_in_step(data_pin, clock_pin), 8),
{
    let mut ops: Vec<RegOp> = Vec::new();
    let mut i: u32 = 0;
    while i < 8
        invariant
            i <= 8,
            bank_pin(data_pin),
            bank_pin(clock_pin),
            ops@ == repeat(shift_in_step(data_pin, clock_pin), i as nat),
        decreases 8 - i,
    {
        ops.push(crate::gpio::pin_write(clock_pin, HIGH));
        ops.push(RegOp::Spin { cycles: 1 });
        ops.push(crate::gpio::pin_read(data_pin));
        ops.push(crate::gpio::pin_write(clock_pin, LOW));
        ops.push(RegOp::Spin { cycles: 1 });
        assert(ops@ =~= repeat(shift_in_step(data_pin, clock_pin), (i + 1) as nat));
        i = i + 1;
    }
    ops
}

/// The byte read by [`shift_in`], from the eight level words it read.
pub fn shift_in_value<const ORDER: bool>(data_pin: usize, levels: &[u32]) -> (value: u8)
    requires
        levels@.len() == 8,
    ensures
        value == assemble(sampled_bits(levels@, data_pin), ORDER, 8),
{
    let ghost bits = sampled_bits(levels@, data_pin);
    let mut value: u8 = 0;
    let mut i: u8 = 0;
    while i < 8
        invariant
            i <= 8,
            levels@.len() == 8,
            bits == sampled_bits(levels@, data_pin),
            value == assemble(bits, ORDER, i as nat),
        decreases 8 - i,
    {
        let high = GPIO::level(data_pin, levels[i as usize]);
        let pos: u8 = if ORDER == LSBFIRST { i } else { 7 - i };
        assert(pos == bit_pos(ORDER, i as int));
        if high {
            value = value | (1u8 << pos);
        } else {
            value = value | 0u8;
        }
        i = i + 1;
    }
    value
}

/// Bit-banged write of one byte: for each bit, set the data pin, then pulse
/// the clock.
pub fn shift_out<const ORDER: bool>(data_pin: usize, clock_pin: usize, value: u8) -> (ops: Vec<RegOp>)
    requires
        bank_pin(data_pin),
        bank_pin(clock_pin),
    ensures
        ops@ == shift_out_steps(data_pin, clock_pin, value, ORDER, 8),
{
    let mut ops: Vec<RegOp> = Vec::new();
    let mut i: u8 = 0;
    while i < 8
        invariant
            i <= 8,
            bank_pin(data_pin),
            bank_pin(clock_pin),
            ops@ == shift_out_steps(data_pin, clock_pin, value, ORDER, i as nat),
        decreases 8 - i,
    {
        let bit_val: u8 = if ORDER == LSBFIRST {
            (value >> i) & 1
        } else {
            (value >> (7 - i)) & 1
        };
        assert(out_bit(value, ORDER, i as int) == (bit_val != 0));
        ops.push(crate::gpio::pin_write(data_pin, bit_val != 0));
        ops.push(crate::gpio::pin_write(clock_pin, HIGH));
        ops.push(RegOp::Spin { cycles: 1 });
        ops.push(crate::gpio::pin_write(clock_pin, LOW));
        ops.push(RegOp::Spin { cycles: 1 });
        assert(ops@ =~= shift_out_steps(data_pin, clock_pin, value, ORDER, (i + 1) as nat));
        i = i + 1;
    }
    ops
}

proof fn lemma_assemble_step(value: u8, order: bool, n: nat, m: u8, m2: u8)
    requires
        1 <= n <= 8,
        assemble(Seq::new(8, |i: int| out_bit(value, order, i)), order, (n - 1) as nat) == value & m,
        m2 == m | (1u8 << bit_pos(order, n - 1)),
    ensures
        assemble(Seq::new(8, |i: int| out_bit(value, order, i)), order, n) == value & m2,
{
    let bits = Seq::new(8, |i: int| out_bit(value, order, i));
    let k = bit_pos(order, n - 1);
    assert(k < 8);
    assert(bits[n - 1] == ((value >> k) & 1 != 0));
    assert(((value & m) | if (value >> k) & 1 != 0 { 1u8 << k } else { 0u8 }) == value & (m | (1u8 << k)))
        by (bit_vector)
        requires
            k < 8,
    ;
}

/// A byte shifted out and sampled back in the same bit order is the byte
/// itself.
pub proof fn lemma_shift_roundtrip(value: u8, order: bool)
    ensures
        assemble(Seq::new(8, |i: int| out_bit(value, order, i)), order, 8) == value,
{
    let bits = Seq::new(8, |i: int| out_bit(value, order, i));
    assert(assemble(bits, order, 0) == value & 0u8) by {
        assert(value & 0u8 == 0u8) by (bit_vector);
    }
    if order == LSBFIRST {
        assert({
            &&& 1u8 == 0u8 | (1u8 << 0u8)
            &&& 3u8 == 1u8 | (1u8 << 1u8)
            &&& 7u8 == 3u8 | (1u8 << 2u8)
            &&& 15u8 == 7u8 | (1u8 << 3u8)
            &&& 31u8 == 15u8 | (1u8 << 4u8)
            &&& 63u8 == 31u8 | (1u8 << 5u8)
            &&& 127u8 == 63u8 | (1u8 << 6u8)
            &&& 255u8 == 127u8 | (1u8 << 7u8)
        }) by (bit_vector);
        lemma_assemble_step(value, order, 1, 0u8, 1u8);
        lemma_assemble_step(value, order, 2, 1u8, 3u8);
        lemma_assemble_step(value, order, 3, 3u8, 7u8);
        lemma_assemble_step(value, order, 4, 7u8, 15u8);
        lemma_assemble_step(value, order, 5, 15u8, 31u8);
        lemma_assemble_step(value, order, 6, 31u8, 63u8);
        lemma_assemble_step(value, order, 7, 63u8, 127u8);
        lemma_assemble_step(value, order, 8, 127u8, 255u8);
    } else {
        assert({
            &&& 0x80u8 == 0u8 | (1u8 << 7u8)
            &&& 0xC0u8 == 0x80u8 | (1u8 << 6u8)
            &&& 0xE0u8 == 0xC0u8 | (1u8 << 5u8)
            &&& 0xF0u8 == 0xE0u8 | (1u8 << 4u8)
            &&& 0xF8u8 == 0xF0u8 | (1u8 << 3u8)
            &&& 0xFCu8 == 0xF8u8 | (1u8 << 2u8)
            &&& 0xFEu8 == 0xFCu8 | (1u8 << 1u8)
            &&& 0xFFu8 == 0xFEu8 | (1u8 << 0u8)
        }) by (bit_vector);
        lemma_assemble_step(value, order, 1, 0u8, 0x80u8);
        lemma_assemble_step(value, order, 2, 0x80u8, 0xC0u8);
        lemma_assemble_step(value, order, 3, 0xC0u8, 0xE0u8);
        lemma_assemble_step(value, order, 4, 0xE0u8, 0xF0u8);
        lemma_assemble_step(value, order, 5, 0xF0u8, 0xF8u8);
        lemma_assemble_step(value, order, 6, 0xF8u8, 0xFCu8);
        lemma_assemble_step(value, order, 7, 0xFCu8, 0xFEu8);
        lemma_assemble_step(value, order, 8, 0xFEu8, 0xFFu8);
    }
    assert(value & 0xFFu8 == value) by (bit_vector);
}

/// Where a pulse measurement stands.
#[derive(Clone, Copy, Debug, PartialEq, Eq, Structural)]
pub enum PulsePhase {
    /// Waiting for a pulse already in progress to end.
    WaitIdle,
    /// Waiting for the pulse to begin.
    WaitStart,
    /// Timing the pulse.
    Measure,
    /// A result has been returned.
    Finished,
}

/// Outcome of one sample of a pulse measurement.
#[derive(Clone, Copy, Debug, PartialEq, Eq, Structural)]
pub enum PulseStep {
    /// Take another sample.
    Continue,
    /// Length of the pulse in microseconds, 0 on timeout.
    Done(u32),
}

/// Measurement of one pulse of `level` on `pin` (see [`pulse_in`]).  Each
/// sample is the pin's level word followed by the system timer word,
/// both read by the program of [`PulseIn::sample`].  Elapsed times are the
/// counter's advance modulo 2^32, so a wrap of the counter is accounted for.
pub struct PulseIn {
    pub pin: usize,
    pub level: bool,
    pub timeout_us: u32,
    pub start_time: u64,
    pub pulse_start: u64,
    pub phase: PulsePhase,
}

/// The state and result after one sample, with the pin at `high` and the
/// counter at `now`.
pub open spec fn pulse_next(m: PulseIn, high: bool, now: u64) -> (PulseIn, PulseStep) {
    match m.phase {
        PulsePhase::WaitIdle => if high == m.level {
            if ticks_between(now, m.start_time) > m.timeout_us {
                (PulseIn { phase: PulsePhase::Finished, ..m }, PulseStep::Done(0))
            } else {
                (m, PulseStep::Continue)
            }
        } else {
            (PulseIn { phase: PulsePhase::WaitStart, ..m }, PulseStep::Continue)
        },
        PulsePhase::WaitStart => if high != m.level {
            if ticks_between(now, m.start_time) > m.timeout_us {
                (PulseIn { phase: PulsePhase::Finished, ..m }, PulseStep::Done(0))
            } else {
                (m, PulseStep::Continue)
            }
        } else {
            (PulseIn { phase: PulsePhase::Measure, pulse_start: now, ..m }, PulseStep::Continue)
        },
        PulsePhase::Measure => if high == m.level {
            if ticks_between(now, m.pulse_start) > m.timeout_us {
                (PulseIn { phase: PulsePhase::Finished, ..m }, PulseStep::Done(0))
            } else {
                (m, PulseStep::Continue)
            }
        } else {
            (
                PulseIn { phase: PulsePhase::Finished, ..m },
                PulseStep::Done(ticks_between(now, m.pulse_start)),
            )
        },
        PulsePhase::Finished => (m, PulseStep::Done(0)),
    }
}

/// Begin measuring a pulse of `level` on `pin`, the timeout counted from
/// the system timer word `clo` read now.  Feed samples to
/// [`PulseIn::step`] until it reports [`PulseStep::Done`].
pub fn pulse_in(pin: usize, level: bool, timeout_us: u32, clo: u32) -> (m: PulseIn)
    requires
        bank_pin(pin),
    ensures
        m == (PulseIn {
            pin,
            level,
            timeout_us,
            start_time: clo as u64,
            pulse_start: 0,
            phase: PulsePhase::WaitIdle,
        }),
{
    PulseIn { pin, level, timeout_us, start_time: clo as u64, pulse_start: 0, phase: PulsePhase::WaitIdle }
}

impl PulseIn {
    /// One sample: the level register of the pin, then the system timer.
    pub fn sample(&self) -> (ops: Vec<RegOp>)
        requires
            bank_pin(self.pin),
        ensures
            ops@ == seq![read_op(self.pin), rd(Block::SysTimer, SYS_TIMER_CLO)],
    {
        vec![
            crate::gpio::pin_read(self.pin),
            RegOp::Read { reg: Reg { block: Block::SysTimer, offset: SYS_TIMER_CLO } },
        ]
    }

    /// Advance on one sample: `lev` is the pin's level word and `clo` the
    /// timer word read after it.
    pub fn step(&mut self, lev: u32, clo: u32) -> (r: PulseStep)
        requires
            old(self).phase != PulsePhase::Finished,
        ensures
            (*final(self), r) == pulse_next(*old(self), lev & pin_bit(old(self).pin) != 0, clo as u64),
    {
        let high = GPIO::level(self.pin, lev);
        let now = clo as u64;
        match self.phase {
            PulsePhase::WaitIdle => {
                if high == self.level {
                    if (now as u32).wrapping_sub(self.start_time as u32) > self.timeout_us {
                        self.phase = PulsePhase::Finished;
                        PulseStep::Done(0)
                    } else {
                        PulseStep::Continue
                    }
                } else {
                    self.phase = PulsePhase::WaitStart;
                    PulseStep::Continue
                }
            },
            PulsePhase::WaitStart => {
                if high != self.level {
                    if (now as u32).wrapping_sub(self.start_time as u32) > self.timeout_us {
                        self.phase = PulsePhase::Finished;
                        PulseStep::Done(0)
                    } else {
                        PulseStep::Continue
                    }
                } else {
                    self.pulse_start = now;
                    self.phase = PulsePhase::Measure;
                    PulseStep::Continue
                }
            },
            PulsePhase::Measure => {
                if high == self.level {
                    if (now as u32).wrapping_sub(self.pulse_start as u32) > self.timeout_us {
                        self.phase = PulsePhase::Finished;
                        PulseStep::Done(0)
                    } else {
                        PulseStep::Continue
                    }
                } else {
                    self.phase = PulsePhase::Finished;
                    PulseStep::Done((now as u32).wrapping_sub(self.pulse_start as u32))
                }
            },
            PulsePhase::Finished => PulseStep::Done(0),
        }
    }
}

/// Once a measurement has reported a result it stays finished; until then
/// it keeps the pin, level, timeout and start time it was begun with.
pub proof fn lemma_pulse_next_keeps(m: PulseIn, high: bool, now: u64)
    ensures
        pulse_next(m, high, now).0.pin == m.pin,
        pulse_next(m, high, now).0.level == m.level,
        pulse_next(m, high, now).0.timeout_us == m.timeout_us,
        pulse_next(m, high, now).0.start_time == m.start_time,
        (pulse_next(m, high, now).1 is Done) <==> (pulse_next(m, high, now).0.phase == PulsePhase::Finished),
{
}

/// A timeout always ends the measurement with 0.
pub proof fn lemma_pulse_timeout(m: PulseIn, high: bool, now: u64)
    requires
        m.phase == PulsePhase::WaitIdle || m.phase == PulsePhase::WaitStart,
        ticks_between(now, m.start_time) > m.timeout_us,
        (m.phase == PulsePhase::WaitIdle) == (high == m.level),
    ensures
        pulse_next(m, high, now).1 == PulseStep::Done(0),
{
}

/// A pulse that lasts past the timeout also ends the measurement with 0.
pub proof fn lemma_pulse_overlong(m: PulseIn, now: u64)
    requires
        m.phase == PulsePhase::Measure,
        ticks_between(now, m.pulse_start) > m.timeout_us,
    ensures
        pulse_next(m, m.level, now).1 == PulseStep::Done(0),
{
}

/// Number of GPIO pins that can carry an interrupt handler.
pub const ISR_SLOTS: usize = 54;

/// Handlers attached to GPIO pins, one slot per pin.
pub struct IsrTable<H> {
    slots: Vec<Option<H>>,
}

impl<H> View for IsrTable<H> {
    type V = Seq<Option<H>>;

    closed spec fn view(&self) -> Seq<Option<H>> {
        self.slots@
    }
}

impl<H> IsrTable<H> {
    /// A table with no handler attached.
    pub fn new() -> (t: Self)
        ensures
            t@ == Seq::new(ISR_SLOTS as nat, |i: int| None::<H>),
    {
        let mut slots: Vec<Option<H>> = Vec::new();
        let mut i: usize = 0;
        while i < ISR_SLOTS
            invariant
                i <= ISR_SLOTS,
                slots@ == Seq::new(i as nat, |k: int| None::<H>),
            decreases ISR_SLOTS - i,
        {
            slots.push(None);
            i = i + 1;
            assert(slots@ =~= Seq::new(i as nat, |k: int| None::<H>));
        }
        IsrTable { slots }
    }
}

/// Attach `handler` to `pin` and make the pin's event detection react to
/// the edges that `mode` names (rising, falling or both).
pub fn attach_interrupt<H>(table: &mut IsrTable<H>, pin: usize, mode: Edge, handler: H) -> (ops: Vec<RegOp>)
    requires
        pin < old(table)@.len(),
        old(table)@.len() == ISR_SLOTS,
    ensures
        final(table)@ == old(table)@.update(pin as int, Some(handler)),
        ops@ == crate::gpio::edge_ops(pin, mode),
{
    table.slots.set(pin, Some(handler));
    GPIO::set_edge(pin, mode)
}

/// Remove the handler of `pin` and stop the pin from raising events.
pub fn detach_interrupt<H>(table: &mut IsrTable<H>, pin: usize) -> (ops: Vec<RegOp>)
    requires
        pin < old(table)@.len(),
        old(table)@.len() == ISR_SLOTS,
    ensures
        final(table)@ == old(table)@.update(pin as int, None),
        ops@ == detach_ops(pin),
{
    table.slots.set(pin, None);
    vec![
        RegOp::Modify { reg: bank_reg(GPREN0, pin), clear: bit_of(pin), set: 0 },
        RegOp::Modify { reg: bank_reg(GPFEN0, pin), clear: bit_of(pin), set: 0 },
    ]
}

/// Dispatch a GPIO interrupt of `pin`: the handler to call, if one is
/// attached, and the program that acknowledges the event.
pub fn handle_gpio_isr<H: Copy>(table: &IsrTable<H>, pin: usize) -> (r: (Option<H>, Vec<RegOp>))
    requires
        pin < table@.len(),
        table@.len() == ISR_SLOTS,
    ensures
        r.0 == table@[pin as int],
        r.1@ == seq![crate::mmio::wr(Block::Gpio, bank_offset(GPEDS0, pin), pin_bit(pin))],
{
    let h = table.slots[pin];
    (h, GPIO::clear_interrupt(pin))
}

/// An attached handler is the one dispatched for its pin; a detached pin
/// dispatches nothing; other pins keep their handlers.
pub proof fn lemma_attach_dispatch<H>(t: Seq<Option<H>>, pin: int, other: int, h: H)
    requires
        0 <= pin < t.len(),
        0 <= other < t.len(),
        other != pin,
    ensures
        t.update(pin, Some(h))[pin] == Some(h),
        t.update(pin, None)[pin] == None::<H>,
        t.update(pin, Some(h))[other] == t[other],
        t.update(pin, None)[other] == t[other],
{
}

/// The state that follows `seed` in the linear congruential generator.
pub open spec fn lcg_next(seed: u32) -> u32 {
    vstd::wrapping::u32_specs::wrapping_add(
        vstd::wrapping::u32_specs::wrapping_mul(seed, 1664525),
        1013904223,
    )
}

/// Seed the pseudo-random generator whose state is `state`.
pub fn random_seed(state: &mut u32, seed: u32)
    ensures
        *final(state) == seed,
{
    *state = seed;
}

/// Advance the generator and return a 31-bit value.
pub fn random_u32(state: &mut u32) -> (r: u32)
    ensures
        *final(state) == lcg_next(*old(state)),
        r == lcg_next(*old(state)) & 0x7FFF_FFFF,
{
    *state = state.wrapping_mul(1664525).wrapping_add(1013904223);
    *state & 0x7FFF_FFFF
}

/// A pseudo-random value in `[0, max)`.
pub fn random(state: &mut u32, max: u32) -> (r: u32)
    requires
        max > 0,
    ensures
        *final(state) == lcg_next(*old(state)),
        r == (lcg_next(*old(state)) & 0x7FFF_FFFF) % max,
        r < max,
{
    random_u32(state) % max
}

/// A pseudo-random value in `[min, max)`.
pub fn random_range(state: &mut u32, min: u32, max: u32) -> (r: u32)
    requires
        min < max,
    ensures
        *final(state) == lcg_next(*old(state)),
        r == min + (lcg_next(*old(state)) & 0x7FFF_FFFF) % ((max - min) as u32),
        min <= r < max,
{
    min + random(state, max - min)
}

/// The generator is the linear congruential map
/// `seed * 1664525 + 1013904223` taken modulo 2^32, for every seed.
pub proof fn lemma_lcg_affine(seed: u32)
    ensures
        lcg_next(seed) as int == (seed as int * 1664525 + 1013904223) % 0x1_0000_0000,
{
    let p: int = seed as int * 1664525;
    let m: int = p % 0x1_0000_0000;
    vstd::arithmetic::div_mod::lemma_add_mod_noop_right(1013904223, p, 0x1_0000_0000);
    assert(0 <= m < 0x1_0000_0000);
    assert((m + 1013904223) % 0x1_0000_0000 == if m + 1013904223 > u32::MAX {
        m + 1013904223 - 0x1_0000_0000
    } else {
        m + 1013904223
    });
}

/// Every value of [`random_u32`] fits in 31 bits.
pub proof fn lemma_random_u32_bound(seed: u32)
    ensures
        lcg_next(seed) & 0x7FFF_FFFF <= 0x7FFF_FFFF,
{
    let x = lcg_next(seed);
    assert(x & 0x7FFF_FFFF <= 0x7FFF_FFFF) by (bit_vector);
}

/// Clamp `x` to `[a, b]`: `a` below it, `b` above it.
pub fn constrain(x: i32, a: i32, b: i32) -> (r: i32)
    ensures
        r == if x < a {
            a
        } else if x > b {
            b
        } else {
            x
        },
{
    if x < a {
        a
    } else if x > b {
        b
    } else {
        x
    }
}

/// Quotient of `x` by `d` rounded toward zero, as integer division does.
pub open spec fn trunc_div(x: int, d: int) -> int {
    if x == 0 {
        0
    } else if x > 0 && d > 0 {
        x / d
    } else if x < 0 && d < 0 {
        (x * -1) / (d * -1)
    } else if x < 0 {
        ((x * -1) / d) * -1
    } else {
        (x / (d * -1)) * -1
    }
}

/// `x` carried linearly from `[in_min, in_max]` onto `[out_min, out_max]`.
pub open spec fn mapped(x: int, in_min: int, in_max: int, out_min: int, out_max: int) -> int {
    trunc_div((x - in_min) * (out_max - out_min), in_max - in_min) + out_min
}

pub open spec fn fits_i32(v: int) -> bool {
    i32::MIN <= v <= i32::MAX
}

/// Re-map `x` from the range `[in_min, in_max]` to `[out_min, out_max]`
/// in 32-bit integer arithmetic (the quotient rounds toward zero).  Inputs
/// whose intermediate values overflow 32 bits, or an empty input range, are
/// refused by the precondition.
pub fn map_range(x: i32, in_min: i32, in_max: i32, out_min: i32, out_max: i32) -> (r: i32)
    requires
        in_max != in_min,
        fits_i32(x - in_min),
        fits_i32(out_max - out_min),
        fits_i32(in_max - in_min),
        fits_i32((x - in_min) * (out_max - out_min)),
        fits_i32(trunc_div((x - in_min) * (out_max - out_min), in_max - in_min)),
        fits_i32(mapped(x as int, in_min as int, in_max as int, out_min as int, out_max as int)),
    ensures
        r == mapped(x as int, in_min as int, in_max as int, out_min as int, out_max as int),
{
    let num = (x - in_min) * (out_max - out_min);
    let den = in_max - in_min;
    let q = match num.checked_div(den) {
        Some(q) => q,
        None => {
            assert(false);
            0
        },
    };
    q + out_min
}

/// The smaller of `a` and `b` (`b` when equal).
pub fn min(a: i32, b: i32) -> (r: i32)
    ensures
        r == if a < b { a } else { b },
{
    if a < b {
        a
    } else {
        b
    }
}

/// The larger of `a` and `b` (`b` when equal).
pub fn max(a: i32, b: i32) -> (r: i32)
    ensures
        r == if a > b { a } else { b },
{
    if a > b {
        a
    } else {
        b
    }
}

/// Set bit `n` of `x`.
pub fn bit_set(x: &mut u32, n: u32)
    requires
        n < 32,
    ensures
        *final(x) == *old(x) | (1u32 << n),
{
    *x = *x | (1u32 << n);
}

/// Clear bit `n` of `x`.
pub fn bit_clear(x: &mut u32, n: u32)
    requires
        n < 32,
    ensures
        *final(x) == *old(x) & !(1u32 << n),
{
    *x = *x & !(1u32 << n);
}

/// Bit `n` of `x`, as 0 or 1.
pub fn bit_read(x: u32, n: u32) -> (b: u32)
    requires
        n < 32,
    ensures
        b == (x >> n) & 1,
{
    (x >> n) & 1
}

/// Set bit `n` of `x` when `b` is non-zero, clear it otherwise.
pub fn bit_write(x: &mut u32, n: u32, b: u32)
    requires
        n < 32,
    ensures
        *final(x) == if b != 0 {
            *old(x) | (1u32 << n)
        } else {
            *old(x) & !(1u32 << n)
        },
{
    if b != 0 {
        bit_set(x, n)
    } else {
        bit_clear(x, n)
    }
}

/// Reading a bit back gives what was written to it, and writing one bit
/// leaves the others as they were.
pub proof fn lemma_bit_write_read(x: u32, n: u32, m: u32, b: u32)
    requires
        n < 32,
        m < 32,
    ensures
        ((if b != 0 { x | (1u32 << n) } else { x & !(1u32 << n) }) >> n) & 1 == if b != 0 { 1u32 } else { 0u32 },
        m != n ==> ((if b != 0 { x | (1u32 << n) } else { x & !(1u32 << n) }) >> m) & 1 == (x >> m) & 1,
{
    assert((((x | (1u32 << n)) >> n) & 1 == 1u32) && (((x & !(1u32 << n)) >> n) & 1 == 0u32)) by (bit_vector)
        requires
            n < 32,
    ;
    if m != n {
        assert((((x | (1u32 << n)) >> m) & 1 == (x >> m) & 1) && (((x & !(1u32 << n)) >> m) & 1 == (x >> m) & 1))
            by (bit_vector)
            requires
                n < 32,
                m < 32,
                m != n,
        ;
    }
}

/// A constrained value lies in the range whenever the range is not empty.
pub proof fn lemma_constrain_in_range(x: i32, a: i32, b: i32)
    requires
        a <= b,
    ensures
        a <= (if x < a { a } else if x > b { b } else { x }) <= b,
{
}

} // verus!
