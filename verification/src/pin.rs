//! Arduino-style pins whose number is a type parameter.
use crate::adc::ADC;
use crate::gpio::{bank_pin, fsel_pin, pin_bit, read_op, write_op, Mode, GPIO};
use crate::mmio::{rd, reg, wait_set, wr, Block, RegOp};
use vstd::prelude::*;

verus! {

/// Digital pin `P`.
pub struct DigitalPin<const P: usize>;

impl<const P: usize> DigitalPin<P> {
    /// Configure the pin's function.
    pub fn set_mode(mode: Mode) -> (ops: Vec<RegOp>)
        requires
            fsel_pin(P),
        ensures
            ops@ == seq![
                RegOp::Modify {
                    reg: reg(Block::Gpio, crate::gpio::fsel_offset(P)),
                    clear: 7u32 << crate::gpio::fsel_shift(P),
                    set: mode.code() << crate::gpio::fsel_shift(P),
                },
            ],
    {
        GPIO::set_mode(P, mode)
    }

    /// Drive the pin high.
    pub fn high() -> (ops: Vec<RegOp>)
        requires
            bank_pin(P),
        ensures
            ops@ == seq![write_op(P, true)],
    {
        GPIO::write(P, true)
    }

    /// Drive the pin low.
    pub fn low() -> (ops: Vec<RegOp>)
        requires
            bank_pin(P),
        ensures
            ops@ == seq![write_op(P, false)],
    {
        GPIO::write(P, false)
    }

    /// Drive the pin to the opposite of the level found in `lev`, the word
    /// that [`DigitalPin::read`] read.
    pub fn toggle(lev: u32) -> (ops: Vec<RegOp>)
        requires
            bank_pin(P),
        ensures
            ops@ == seq![write_op(P, !(lev & pin_bit(P) != 0))],
    {
        if GPIO::level(P, lev) {
            Self::low()
        } else {
            Self::high()
        }
    }

    /// Read the pin's level register; decode with [`DigitalPin::level`].
    pub fn read() -> (ops: Vec<RegOp>)
        requires
            bank_pin(P),
        ensures
            ops@ == seq![read_op(P)],
    {
        GPIO::read(P)
    }

    /// The pin's level in a level-register word.
    pub fn level(lev: u32) -> (high: bool)
        ensures
            high == (lev & pin_bit(P) != 0),
    {
        GPIO::level(P, lev)
    }
}

/// Analog input channel `CH`.
pub struct AnalogPin<const CH: u8>;

impl<const CH: u8> AnalogPin<CH> {
    /// One conversion on the channel; decode with [`AnalogPin::value`].
    pub fn read() -> (ops: Vec<RegOp>)
        ensures
            ops@ == seq![
                wr(Block::Adc, crate::adc::CS, 0x100u32 | (1u32 << (((CH & 7) + 1) as u32))),
                wait_set(Block::Adc, crate::adc::CS, 0x1_0000),
                rd(Block::Adc, crate::adc::RESULT),
            ],
    {
        ADC::read(CH)
    }

    /// The 12-bit sample in a result word.
    pub fn value(result: u32) -> (v: u16)
        ensures
            v == result & 0xFFF,
    {
        ADC::sample(result) as u16
    }
}

} // verus!
