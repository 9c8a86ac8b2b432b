//! Ownership-style access to the peripherals, with pins typed by their mode.
use crate::gpio::{bank_pin, fsel_offset, fsel_pin, fsel_shift, pin_bit, write_op, Mode};
use crate::mmio::{reg, Block, RegOp};
use crate::uart::UART;
use core::marker::PhantomData;
use vstd::prelude::*;

verus! {

/// The peripherals a program owns.
pub struct Peripherals {
    pub gpio: GPIO,
    pub uart0: UART,
}

impl Peripherals {
    /// Hand out the peripherals.
    pub fn take() -> (p: Option<Self>)
        ensures
            p is Some,
    {
        Some(Peripherals { gpio: GPIO::new(), uart0: UART })
    }
}

/// Handle on the GPIO block.
pub struct GPIO {
    _private: (),
}

impl GPIO {
    pub fn new() -> Self {
        GPIO { _private: () }
    }

    /// Pin `pin`, in a mode not yet chosen.
    pub fn pin(&self, pin: u8) -> (p: Pin<Unknown>)
        ensures
            p.number() == pin,
    {
        Pin::new(pin)
    }
}

/// Mode marker: not configured by this handle.
pub struct Unknown;

/// Mode marker: input.
pub struct Input;

/// Mode marker: output.
pub struct Output;

/// Mode marker: alternate function.
pub struct Alternate;

/// A GPIO pin in mode `MODE`.
pub struct Pin<MODE> {
    pin: u8,
    _mode: PhantomData<MODE>,
}

/// The function-select step that puts pin `p` in mode `m`.
pub open spec fn select_op(p: u8, m: Mode) -> RegOp {
    RegOp::Modify {
        reg: reg(Block::Gpio, fsel_offset(p as usize)),
        clear: 7u32 << fsel_shift(p as usize),
        set: m.code() << fsel_shift(p as usize),
    }
}

impl<MODE> Pin<MODE> {
    /// The pin's number.
    pub closed spec fn number(&self) -> u8 {
        self.pin
    }

    fn new(pin: u8) -> (p: Self)
        ensures
            p.number() == pin,
    {
        Pin { pin, _mode: PhantomData }
    }

    /// The pin's number.
    pub fn pin_number(&self) -> (n: u8)
        ensures
            n == self.number(),
    {
        self.pin
    }

    /// Make the pin an input.
    pub fn into_input(self) -> (r: (Pin<Input>, Vec<RegOp>))
        requires
            fsel_pin(self.number() as usize),
        ensures
            r.0.number() == self.number(),
            r.1@ == seq![select_op(self.number(), Mode::Input)],
    {
        let ops = crate::gpio::GPIO::set_mode(self.pin as usize, Mode::Input);
        (Pin::new(self.pin), ops)
    }

    /// Make the pin an output.
    pub fn into_output(self) -> (r: (Pin<Output>, Vec<RegOp>))
        requires
            fsel_pin(self.number() as usize),
        ensures
            r.0.number() == self.number(),
            r.1@ == seq![select_op(self.number(), Mode::Output)],
    {
        let ops = crate::gpio::GPIO::set_mode(self.pin as usize, Mode::Output);
        (Pin::new(self.pin), ops)
    }
}

impl Pin<Output> {
    /// Drive the pin high.
    pub fn set_high(&self) -> (ops: Vec<RegOp>)
        requires
            bank_pin(self.number() as usize),
        ensures
            ops@ == seq![write_op(self.number() as usize, true)],
    {
        crate::gpio::GPIO::write(self.pin as usize, true)
    }

    /// Drive the pin low.
    pub fn set_low(&self) -> (ops: Vec<RegOp>)
        requires
            bank_pin(self.number() as usize),
        ensures
            ops@ == seq![write_op(self.number() as usize, false)],
    {
        crate::gpio::GPIO::write(self.pin as usize, false)
    }

    /// Drive the pin to the opposite of its level in the level-register
    /// word `lev` (read with `gpio::GPIO::read`).
    pub fn toggle(&self, lev: u32) -> (ops: Vec<RegOp>)
        requires
            bank_pin(self.number() as usize),
        ensures
            ops@ == seq![write_op(self.number() as usize, !(lev & pin_bit(self.number() as usize) != 0))],
    {
        let p = self.pin as usize;
        let high = crate::gpio::GPIO::level(p, lev);
        crate::gpio::GPIO::write(p, !high)
    }
}

} // verus!
