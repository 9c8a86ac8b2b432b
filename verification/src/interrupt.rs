//! Table of interrupt handlers, one slot per interrupt number.
use vstd::prelude::*;

verus! {

/// Number of interrupt lines.
pub const IRQ_LINES: usize = 256;

/// Dispatch table from interrupt numbers to handlers of type `H`.
pub struct InterruptController<H> {
    handlers: Vec<Option<H>>,
}

impl<H> View for InterruptController<H> {
    type V = Seq<Option<H>>;

    closed spec fn view(&self) -> Seq<Option<H>> {
        self.handlers@
    }
}

impl<H> InterruptController<H> {
    /// A table with no handler registered.
    pub fn new() -> (c: Self)
        ensures
            c@ == Seq::new(IRQ_LINES as nat, |i: int| None::<H>),
    {
        let mut handlers: Vec<Option<H>> = Vec::new();
        let mut i: usize = 0;
        while i < IRQ_LINES
            invariant
                i <= IRQ_LINES,
                handlers@ == Seq::new(i as nat, |k: int| None::<H>),
            decreases IRQ_LINES - i,
        {
            handlers.push(None);
            i = i + 1;
            assert(handlers@ =~= Seq::new(i as nat, |k: int| None::<H>));
        }
        InterruptController { handlers }
    }

    /// Register `handler` for interrupt `irq`, replacing any earlier one.
    pub fn register(&mut self, irq: u8, handler: H)
        requires
            old(self)@.len() == IRQ_LINES,
        ensures
            final(self)@ == old(self)@.update(irq as int, Some(handler)),
    {
        self.handlers.set(irq as usize, Some(handler));
    }

    /// The handler to run for interrupt `irq`, if one is registered.
    pub fn handle(&self, irq: u8) -> (h: Option<H>)
        where
            H: Copy,
        requires
            self@.len() == IRQ_LINES,
        ensures
            h == self@[irq as int],
    {
        self.handlers[irq as usize]
    }
}

/// A registered handler is the one dispatched for its interrupt, and
/// registering leaves the other interrupts' handlers alone.
pub proof fn lemma_register_dispatch<H>(t: Seq<Option<H>>, irq: u8, other: u8, h: H)
    requires
        t.len() == IRQ_LINES,
    ensures
        t.update(irq as int, Some(h))[irq as int] == Some(h),
        other != irq ==> t.update(irq as int, Some(h))[other as int] == t[other as int],
{
}

} // verus!
