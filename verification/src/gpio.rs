//! GPIO block: function select, set/clear, level, pulls and edge detection.
use crate::mmio::{Block, Reg, RegOp, rd, reg, wr};
use vstd::prelude::*;

verus! {

/// Function-select register 0; pins 10n..10n+9 live in register n.
pub const GPFSEL0: usize = 0x00;
/// Output set register 0 (pins 0..31), register 1 follows 4 bytes later.
pub const GPSET0: usize = 0x1C;
/// Output clear register 0.
pub const GPCLR0: usize = 0x28;
/// Pin level register 0.
pub const GPLEV0: usize = 0x34;
/// Event detect status register 0.
pub const GPEDS0: usize = 0x40;
/// Rising edge detect enable register 0.
pub const GPREN0: usize = 0x4C;
/// Falling edge detect enable register 0.
pub const GPFEN0: usize = 0x58;
/// Pull-up/down enable.
pub const GPPUD: usize = 0x94;
/// Pull-up/down clock register 0.
pub const GPPUDCLK0: usize = 0x98;

/// Function of a pin, in the encoding of the function-select registers.
#[derive(Clone, Copy, Debug, PartialEq, Eq, Structural)]
pub enum Mode {
    Input,
    Output,
    Alt5,
    Alt4,
    Alt0,
    Alt1,
    Alt2,
    Alt3,
}

impl Mode {
    /// The 3-bit function-select code of the mode.
    pub open spec fn code(self) -> u32 {
        match self {
            Mode::Input => 0,
            Mode::Output => 1,
            Mode::Alt5 => 2,
            Mode::Alt4 => 3,
            Mode::Alt0 => 4,
            Mode::Alt1 => 5,
            Mode::Alt2 => 6,
            Mode::Alt3 => 7,
        }
    }

    pub fn bits(&self) -> (b: u32)
        ensures
            b == self.code(),
            b < 8,
    {
        match self {
            Mode::Input => 0,
            Mode::Output => 1,
            Mode::Alt5 => 2,
            Mode::Alt4 => 3,
            Mode::Alt0 => 4,
            Mode::Alt1 => 5,
            Mode::Alt2 => 6,
            Mode::Alt3 => 7,
        }
    }
}

/// Pull resistor setting, in the encoding of `GPPUD`.
#[derive(Clone, Copy, Debug, PartialEq, Eq, Structural)]
pub enum Pull {
    Off,
    Down,
    Up,
}

impl Pull {
    pub open spec fn code(self) -> u32 {
        match self {
            Pull::Off => 0,
            Pull::Down => 1,
            Pull::Up => 2,
        }
    }

    pub fn bits(&self) -> (b: u32)
        ensures
            b == self.code(),
    {
        match self {
            Pull::Off => 0,
            Pull::Down => 1,
            Pull::Up => 2,
        }
    }
}

/// Which edges a pin's event detector reacts to.
#[derive(Clone, Copy, Debug, PartialEq, Eq, Structural)]
pub enum Edge {
    Rising,
    Falling,
    Both,
}

impl Edge {
    pub open spec fn code(self) -> u32 {
        match self {
            Edge::Rising => 0,
            Edge::Falling => 1,
            Edge::Both => 2,
        }
    }

    pub fn bits(&self) -> (b: u32)
        ensures
            b == self.code(),
    {
        match self {
            Edge::Rising => 0,
            Edge::Falling => 1,
            Edge::Both => 2,
        }
    }
}

/// Byte offset of the function-select register of pin `p`.
pub open spec fn fsel_offset(p: usize) -> usize {
    (GPFSEL0 + 4 * (p / 10)) as usize
}

/// Bit position of pin `p`'s 3-bit field inside its function-select register.
pub open spec fn fsel_shift(p: usize) -> u32 {
    ((p % 10) * 3) as u32
}

/// Byte offset of pin `p`'s word in a two-word bank starting at `base`.
pub open spec fn bank_offset(base: usize, p: usize) -> usize {
    (base + 4 * (p / 32)) as usize
}

/// The single bit of pin `p` inside its bank word.
pub open spec fn pin_bit(p: usize) -> u32 {
    1u32 << ((p % 32) as u32)
}

/// The 3-bit field of pin `p` in a function-select word.
pub open spec fn fsel_field(word: u32, p: usize) -> u32 {
    (word >> fsel_shift(p)) & 7
}

/// Largest pin number (plus one) whose function-select register exists.
pub open spec fn fsel_pin(p: usize) -> bool {
    p < 60
}

/// Pins that have a bit in the two-word set/clear/level banks.
pub open spec fn bank_pin(p: usize) -> bool {
    p < 64
}

/// The single step that drives pin `p` high (`GPSETn`) or low (`GPCLRn`).
pub open spec fn write_op(p: usize, h: bool) -> RegOp {
    wr(Block::Gpio, bank_offset(if h { GPSET0 } else { GPCLR0 }, p), pin_bit(p))
}

/// The read-modify-write that puts pin `p` in mode `m`.
pub open spec fn fsel_op(p: usize, m: Mode) -> RegOp {
    RegOp::Modify {
        reg: reg(Block::Gpio, fsel_offset(p)),
        clear: 7u32 << fsel_shift(p),
        set: m.code() << fsel_shift(p),
    }
}

/// The single step that reads the level register holding pin `p`.
pub open spec fn read_op(p: usize) -> RegOp {
    rd(Block::Gpio, bank_offset(GPLEV0, p))
}

/// The program of [`GPIO::set_edge`].
pub open spec fn edge_ops(p: usize, edge: Edge) -> Seq<RegOp> {
    match edge {
        Edge::Rising => seq![
            wr(Block::Gpio, bank_offset(GPREN0, p), pin_bit(p)),
            wr(Block::Gpio, bank_offset(GPFEN0, p), 0),
        ],
        Edge::Falling => seq![
            wr(Block::Gpio, bank_offset(GPFEN0, p), pin_bit(p)),
            wr(Block::Gpio, bank_offset(GPREN0, p), 0),
        ],
        Edge::Both => seq![
            wr(Block::Gpio, bank_offset(GPREN0, p), pin_bit(p)),
            wr(Block::Gpio, bank_offset(GPFEN0, p), pin_bit(p)),
        ],
    }
}

/// The program that `detach_interrupt` runs: clear pin `p`'s bit in both
/// edge-enable registers of its bank, keeping the other pins' bits.
pub open spec fn detach_ops(p: usize) -> Seq<RegOp> {
    seq![
        RegOp::Modify { reg: reg(Block::Gpio, bank_offset(GPREN0, p)), clear: pin_bit(p), set: 0 },
        RegOp::Modify { reg: reg(Block::Gpio, bank_offset(GPFEN0, p)), clear: pin_bit(p), set: 0 },
    ]
}

/// The GPIO block.
pub struct GPIO;

pub(crate) fn pin_write(p: usize, h: bool) -> (op: RegOp)
    requires
        bank_pin(p),
    ensures
        op == write_op(p, h),
{
    let base = if h { GPSET0 } else { GPCLR0 };
    RegOp::Write { reg: bank_reg(base, p), value: bit_of(p) }
}

pub(crate) fn pin_read(p: usize) -> (op: RegOp)
    requires
        bank_pin(p),
    ensures
        op == read_op(p),
{
    RegOp::Read { reg: bank_reg(GPLEV0, p) }
}

pub(crate) fn bank_reg(base: usize, p: usize) -> (r: Reg)
    requires
        bank_pin(p),
        base <= 0x98,
    ensures
        r == reg(Block::Gpio, bank_offset(base, p)),
{
    Reg { block: Block::Gpio, offset: base + 4 * (p / 32) }
}

pub(crate) fn bit_of(p: usize) -> (b: u32)
    ensures
        b == pin_bit(p),
{
    1u32 << ((p % 32) as u32)
}

impl GPIO {
    /// Select the function of pin `p`: a read-modify-write of its 3-bit field.
    pub fn set_mode(p: usize, m: Mode) -> (ops: Vec<RegOp>)
        requires
            fsel_pin(p),
        ensures
            ops@ == seq![fsel_op(p, m)],
    {
        let r = p / 10;
        let s = ((p % 10) * 3) as u32;
        let op = RegOp::Modify {
            reg: Reg { block: Block::Gpio, offset: GPFSEL0 + 4 * r },
            clear: 7u32 << s,
            set: m.bits() << s,
        };
        vec![op]
    }

    /// Drive pin `p` high (through `GPSETn`) or low (through `GPCLRn`).
    pub fn write(p: usize, h: bool) -> (ops: Vec<RegOp>)
        requires
            bank_pin(p),
        ensures
            ops@ == seq![write_op(p, h)],
    {
        vec![pin_write(p, h)]
    }

    /// Read the level register that holds pin `p`; decode with [`GPIO::level`].
    pub fn read(p: usize) -> (ops: Vec<RegOp>)
        requires
            bank_pin(p),
        ensures
            ops@ == seq![read_op(p)],
    {
        vec![pin_read(p)]
    }

    /// The level of pin `p` in the word read from its level register.
    pub fn level(p: usize, lev: u32) -> (high: bool)
        ensures
            high == (lev & pin_bit(p) != 0),
    {
        lev & bit_of(p) != 0
    }

    /// Configure the pull resistor of pin `p` with the `GPPUD`/`GPPUDCLK`
    /// clocking sequence.
    pub fn set_pull(p: usize, pull: Pull) -> (ops: Vec<RegOp>)
        requires
            bank_pin(p),
        ensures
            ops@ == seq![
                wr(Block::Gpio, GPPUD, pull.code()),
                RegOp::Spin { cycles: 150 },
                wr(Block::Gpio, bank_offset(GPPUDCLK0, p), pin_bit(p)),
                RegOp::Spin { cycles: 150 },
                wr(Block::Gpio, GPPUD, 0),
                wr(Block::Gpio, bank_offset(GPPUDCLK0, p), 0),
            ],
    {
        let clk = bank_reg(GPPUDCLK0, p);
        let pud = Reg { block: Block::Gpio, offset: GPPUD };
        vec![
            RegOp::Write { reg: pud, value: pull.bits() },
            RegOp::Spin { cycles: 150 },
            RegOp::Write { reg: clk, value: bit_of(p) },
            RegOp::Spin { cycles: 150 },
            RegOp::Write { reg: pud, value: 0 },
            RegOp::Write { reg: clk, value: 0 },
        ]
    }

    /// Choose the edges that raise events on pin `p`.  The enable words are
    /// written whole, so the other pins of the bank lose their setting.
    pub fn set_edge(p: usize, edge: Edge) -> (ops: Vec<RegOp>)
        requires
            bank_pin(p),
        ensures
            ops@ == edge_ops(p, edge),
    {
        let ren = bank_reg(GPREN0, p);
        let fen = bank_reg(GPFEN0, p);
        let bit = bit_of(p);
        match edge {
            Edge::Rising => vec![RegOp::Write { reg: ren, value: bit }, RegOp::Write { reg: fen, value: 0 }],
            Edge::Falling => vec![RegOp::Write { reg: fen, value: bit }, RegOp::Write { reg: ren, value: 0 }],
            Edge::Both => vec![RegOp::Write { reg: ren, value: bit }, RegOp::Write { reg: fen, value: bit }],
        }
    }

    /// Enable the (falling-edge) event detector of pin `p`.
    pub fn enable_interrupt(p: usize) -> (ops: Vec<RegOp>)
        requires
            bank_pin(p),
        ensures
            ops@ == seq![wr(Block::Gpio, bank_offset(GPFEN0, p), pin_bit(p))],
    {
        vec![RegOp::Write { reg: bank_reg(GPFEN0, p), value: bit_of(p) }]
    }

    /// Disable falling-edge detection for the whole bank of pin `p`: write 0
    /// to the bank's falling-edge enable register.
    pub fn disable_interrupt(p: usize) -> (ops: Vec<RegOp>)
        requires
            bank_pin(p),
        ensures
            ops@ == seq![wr(Block::Gpio, bank_offset(GPFEN0, p), 0)],
    {
        vec![RegOp::Write { reg: bank_reg(GPFEN0, p), value: 0 }]
    }

    /// Acknowledge a pending event on pin `p` (write-one-to-clear).
    pub fn clear_interrupt(p: usize) -> (ops: Vec<RegOp>)
        requires
            bank_pin(p),
        ensures
            ops@ == seq![wr(Block::Gpio, bank_offset(GPEDS0, p), pin_bit(p))],
    {
        vec![RegOp::Write { reg: bank_reg(GPEDS0, p), value: bit_of(p) }]
    }

    /// Read the event status register of pin `p`; decode with
    /// [`GPIO::interrupt_pending`].
    pub fn has_interrupt(p: usize) -> (ops: Vec<RegOp>)
        requires
            bank_pin(p),
        ensures
            ops@ == seq![rd(Block::Gpio, bank_offset(GPEDS0, p))],
    {
        vec![RegOp::Read { reg: bank_reg(GPEDS0, p) }]
    }

    /// Whether the event status word `eds` flags pin `p`.
    pub fn interrupt_pending(p: usize, eds: u32) -> (pending: bool)
        ensures
            pending == (eds & pin_bit(p) != 0),
    {
        eds & bit_of(p) != 0
    }
}

/// Mask of a list of pins of bank 0: bit `q` set for each listed pin `q`.
pub open spec fn mask_of(pins: Seq<usize>) -> u32
    decreases pins.len(),
{
    if pins.len() == 0 {
        0
    } else {
        mask_of(pins.drop_last()) | (1u32 << (pins.last() as u32))
    }
}

/// A group of bank-0 pins written together.
pub struct PinBank {
    pins: u32,
    mask: u32,
}

impl PinBank {
    /// The levels last written through [`PinBank::write`], masked.
    pub closed spec fn levels(&self) -> u32 {
        self.pins
    }

    /// The pins of the group, one bit each.
    pub closed spec fn pin_mask(&self) -> u32 {
        self.mask
    }

    /// Group the given bank-0 pins (each below 32).
    pub fn new(pins: &[usize]) -> (bank: Self)
        requires
            forall|i: int| 0 <= i < pins@.len() ==> pins@[i] < 32,
        ensures
            bank.pin_mask() == mask_of(pins@),
            bank.levels() == 0,
    {
        let mut mask: u32 = 0;
        let mut i: usize = 0;
        while i < pins.len()
            invariant
                i <= pins@.len(),
                forall|j: int| 0 <= j < pins@.len() ==> pins@[j] < 32,
                mask == mask_of(pins@.subrange(0, i as int)),
            decreases pins@.len() - i,
        {
            assert(pins@.subrange(0, i as int + 1).drop_last() =~= pins@.subrange(0, i as int));
            mask = mask | (1u32 << (pins[i] as u32));
            i = i + 1;
        }
        assert(pins@.subrange(0, pins@.len() as int) =~= pins@);
        PinBank { pins: 0, mask }
    }

    /// Set the group's pins to `values` at once: the group's bits of
    /// `values` go to `GPSET0`, the group's other pins to `GPCLR0`.
    pub fn write(&mut self, values: u32) -> (ops: Vec<RegOp>)
        ensures
            final(self).pin_mask() == old(self).pin_mask(),
            final(self).levels() == values & old(self).pin_mask(),
            ops@ == seq![
                wr(Block::Gpio, GPSET0, values & old(self).pin_mask()),
                wr(Block::Gpio, GPCLR0, !(values & old(self).pin_mask()) & old(self).pin_mask()),
            ],
    {
        let bits = values & self.mask;
        let ops = vec![
            RegOp::Write { reg: Reg { block: Block::Gpio, offset: GPSET0 }, value: bits },
            RegOp::Write { reg: Reg { block: Block::Gpio, offset: GPCLR0 }, value: !bits & self.mask },
        ];
        self.pins = bits;
        ops
    }

    /// The group's pins, one bit each.
    pub fn mask(&self) -> (m: u32)
        ensures
            m == self.pin_mask(),
    {
        self.mask
    }

    /// The levels last written, masked to the group.
    pub fn pins(&self) -> (v: u32)
        ensures
            v == self.levels(),
    {
        self.pins
    }
}

/// Selecting a mode writes the mode's code into the pin's field and leaves
/// every other field of the register as it was.
pub proof fn lemma_set_mode_field(old_word: u32, p: usize, q: usize, m: Mode)
    requires
        p / 10 == q / 10,
    ensures
        fsel_field(crate::mmio::modified(old_word, 7u32 << fsel_shift(p), m.code() << fsel_shift(p)), p)
            == m.code(),
        q != p ==> fsel_field(
            crate::mmio::modified(old_word, 7u32 << fsel_shift(p), m.code() << fsel_shift(p)),
            q,
        ) == fsel_field(old_word, q),
{
    let s = fsel_shift(p);
    let t = fsel_shift(q);
    let c = m.code();
    assert(c < 8);
    assert(s <= 27 && t <= 27);
    assert(s % 3 == 0 && t % 3 == 0);
    assert(q != p ==> s != t);
    lemma_field_update(old_word, c, s, t);
}

proof fn lemma_field_update(w: u32, c: u32, s: u32, t: u32)
    requires
        c < 8,
        s <= 27,
        t <= 27,
        s % 3 == 0,
        t % 3 == 0,
    ensures
        (((w & !(7u32 << s)) | (c << s)) >> s) & 7 == c,
        s != t ==> (((w & !(7u32 << s)) | (c << s)) >> t) & 7 == (w >> t) & 7,
{
    assert((((w & !(7u32 << s)) | (c << s)) >> s) & 7 == c) by (bit_vector)
        requires
            c < 8,
            s <= 27,
    ;
    if s != t {
        assert(s + 3 <= t || t + 3 <= s);
        assert((((w & !(7u32 << s)) | (c << s)) >> t) & 7 == (w >> t) & 7) by (bit_vector)
            requires
                c < 8,
                s <= 27,
                t <= 27,
                s + 3 <= t || t + 3 <= s,
        ;
    }
}

/// A bank write sets exactly the group's pins that are high in `values` and
/// clears exactly the group's other pins: the two words are disjoint and
/// together cover the group.
pub proof fn lemma_bank_write_partitions(values: u32, mask: u32)
    ensures
        (values & mask) & (!(values & mask) & mask) == 0,
        (values & mask) | (!(values & mask) & mask) == mask,
{
    assert((values & mask) & (!(values & mask) & mask) == 0) by (bit_vector);
    assert((values & mask) | (!(values & mask) & mask) == mask) by (bit_vector);
}

/// Pin `q` belongs to a group exactly when it was listed.
pub proof fn lemma_mask_of_bits(pins: Seq<usize>, q: usize)
    requires
        q < 32,
        forall|i: int| 0 <= i < pins.len() ==> pins[i] < 32,
    ensures
        (mask_of(pins) & (1u32 << (q as u32)) != 0) <==> pins.contains(q),
    decreases pins.len(),
{
    if pins.len() == 0 {
        let z: u32 = 0;
        let qq = q as u32;
        assert(z & (1u32 << qq) == 0) by (bit_vector)
            requires
                z == 0,
        ;
    } else {
        let rest = pins.drop_last();
        lemma_mask_of_bits(rest, q);
        let a = mask_of(rest);
        let x = pins.last() as u32;
        let qq = q as u32;
        assert(((a | (1u32 << x)) & (1u32 << qq) != 0) <==> (a & (1u32 << qq) != 0 || x == qq))
            by (bit_vector)
            requires
                x < 32,
                qq < 32,
        ;
        assert(pins.contains(q) <==> (rest.contains(q) || pins.last() == q)) by {
            if pins.contains(q) {
                let k = choose|k: int| 0 <= k < pins.len() && pins[k] == q;
                if k < pins.len() - 1 {
                    assert(rest[k] == q);
                }
            }
            if rest.contains(q) {
                let k = choose|k: int| 0 <= k < rest.len() && rest[k] == q;
                assert(pins[k] == q);
            }
            if pins.last() == q {
                assert(pins[pins.len() - 1] == q);
            }
        }
    }
}

/// Run on the registers, a mode change leaves the mode's code in the
/// pin's field, keeps every other field of that register, and keeps every
/// other register.
pub proof fn lemma_set_mode_effect(mem: Map<Reg, u32>, p: usize, q: usize, m: Mode, other: Reg)
    requires
        fsel_pin(p),
        p / 10 == q / 10,
        other != reg(Block::Gpio, fsel_offset(p)),
    ensures
        fsel_field(crate::mmio::effect(mem, seq![fsel_op(p, m)])[reg(Block::Gpio, fsel_offset(p))], p)
            == m.code(),
        q != p ==> fsel_field(
            crate::mmio::effect(mem, seq![fsel_op(p, m)])[reg(Block::Gpio, fsel_offset(p))],
            q,
        ) == fsel_field(mem[reg(Block::Gpio, fsel_offset(p))], q),
        crate::mmio::effect(mem, seq![fsel_op(p, m)])[other] == mem[other],
{
    let none = Seq::<RegOp>::empty();
    assert(seq![fsel_op(p, m)] =~= none.push(fsel_op(p, m)));
    crate::mmio::lemma_effect_empty(mem);
    crate::mmio::lemma_effect_push(mem, none, fsel_op(p, m));
    lemma_set_mode_field(mem[reg(Block::Gpio, fsel_offset(p))], p, q, m);
}

/// Run on the registers, detaching a pin's events clears its bit in both
/// edge-enable registers and keeps every other bit and every other register.
pub proof fn lemma_detach_effect(mem: Map<Reg, u32>, p: usize, q: usize, other: Reg)
    requires
        bank_pin(p),
        p / 32 == q / 32,
        q != p,
        other != reg(Block::Gpio, bank_offset(GPREN0, p)),
        other != reg(Block::Gpio, bank_offset(GPFEN0, p)),
    ensures
        crate::mmio::effect(mem, detach_ops(p))[reg(Block::Gpio, bank_offset(GPREN0, p))] & pin_bit(p) == 0,
        crate::mmio::effect(mem, detach_ops(p))[reg(Block::Gpio, bank_offset(GPFEN0, p))] & pin_bit(p) == 0,
        crate::mmio::effect(mem, detach_ops(p))[reg(Block::Gpio, bank_offset(GPREN0, p))] & pin_bit(q)
            == mem[reg(Block::Gpio, bank_offset(GPREN0, p))] & pin_bit(q),
        crate::mmio::effect(mem, detach_ops(p))[reg(Block::Gpio, bank_offset(GPFEN0, p))] & pin_bit(q)
            == mem[reg(Block::Gpio, bank_offset(GPFEN0, p))] & pin_bit(q),
        crate::mmio::effect(mem, detach_ops(p))[other] == mem[other],
{
    let ops = detach_ops(p);
    let ren = reg(Block::Gpio, bank_offset(GPREN0, p));
    let fen = reg(Block::Gpio, bank_offset(GPFEN0, p));
    assert(ren != fen);
    let none = Seq::<RegOp>::empty();
    assert(ops =~= none.push(ops[0]).push(ops[1]));
    crate::mmio::lemma_effect_empty(mem);
    crate::mmio::lemma_effect_push(mem, none, ops[0]);
    crate::mmio::lemma_effect_push(mem, none.push(ops[0]), ops[1]);
    let a = mem[ren];
    let b = mem[fen];
    let k = (p % 32) as u32;
    let j = (q % 32) as u32;
    assert(k != j);
    assert(((a & !(1u32 << k)) | 0) & (1u32 << k) == 0 && ((b & !(1u32 << k)) | 0) & (1u32 << k) == 0
        && ((a & !(1u32 << k)) | 0) & (1u32 << j) == a & (1u32 << j) && ((b & !(1u32 << k)) | 0) & (1u32
        << j) == b & (1u32 << j)) by (bit_vector)
        requires
            k < 32,
            j < 32,
            k != j,
    ;
}

/// Run on the registers, choosing edges leaves the pin's rising-edge enable
/// set exactly for `Rising` and `Both`, and its falling-edge enable set
/// exactly for `Falling` and `Both`.
pub proof fn lemma_edge_effect(mem: Map<Reg, u32>, p: usize, e: Edge)
    requires
        bank_pin(p),
    ensures
        (crate::mmio::effect(mem, edge_ops(p, e))[reg(Block::Gpio, bank_offset(GPREN0, p))] & pin_bit(p) != 0)
            == (e != Edge::Falling),
        (crate::mmio::effect(mem, edge_ops(p, e))[reg(Block::Gpio, bank_offset(GPFEN0, p))] & pin_bit(p) != 0)
            == (e != Edge::Rising),
{
    let ops = edge_ops(p, e);
    let ren = reg(Block::Gpio, bank_offset(GPREN0, p));
    let fen = reg(Block::Gpio, bank_offset(GPFEN0, p));
    assert(ren != fen);
    let none = Seq::<RegOp>::empty();
    assert(ops =~= none.push(ops[0]).push(ops[1]));
    crate::mmio::lemma_effect_empty(mem);
    crate::mmio::lemma_effect_push(mem, none, ops[0]);
    crate::mmio::lemma_effect_push(mem, none.push(ops[0]), ops[1]);
    let k = (p % 32) as u32;
    let z: u32 = 0;
    assert((1u32 << k) & (1u32 << k) != 0 && z & (1u32 << k) == 0) by (bit_vector)
        requires
            k < 32,
            z == 0,
    ;
}

} // verus!
