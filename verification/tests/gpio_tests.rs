use lib::gpio::{Edge, Mode, PinBank, Pull, GPIO};
use lib::mmio::{apply_modify, Block, Reg, RegOp};

fn gpio(offset: usize) -> Reg {
    Reg { block: Block::Gpio, offset }
}

#[test]
fn set_mode_selects_field_of_pin() {
    let ops = GPIO::set_mode(21, Mode::Output);
    assert_eq!(ops, vec![RegOp::Modify { reg: gpio(0x08), clear: 7 << 3, set: 1 << 3 }]);
    let ops = GPIO::set_mode(9, Mode::Alt3);
    assert_eq!(ops, vec![RegOp::Modify { reg: gpio(0x00), clear: 7 << 27, set: 7 << 27 }]);
    let ops = GPIO::set_mode(59, Mode::Alt0);
    assert_eq!(ops, vec![RegOp::Modify { reg: gpio(0x14), clear: 7 << 27, set: 4 << 27 }]);
}

#[test]
fn set_mode_keeps_other_fields() {
    let old = 0xFFFF_FFFFu32;
    if let RegOp::Modify { clear, set, .. } = GPIO::set_mode(14, Mode::Alt0)[0] {
        let new = apply_modify(old, clear, set);
        assert_eq!((new >> 12) & 7, 4);
        assert_eq!(new & 0xFFF, 0xFFF);
        assert_eq!(new >> 15, 0xFFFF_FFFF >> 15);
    } else {
        panic!("expected a read-modify-write");
    }
}

#[test]
fn mode_codes() {
    let codes: Vec<u32> = [
        Mode::Input, Mode::Output, Mode::Alt5, Mode::Alt4, Mode::Alt0, Mode::Alt1, Mode::Alt2, Mode::Alt3,
    ]
    .iter()
    .map(|m| m.bits())
    .collect();
    assert_eq!(codes, vec![0, 1, 2, 3, 4, 5, 6, 7]);
    assert_eq!([Pull::Off.bits(), Pull::Down.bits(), Pull::Up.bits()], [0, 1, 2]);
    assert_eq!([Edge::Rising.bits(), Edge::Falling.bits(), Edge::Both.bits()], [0, 1, 2]);
}

#[test]
fn write_uses_set_and_clear_banks() {
    assert_eq!(GPIO::write(21, true), vec![RegOp::Write { reg: gpio(0x1C), value: 1 << 21 }]);
    assert_eq!(GPIO::write(21, false), vec![RegOp::Write { reg: gpio(0x28), value: 1 << 21 }]);
    assert_eq!(GPIO::write(40, true), vec![RegOp::Write { reg: gpio(0x20), value: 1 << 8 }]);
    assert_eq!(GPIO::write(63, false), vec![RegOp::Write { reg: gpio(0x2C), value: 1 << 31 }]);
}

#[test]
fn read_and_level() {
    assert_eq!(GPIO::read(17), vec![RegOp::Read { reg: gpio(0x34) }]);
    assert_eq!(GPIO::read(33), vec![RegOp::Read { reg: gpio(0x38) }]);
    assert!(GPIO::level(17, 1 << 17));
    assert!(!GPIO::level(17, !(1u32 << 17)));
    assert!(GPIO::level(33, 0b10));
}

#[test]
fn set_pull_sequence() {
    let ops = GPIO::set_pull(4, Pull::Up);
    assert_eq!(
        ops,
        vec![
            RegOp::Write { reg: gpio(0x94), value: 2 },
            RegOp::Spin { cycles: 150 },
            RegOp::Write { reg: gpio(0x98), value: 1 << 4 },
            RegOp::Spin { cycles: 150 },
            RegOp::Write { reg: gpio(0x94), value: 0 },
            RegOp::Write { reg: gpio(0x98), value: 0 },
        ]
    );
    assert_eq!(GPIO::set_pull(35, Pull::Down)[2], RegOp::Write { reg: gpio(0x9C), value: 1 << 3 });
}

#[test]
fn set_edge_variants() {
    assert_eq!(
        GPIO::set_edge(5, Edge::Rising),
        vec![RegOp::Write { reg: gpio(0x4C), value: 1 << 5 }, RegOp::Write { reg: gpio(0x58), value: 0 }]
    );
    assert_eq!(
        GPIO::set_edge(5, Edge::Falling),
        vec![RegOp::Write { reg: gpio(0x58), value: 1 << 5 }, RegOp::Write { reg: gpio(0x4C), value: 0 }]
    );
    assert_eq!(
        GPIO::set_edge(37, Edge::Both),
        vec![RegOp::Write { reg: gpio(0x50), value: 1 << 5 }, RegOp::Write { reg: gpio(0x5C), value: 1 << 5 }]
    );
}

#[test]
fn interrupt_enable_disable_clear() {
    assert_eq!(GPIO::enable_interrupt(6), vec![RegOp::Write { reg: gpio(0x58), value: 1 << 6 }]);
    assert_eq!(GPIO::disable_interrupt(6), vec![RegOp::Write { reg: gpio(0x58), value: 0 }]);
    assert_eq!(GPIO::disable_interrupt(38), vec![RegOp::Write { reg: gpio(0x5C), value: 0 }]);
    let ren = 0xFFFF_FFFFu32;
    assert_eq!(apply_modify(ren, 1 << 6, 0), !(1u32 << 6));
    assert_eq!(GPIO::clear_interrupt(6), vec![RegOp::Write { reg: gpio(0x40), value: 1 << 6 }]);
    assert_eq!(GPIO::has_interrupt(40), vec![RegOp::Read { reg: gpio(0x44) }]);
    assert!(GPIO::interrupt_pending(40, 1 << 8));
    assert!(!GPIO::interrupt_pending(40, 1 << 9));
}

#[test]
fn pin_bank_mask_and_write() {
    let mut bank = PinBank::new(&[2, 3, 17]);
    assert_eq!(bank.mask(), (1 << 2) | (1 << 3) | (1 << 17));
    assert_eq!(bank.pins(), 0);
    let ops = bank.write(0b1000 | (1 << 20));
    assert_eq!(
        ops,
        vec![
            RegOp::Write { reg: gpio(0x1C), value: 1 << 3 },
            RegOp::Write { reg: gpio(0x28), value: (1 << 2) | (1 << 17) },
        ]
    );
    assert_eq!(bank.pins(), 1 << 3);
    let empty = PinBank::new(&[]);
    assert_eq!(empty.mask(), 0);
}

#[test]
fn pin_bank_words_partition_mask() {
    let mut bank = PinBank::new(&[0, 5, 9, 31]);
    for values in [0u32, 0xFFFF_FFFF, 0x8000_0021, 0x1234_5678] {
        let ops = bank.write(values);
        let (set, clr) = match (ops[0], ops[1]) {
            (RegOp::Write { value: a, .. }, RegOp::Write { value: b, .. }) => (a, b),
            _ => panic!("expected two writes"),
        };
        assert_eq!(set & clr, 0);
        assert_eq!(set | clr, bank.mask());
    }
}
