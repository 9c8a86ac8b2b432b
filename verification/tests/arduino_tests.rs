use lib::arduino::{
    attach_interrupt, delay, delay_microseconds, detach_interrupt, handle_gpio_isr, micros, micros_value,
    millis, millis_value, no_tone, pulse_in, random, random_range, random_seed, random_u32, shift_in,
    shift_in_value, shift_out, tone, IsrTable, PulsePhase, PulseStep, HIGH, INPUT,
    INPUT_PULLUP, LOW, LSBFIRST, MSBFIRST, OUTPUT,
};
use lib::arduino::{bit_clear, bit_read, bit_set, bit_write, constrain, map_range, max, min};
use lib::gpio::{Edge, Mode};
use lib::mmio::{Block, Reg, RegOp};

fn gpio(offset: usize) -> Reg {
    Reg { block: Block::Gpio, offset }
}

fn systimer_clo() -> RegOp {
    RegOp::Read { reg: Reg { block: Block::SysTimer, offset: 0x04 } }
}

#[test]
fn constants() {
    assert_eq!(INPUT, Mode::Input);
    assert_eq!(OUTPUT, Mode::Output);
    assert_eq!(INPUT_PULLUP, Mode::Input);
    assert!(HIGH && !LOW);
    assert!(!LSBFIRST && MSBFIRST);
}

#[test]
fn time_reads() {
    assert_eq!(millis(), vec![systimer_clo()]);
    assert_eq!(micros(), vec![systimer_clo()]);
    assert_eq!(millis_value(1_234_567), 1_234);
    assert_eq!(millis_value(999), 0);
    assert_eq!(micros_value(u32::MAX), 4_294_967_295);
}

#[test]
fn delays() {
    assert_eq!(delay(3), vec![RegOp::DelayUs { us: 1000 }; 3]);
    assert!(delay(0).is_empty());
    assert_eq!(delay_microseconds(250), vec![RegOp::DelayUs { us: 250 }]);
}

fn pwm(offset: usize, value: u32) -> RegOp {
    RegOp::Write { reg: Reg { block: Block::Pwm, offset }, value }
}

#[test]
fn tone_programs_frequency_each_time_and_stops_once() {
    let mut active = false;
    assert_eq!(
        tone(&mut active, 18, 440),
        vec![pwm(0x00, 0), pwm(0x10, 43_636), pwm(0x14, 21_818), pwm(0x00, 0x81)]
    );
    assert!(active);
    assert_eq!(
        tone(&mut active, 18, 880),
        vec![pwm(0x00, 0), pwm(0x10, 21_818), pwm(0x14, 10_909), pwm(0x00, 0x81)]
    );
    assert!(active);
    assert_eq!(no_tone(&mut active, 18), vec![pwm(0x14, 0)]);
    assert!(!active);
    assert!(no_tone(&mut active, 18).is_empty());
}

#[test]
fn shift_out_msb_first() {
    let ops = shift_out::<MSBFIRST>(2, 3, 0b1010_0001);
    assert_eq!(ops.len(), 40);
    let data_bits: Vec<bool> = (0..8)
        .map(|i| match ops[5 * i] {
            RegOp::Write { reg, value } => {
                assert_eq!(value, 1 << 2);
                reg == gpio(0x1C)
            }
            _ => panic!("data write expected"),
        })
        .collect();
    assert_eq!(data_bits, vec![true, false, true, false, false, false, false, true]);
    assert_eq!(ops[1], RegOp::Write { reg: gpio(0x1C), value: 1 << 3 });
    assert_eq!(ops[2], RegOp::Spin { cycles: 1 });
    assert_eq!(ops[3], RegOp::Write { reg: gpio(0x28), value: 1 << 3 });
    assert_eq!(ops[4], RegOp::Spin { cycles: 1 });
}

#[test]
fn shift_in_program_and_decoding() {
    let ops = shift_in::<LSBFIRST>(4, 5);
    assert_eq!(ops.len(), 40);
    assert_eq!(
        &ops[0..5],
        &[
            RegOp::Write { reg: gpio(0x1C), value: 1 << 5 },
            RegOp::Spin { cycles: 1 },
            RegOp::Read { reg: gpio(0x34) },
            RegOp::Write { reg: gpio(0x28), value: 1 << 5 },
            RegOp::Spin { cycles: 1 },
        ]
    );
    let hi = 1u32 << 4;
    let levels = [hi, 0, 0, hi, 0, 0, 0, hi];
    assert_eq!(shift_in_value::<LSBFIRST>(4, &levels), 0b1000_1001);
    assert_eq!(shift_in_value::<MSBFIRST>(4, &levels), 0b1001_0001);
}

fn data_levels(ops: &[RegOp], data_pin: usize) -> Vec<u32> {
    (0..8)
        .map(|i| match ops[5 * i] {
            RegOp::Write { reg, .. } if reg == gpio(0x1C) => 1u32 << data_pin,
            _ => 0,
        })
        .collect()
}

#[test]
fn shift_roundtrip_both_orders() {
    for value in [0u8, 1, 0x5A, 0x80, 0xFF, 0b1100_0011] {
        let out = shift_out::<LSBFIRST>(7, 8, value);
        assert_eq!(shift_in_value::<LSBFIRST>(7, &data_levels(&out, 7)), value);
        let out = shift_out::<MSBFIRST>(7, 8, value);
        assert_eq!(shift_in_value::<MSBFIRST>(7, &data_levels(&out, 7)), value);
    }
}

fn run_pulse(level: bool, timeout: u32, start: u32, samples: &[(bool, u32)]) -> Option<u32> {
    let mut m = pulse_in(17, level, timeout, start);
    assert_eq!(m.sample(), vec![RegOp::Read { reg: gpio(0x34) }, systimer_clo()]);
    for &(high, clo) in samples {
        let lev = if high { 1u32 << 17 } else { 0 };
        if let PulseStep::Done(d) = m.step(lev, clo) {
            assert_eq!(m.phase, PulsePhase::Finished);
            return Some(d);
        }
    }
    None
}

#[test]
fn pulse_measures_high_pulse() {
    let r = run_pulse(HIGH, 100_000, 1_000, &[(false, 1_010), (false, 1_020), (true, 1_050), (true, 1_300), (false, 1_550)]);
    assert_eq!(r, Some(500));
}

#[test]
fn pulse_waits_for_previous_pulse_to_end() {
    let r = run_pulse(LOW, 1_000, 0, &[(false, 10), (true, 20), (false, 30), (true, 130)]);
    assert_eq!(r, Some(100));
}

#[test]
fn pulse_times_out_with_zero() {
    assert_eq!(run_pulse(HIGH, 100, 0, &[(true, 50), (true, 101)]), Some(0));
    assert_eq!(run_pulse(HIGH, 100, 0, &[(false, 50), (false, 101)]), Some(0));
    assert_eq!(run_pulse(HIGH, 100, 0, &[(false, 5), (true, 10), (true, 111)]), Some(0));
    assert_eq!(run_pulse(HIGH, 100, 0, &[(false, 5), (false, 100)]), None);
}

#[test]
fn pulse_counts_across_counter_wrap() {
    let r = run_pulse(HIGH, 100, 4_294_967_290, &[(false, 4_294_967_295), (true, 3), (false, 53)]);
    assert_eq!(r, Some(50));
    assert_eq!(run_pulse(HIGH, 100, 4_294_967_290, &[(false, 90), (false, 95)]), Some(0));
}

#[test]
fn isr_attach_dispatch_detach() {
    let mut table: IsrTable<u32> = IsrTable::new();
    let ops = attach_interrupt(&mut table, 17, Edge::Rising, 7);
    assert_eq!(
        ops,
        vec![RegOp::Write { reg: gpio(0x4C), value: 1 << 17 }, RegOp::Write { reg: gpio(0x58), value: 0 }]
    );
    let (h, ack) = handle_gpio_isr(&table, 17);
    assert_eq!(h, Some(7));
    assert_eq!(ack, vec![RegOp::Write { reg: gpio(0x40), value: 1 << 17 }]);
    assert_eq!(handle_gpio_isr(&table, 18).0, None);
    assert_eq!(
        detach_interrupt(&mut table, 17),
        vec![
            RegOp::Modify { reg: gpio(0x4C), clear: 1 << 17, set: 0 },
            RegOp::Modify { reg: gpio(0x58), clear: 1 << 17, set: 0 },
        ]
    );
    assert_eq!(handle_gpio_isr(&table, 17).0, None);
    let _ = attach_interrupt(&mut table, 53, Edge::Both, 9);
    assert_eq!(handle_gpio_isr(&table, 53).0, Some(9));
}

#[test]
fn lcg_sequence() {
    let mut s = 0u32;
    random_seed(&mut s, 1);
    assert_eq!(s, 1);
    let a = random_u32(&mut s);
    assert_eq!(s, 1u32.wrapping_mul(1664525).wrapping_add(1013904223));
    assert_eq!(a, 1_015_568_748);
    let b = random_u32(&mut s);
    assert_eq!(b, s & 0x7FFF_FFFF);
    let mut t = 1u32;
    random_u32(&mut t);
    assert_eq!(random_u32(&mut t), b);
}

#[test]
fn random_ranges() {
    let mut s = 42u32;
    for _ in 0..1000 {
        assert!(random(&mut s, 10) < 10);
        let r = random_range(&mut s, 500, 2500);
        assert!((500..2500).contains(&r));
        assert!(random_u32(&mut s) <= 0x7FFF_FFFF);
    }
    let mut s = 1u32;
    assert_eq!(random(&mut s, 1000), 1_015_568_748 % 1000);
}

#[test]
fn math_helpers() {
    assert_eq!(constrain(5, 0, 10), 5);
    assert_eq!(constrain(-5, 0, 10), 0);
    assert_eq!(constrain(50, 0, 10), 10);
    assert_eq!(map_range(2048, 0, 4095, 500, 2500), 1500);
    assert_eq!(map_range(4095, 0, 4095, 500, 2500), 2500);
    assert_eq!(map_range(0, 0, 1023, 0, 180), 0);
    assert_eq!(map_range(512, 0, 1023, 0, 180), 90);
    assert_eq!(map_range(1, 0, 3, 0, -10), -3);
    assert_eq!(map_range(50, 0, 100, 100, 0), 50);
    assert_eq!(min(3, 4), 3);
    assert_eq!(max(3, 4), 4);
    assert_eq!(min(-1, -1), -1);
}

#[test]
fn bit_helpers() {
    let mut flags = 0u32;
    bit_set(&mut flags, 3);
    assert_eq!(flags, 8);
    assert_eq!(bit_read(flags, 3), 1);
    assert_eq!(bit_read(flags, 2), 0);
    bit_write(&mut flags, 31, 7);
    assert_eq!(flags, 0x8000_0008);
    bit_write(&mut flags, 3, 0);
    assert_eq!(flags, 0x8000_0000);
    bit_clear(&mut flags, 31);
    assert_eq!(flags, 0);
}
