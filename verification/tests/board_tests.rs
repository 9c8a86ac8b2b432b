use lib::executor::Executor;
use lib::gpio::{Mode, GPIO};
use lib::graphics::{Fill, Font, OLED};
use lib::hal::Peripherals;
use lib::i2c::I2C;
use lib::interrupt::InterruptController;
use lib::mmio::{Block, Reg, RegOp};
use lib::pin::{AnalogPin, DigitalPin};
use lib::adc::ADC;
use lib::volatile::Volatile;

fn gpio(offset: usize) -> Reg {
    Reg { block: Block::Gpio, offset }
}

#[test]
fn digital_pin_programs() {
    assert_eq!(DigitalPin::<21>::set_mode(Mode::Output), GPIO::set_mode(21, Mode::Output));
    assert_eq!(DigitalPin::<21>::high(), GPIO::write(21, true));
    assert_eq!(DigitalPin::<21>::low(), GPIO::write(21, false));
    assert_eq!(DigitalPin::<21>::read(), vec![RegOp::Read { reg: gpio(0x34) }]);
    assert!(DigitalPin::<21>::level(1 << 21));
    assert_eq!(DigitalPin::<21>::toggle(1 << 21), GPIO::write(21, false));
    assert_eq!(DigitalPin::<21>::toggle(0), GPIO::write(21, true));
}

#[test]
fn analog_pin_programs() {
    assert_eq!(AnalogPin::<2>::read(), ADC::read(2));
    assert_eq!(AnalogPin::<2>::value(0xF_FFFF), 0xFFF);
}

#[test]
fn hal_pins() {
    let p = Peripherals::take().expect("peripherals");
    let pin = p.gpio.pin(21);
    assert_eq!(pin.pin_number(), 21);
    let (out, ops) = pin.into_output();
    assert_eq!(ops, GPIO::set_mode(21, Mode::Output));
    assert_eq!(out.pin_number(), 21);
    assert_eq!(out.set_high(), GPIO::write(21, true));
    assert_eq!(out.set_low(), GPIO::write(21, false));
    assert_eq!(out.toggle(1 << 21), GPIO::write(21, false));
    assert_eq!(out.toggle(0), GPIO::write(21, true));
    let (inp, ops) = p.gpio.pin(4).into_input();
    assert_eq!(ops, GPIO::set_mode(4, Mode::Input));
    assert_eq!(inp.pin_number(), 4);
}

#[test]
fn oled_pixels_read_back() {
    let mut d = OLED::new(0x3C);
    assert!(d.buffer().iter().all(|&b| b == 0));
    d.pixel(5, 10, true);
    assert_eq!(d.buffer()[128 + 5], 1 << 2);
    d.pixel(5, 11, true);
    assert_eq!(d.buffer()[128 + 5], (1 << 2) | (1 << 3));
    d.pixel(5, 10, false);
    assert_eq!(d.buffer()[128 + 5], 1 << 3);
    d.pixel(127, 63, true);
    assert_eq!(d.buffer()[1023], 0x80);
    let before = d.buffer().to_vec();
    d.pixel(128, 0, true);
    d.pixel(0, 64, true);
    assert_eq!(d.buffer(), &before[..]);
    d.clear();
    assert!(d.buffer().iter().all(|&b| b == 0));
    assert_eq!(d.buffer().len(), 1024);
}

#[test]
fn oled_init_and_flush() {
    let d = OLED::new(0x3C);
    let init = d.init();
    assert_eq!(
        init,
        I2C::write(
            0x3C,
            &[
                0x00, 0xAE, 0xD5, 0x80, 0xA8, 0x3F, 0xD3, 0x00, 0x40, 0x8D, 0x14, 0x20, 0x00, 0xA1, 0xC8, 0xDA,
                0x12, 0x81, 0xCF, 0xD9, 0xF1, 0xDB, 0x40, 0xA4, 0xA6, 0xAF,
            ]
        )
    );
    let mut expected = I2C::write(0x3C, &[0x00, 0x21, 0, 127, 0x22, 0, 7]);
    expected.extend(I2C::write(0x3C, &[0x40]));
    expected.extend(I2C::write(0x3C, d.buffer()));
    assert_eq!(d.flush(), expected);
    let _ = (Font::Small, Font::Medium, Font::Large, Fill::Solid, Fill::Outline);
}

#[test]
fn executor_fills_first_free_slot() {
    let mut ex: Executor<u8> = Executor::new();
    assert_eq!(ex.slots(), 32);
    ex.spawn(1);
    ex.spawn(2);
    assert_eq!(ex.take(0), Some(1));
    ex.spawn(3);
    assert_eq!(ex.take(0), Some(3));
    assert_eq!(ex.take(1), Some(2));
    assert_eq!(ex.take(1), None);
    ex.restore(1, 9);
    assert_eq!(ex.take(1), Some(9));
}

#[test]
fn executor_full_table() {
    let mut ex: Executor<usize> = Executor::new();
    for i in 0..32 {
        assert!(ex.can_spawn());
        ex.spawn(i);
    }
    assert!(!ex.can_spawn());
    assert_eq!(ex.take(31), Some(31));
    assert!(ex.can_spawn());
}

#[test]
fn interrupt_controller_dispatch() {
    let mut ic: InterruptController<u16> = InterruptController::new();
    assert_eq!(ic.handle(9), None);
    ic.register(9, 900);
    ic.register(255, 2550);
    assert_eq!(ic.handle(9), Some(900));
    assert_eq!(ic.handle(255), Some(2550));
    assert_eq!(ic.handle(10), None);
    ic.register(9, 901);
    assert_eq!(ic.handle(9), Some(901));
}

#[test]
fn volatile_cell() {
    let mut v = Volatile::new(5u32);
    assert_eq!(v.read(), 5);
    v.write(7);
    assert_eq!(v.read(), 7);
}

#[test]
fn quadrature_encoder_counts() {
    let (mut enc, ops) = lib::qei::QuadratureEncoder::new(20, 21);
    let mut expected = GPIO::set_mode(20, Mode::Input);
    expected.extend(GPIO::set_mode(21, Mode::Input));
    assert_eq!(ops, expected);
    assert_eq!(ops[0], RegOp::Modify { reg: gpio(0x08), clear: 7, set: 0 });
    assert_eq!(enc.sample(), vec![RegOp::Read { reg: gpio(0x34) }, RegOp::Read { reg: gpio(0x34) }]);
    let a = 1u32 << 20;
    let b = 1u32 << 21;
    let forward = [(a, 0), (a, b), (0, b), (0, 0)];
    for &(la, lb) in forward.iter() {
        enc.update(la, lb);
    }
    assert_eq!(enc.count(), 4);
    for &(la, lb) in forward.iter().rev().skip(1) {
        enc.update(la, lb);
    }
    enc.update(0, 0);
    assert_eq!(enc.count(), 0);
    enc.update(a, b);
    assert_eq!(enc.count(), 0);
    enc.update(a, b);
    assert_eq!(enc.count(), 0);
}
