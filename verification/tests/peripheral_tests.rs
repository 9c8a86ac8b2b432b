use lib::adc::ADC;
use lib::audio::Audio;
use lib::cpu::Cpu;
use lib::delay::{cycles, ms, us, us_elapsed};
use lib::dma::{DmaControlBlock, DMA};
use lib::i2c::I2C;
use lib::mmio::{Block, Reg, RegOp};
use lib::pwm::PWM;
use lib::rtc::RTC;
use lib::spi::SPI;
use lib::timer::{timer_irq_handler, Timer};
use lib::uart::UART;
use lib::watchdog::{ResetCause, Watchdog};

fn r(block: Block, offset: usize) -> Reg {
    Reg { block, offset }
}

fn w(block: Block, offset: usize, value: u32) -> RegOp {
    RegOp::Write { reg: r(block, offset), value }
}

#[test]
fn adc_init_and_read() {
    assert_eq!(
        ADC::init(),
        vec![
            w(Block::Adc, 0x00, 1 << 4),
            RegOp::Spin { cycles: 10 },
            w(Block::Adc, 0x00, 0),
            w(Block::Adc, 0x20, 1),
            w(Block::Adc, 0x24, 2000),
            w(Block::Adc, 0x08, 0),
            w(Block::Adc, 0x00, 1),
        ]
    );
    assert_eq!(
        ADC::read(3),
        vec![
            w(Block::Adc, 0x00, (1 << 8) | (1 << 4)),
            RegOp::WaitSet { reg: r(Block::Adc, 0x00), mask: 1 << 16 },
            RegOp::Read { reg: r(Block::Adc, 0x04) },
        ]
    );
    assert_eq!(ADC::read(11), ADC::read(3));
    assert_eq!(ADC::sample(0xABCD_E123), 0x123);
}

#[test]
fn uart_programs() {
    let ops = UART::init(115_200);
    assert_eq!(
        ops,
        vec![
            w(Block::Uart0, 0x30, 0),
            w(Block::Uart0, 0x24, 26),
            w(Block::Uart0, 0x28, 0),
            w(Block::Uart0, 0x2C, 3 << 5),
            w(Block::Uart0, 0x30, 0x301),
        ]
    );
    assert_eq!(UART::init(9600)[1], w(Block::Uart0, 0x24, 312));
    assert_eq!(
        UART::putc(b'A'),
        vec![RegOp::WaitClear { reg: r(Block::Uart0, 0x18), mask: 0x20 }, w(Block::Uart0, 0x00, 65)]
    );
    assert_eq!(
        UART::getc(),
        vec![RegOp::WaitClear { reg: r(Block::Uart0, 0x18), mask: 0x10 }, RegOp::Read { reg: r(Block::Uart0, 0x00) }]
    );
    assert_eq!(UART::getc_value(0x0000_0F41), b'A');
}

#[test]
fn uart_writer_sends_each_byte() {
    let ops = UART::writer().write_str("Hi\r\n");
    let mut expected = Vec::new();
    for b in "Hi\r\n".bytes() {
        expected.extend(UART::putc(b));
    }
    assert_eq!(ops, expected);
    assert!(UART::writer().write_str("").is_empty());
}

#[test]
fn spi_programs() {
    assert_eq!(
        SPI::init(64),
        vec![w(Block::Spi0, 0, 0), w(Block::Spi0, 8, 64), w(Block::Spi0, 0, 0x30), w(Block::Spi0, 0, 0x80)]
    );
    assert_eq!(
        SPI::xfer(0x9F),
        vec![
            RegOp::WaitSet { reg: r(Block::Spi0, 0), mask: 0x400 },
            w(Block::Spi0, 4, 0x9F),
            RegOp::WaitSet { reg: r(Block::Spi0, 0), mask: 0x200 },
            RegOp::Read { reg: r(Block::Spi0, 4) },
        ]
    );
    assert_eq!(SPI::xfer_value(0x1EF), 0xEF);
}

#[test]
fn i2c_programs() {
    assert_eq!(I2C::init(1500), vec![w(Block::I2c1, 0x14, 1500)]);
    let ops = I2C::write(0x3C, &[0xAE, 0x01]);
    let txd = RegOp::WaitSet { reg: r(Block::I2c1, 0x04), mask: 0x10 };
    assert_eq!(
        ops,
        vec![
            w(Block::I2c1, 0x0C, 0x3C),
            w(Block::I2c1, 0x08, 2),
            w(Block::I2c1, 0x04, 0),
            w(Block::I2c1, 0x00, 0x80),
            w(Block::I2c1, 0x00, 0x8080),
            txd,
            w(Block::I2c1, 0x10, 0xAE),
            txd,
            w(Block::I2c1, 0x10, 0x01),
            RegOp::WaitSet { reg: r(Block::I2c1, 0x04), mask: 0x02 },
        ]
    );
    assert_eq!(I2C::write(0x10, &[]).len(), 6);
}

#[test]
fn watchdog_programs() {
    let en = Watchdog::enable(4_000);
    assert_eq!(en, vec![w(Block::Pm, 0x24, 0x5A00_0000 | 262_144), w(Block::Pm, 0x1C, 0x5A00_0020)]);
    assert_eq!(Watchdog::pet(4_000), en);
    assert_eq!(Watchdog::enable(1)[0], w(Block::Pm, 0x24, 0x5A00_0000 | 65));
    assert_eq!(Watchdog::enable(15_999)[0], w(Block::Pm, 0x24, 0x5A00_0000 | 1_048_510));
    assert_eq!(Watchdog::enable(16_000)[0], w(Block::Pm, 0x24, 0x5A00_0000));
    assert_eq!(Watchdog::disable(), vec![w(Block::Pm, 0x1C, 0x5A00_0000), w(Block::Pm, 0x24, 0x5A00_0000)]);
    assert_eq!(ResetCause::Full.bits(), 0);
    assert_eq!(ResetCause::Halt.bits(), 0x20);
}

#[test]
fn rtc_programs() {
    assert_eq!(RTC::init(), vec![w(Block::Rtc, 0x0C, 1)]);
    assert_eq!(
        RTC::set_alarm(60),
        vec![RegOp::CopyAdd { from: r(Block::Rtc, 0), to: r(Block::Rtc, 4), add: 60 }, w(Block::Rtc, 0x10, 1)]
    );
    assert_eq!(RTC::current_time(), vec![RegOp::Read { reg: r(Block::Rtc, 0) }]);
}

#[test]
fn timer_programs() {
    assert_eq!(Timer::init(4), vec![RegOp::CopyAdd { from: r(Block::Timer, 4), to: r(Block::Timer, 0x10), add: 250_000 }]);
    assert_eq!(Timer::init(3)[0], RegOp::CopyAdd { from: r(Block::Timer, 4), to: r(Block::Timer, 0x10), add: 333_333 });
    let (ack, rearm) = timer_irq_handler();
    assert_eq!(ack, vec![w(Block::Timer, 0, 2)]);
    assert_eq!(rearm, vec![RegOp::CopyAdd { from: r(Block::Timer, 4), to: r(Block::Timer, 0x10), add: 1_000_000 }]);
}

#[test]
fn cpu_programs() {
    assert_eq!(Cpu::core_id(0x8000_0002), 2);
    assert_eq!(Cpu::current_core(7), 3);
    assert_eq!(
        Cpu::launch_core(2, 0x8_0000),
        vec![w(Block::Local, 0x08, 0x8_0000), w(Block::Local, 0x10, 1 << 2), RegOp::SendEvent]
    );
    assert_eq!(Cpu::send_ipi(3), vec![w(Block::Local, 0x10, 1 << 3)]);
    assert_eq!(Cpu::clear_ipi(0x81), vec![w(Block::Local, 0x14, 1 << 1)]);
    assert_eq!(Cpu::timer_enable(500), vec![w(Block::Local, 0x2C, 500)]);
    assert_eq!(Cpu::timer_now(), vec![RegOp::Read { reg: r(Block::Local, 0x44) }]);
}

#[test]
fn dma_programs() {
    assert_eq!(
        DMA::init(),
        vec![w(Block::Dma, 0, 1 << 31), RegOp::WaitClear { reg: r(Block::Dma, 0), mask: 1 << 31 }]
    );
    let (cb, ops) = DMA::start_transfer(0x100, 0x7E20_C018, 64);
    assert_eq!(
        cb,
        DmaControlBlock { ti: (1 << 8) | (1 << 4), source_ad: 0x100, dest_ad: 0x7E20_C018, txfr_len: 64, nextconbk: 0 }
    );
    assert_eq!(ops, vec![w(Block::Dma, 4, 0x1000_0000), w(Block::Dma, 0, 1)]);
    assert_eq!(DMA::is_busy(), vec![RegOp::Read { reg: r(Block::Dma, 0) }]);
    assert!(DMA::busy(0x11));
    assert!(!DMA::busy(0x10));
}

#[test]
fn pwm_and_audio() {
    assert_eq!(PWM::range(440), 43_636);
    assert_eq!(
        PWM::init(1000, 9600),
        vec![w(Block::Pwm, 0, 0), w(Block::Pwm, 0x10, 19_200), w(Block::Pwm, 0x14, 9600), w(Block::Pwm, 0, 0x81)]
    );
    assert_eq!(PWM::read_range(), vec![RegOp::Read { reg: r(Block::Pwm, 0x10) }]);
    assert_eq!(PWM::set_duty(7), vec![w(Block::Pwm, 0x14, 7)]);
    assert_eq!(Audio::init(44_100), PWM::init(44_100, 435 / 2));
    for rate in [1u32, 2, 3, 7, 440, 44_100, 19_200_000, u32::MAX] {
        let range = 19_200_000 / rate;
        assert_eq!(Audio::init(rate)[2], w(Block::Pwm, 0x14, (range as f32 * 0.5) as u32));
    }
}

#[test]
fn delay_programs() {
    assert_eq!(us(5), vec![RegOp::DelayUs { us: 5 }]);
    assert_eq!(ms(2), vec![RegOp::DelayUs { us: 1000 }, RegOp::DelayUs { us: 1000 }]);
    assert_eq!(cycles(150), vec![RegOp::Spin { cycles: 150 }]);
    assert!(!us_elapsed(100, 150, 100));
    assert!(us_elapsed(100, 200, 100));
    assert!(!us_elapsed(4_294_967_290, 5, 100));
    assert!(us_elapsed(4_294_967_290, 94, 100));
    assert!(!us_elapsed(4_294_967_290, 93, 100));
}
