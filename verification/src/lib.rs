//! Drivers and helpers for bare-metal Raspberry Pi peripherals, expressed as
//! verified register programs.
pub mod adc;
pub mod arduino;
pub mod audio;
pub mod cpu;
pub mod delay;
pub mod dma;
pub mod executor;
pub mod gpio;
pub mod gpu;
pub mod graphics;
pub mod hal;
pub mod http;
pub mod i2c;
pub mod interrupt;
pub mod json;
pub mod mmio;
pub mod net;
pub mod pin;
pub mod pwm;
pub mod qei;
pub mod rtc;
pub mod spi;
pub mod timer;
pub mod uart;
pub mod volatile;
pub mod watchdog;
