//! Board support for the STM32L476 discovery kit: bring-up of the MFX
//! companion chip that measures the MCU supply current (Idd).
//!
//! The configuration that the board writes into the MFX, the order in which
//! it is written and what happens when the I2C bus reports a failure are the
//! logic of this crate; the bus transfers themselves are made by the
//! `mfxstm32l152` driver over the I2C bus of the `stm32l4xx-hal`.
pub mod board;
pub mod command;
pub mod driver;
pub mod idd;

pub use board::{Board, RunMode};
pub use command::send_idd_command;
pub use driver::{I2cError, Mfx, MfxCall, MfxDriver, MfxWakeup, MfxWrite};
pub use idd::{
    advance, idd_init_command, BusError, DelayUnit, IddCommand, InitFailure, InitProgress, ShuntCount, ShuntIndex,
    DISCOVERY_IDD_AMPLI_GAIN, IDD_INIT_STEPS, IDD_SETUP_STEPS,
};
