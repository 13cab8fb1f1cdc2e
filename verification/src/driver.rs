//! The MFX driver of the board: the outside types that it is made of, and the
//! driver together with the record of every Idd setter call made through it.
//!
//! Only the setters of this module extend the record, so a record tells which
//! calls were really made on the driver, in order, and what the bus answered.
use vstd::prelude::*;

use crate::idd::{BusError, DelayUnit, IddCommand, ShuntCount, ShuntIndex};

verus! {

#[verifier::external_type_specification]
#[verifier::external_body]
#[verifier::reject_recursive_types(I2C)]
#[verifier::reject_recursive_types(GPIO)]
#[verifier::reject_recursive_types(Delay)]
pub struct ExMfx<I2C, GPIO, Delay>(mfxstm32l152::MFX<I2C, GPIO, Delay>);

#[verifier::external_type_specification]
#[verifier::external_body]
#[verifier::reject_recursive_types(I2C)]
#[verifier::reject_recursive_types(PINS)]
pub struct ExI2c<I2C, PINS>(stm32l4xx_hal::i2c::I2c<I2C, PINS>);

#[verifier::external_type_specification]
#[verifier::external_body]
pub struct ExI2c2(stm32l4xx_hal::pac::I2C2);

#[verifier::external_type_specification]
#[verifier::external_body]
pub struct ExI2cError(stm32l4xx_hal::i2c::Error);

#[verifier::external_type_specification]
#[verifier::external_body]
#[verifier::reject_recursive_types(T)]
pub struct ExOldOutputPin<T>(stm32l4xx_hal::hal::digital::v1_compat::OldOutputPin<T>);

#[verifier::external_type_specification]
#[verifier::external_body]
#[verifier::reject_recursive_types(MODE)]
pub struct ExErasedPin<MODE>(stm32l4xx_hal::gpio::ErasedPin<MODE>);

#[verifier::external_type_specification]
#[verifier::external_body]
#[verifier::reject_recursive_types(OTYPE)]
pub struct ExOutput<OTYPE>(stm32l4xx_hal::gpio::Output<OTYPE>);

#[verifier::external_type_specification]
#[verifier::external_body]
pub struct ExPushPull(stm32l4xx_hal::gpio::PushPull);

#[verifier::external_type_specification]
#[verifier::external_body]
pub struct ExDelay(stm32l4xx_hal::delay::Delay);

/// The wake-up line of the MFX: a push-pull output, driven through the
/// `embedded-hal` 0.2 compatibility wrapper that the driver expects.
pub type MfxWakeup = stm32l4xx_hal::hal::digital::v1_compat::OldOutputPin<
    stm32l4xx_hal::gpio::ErasedPin<stm32l4xx_hal::gpio::Output<stm32l4xx_hal::gpio::PushPull>>,
>;

/// The MFX driver on the board's I2C2 bus, whose pins are `PINS`.
pub type Mfx<PINS> = mfxstm32l152::MFX<
    stm32l4xx_hal::i2c::I2c<stm32l4xx_hal::pac::I2C2, PINS>,
    MfxWakeup,
    stm32l4xx_hal::delay::Delay,
>;

/// The error that the HAL's I2C bus reports.
pub type I2cError = stm32l4xx_hal::i2c::Error;

/// A call of one of the MFX driver's Idd setters, with the arguments it was given.
#[derive(Clone, Copy, Debug, PartialEq, Eq, Structural)]
pub enum MfxCall {
    SetIddCtrl { calibration_disabled: bool, vref_disabled: bool, nb_shunt: ShuntCount },
    SetIddGain(u16),
    SetIddVddMin(u16),
    SetIddPreDelay(DelayUnit, u8),
    SetIddShunt0(u16, u8),
    SetIddShunt1(u16, u8),
    SetIddShunt2(u16, u8),
    SetIddShunt3(u16, u8),
    SetIddShunt4(u16, u8),
    SetIddNbMeasurment(u8),
    SetIddMeasDeltaDelay(DelayUnit, u8),
}

/// A setter call made on the MFX driver, and what the bus answered to it.
#[derive(Clone, Copy, Debug)]
pub struct MfxWrite {
    pub call: MfxCall,
    pub answer: Result<(), BusError>,
}

/// The driver setter, with its arguments, that carries the configuration command `cmd`
/// to the chip.
pub open spec fn mfx_call_for(cmd: IddCommand) -> MfxCall {
    match cmd {
        IddCommand::Ctrl { calibration_disabled, vref_disabled, nb_shunt } => MfxCall::SetIddCtrl {
            calibration_disabled,
            vref_disabled,
            nb_shunt,
        },
        IddCommand::Gain(gain) => MfxCall::SetIddGain(gain),
        IddCommand::VddMin(millivolts) => MfxCall::SetIddVddMin(millivolts),
        IddCommand::PreDelay(unit, value) => MfxCall::SetIddPreDelay(unit, value),
        IddCommand::Shunt { shunt, resistance, stabilization_delay } => match shunt {
            ShuntIndex::Shunt0 => MfxCall::SetIddShunt0(resistance, stabilization_delay),
            ShuntIndex::Shunt1 => MfxCall::SetIddShunt1(resistance, stabilization_delay),
            ShuntIndex::Shunt2 => MfxCall::SetIddShunt2(resistance, stabilization_delay),
            ShuntIndex::Shunt3 => MfxCall::SetIddShunt3(resistance, stabilization_delay),
            ShuntIndex::Shunt4 => MfxCall::SetIddShunt4(resistance, stabilization_delay),
        },
        IddCommand::NbMeasurement(nb) => MfxCall::SetIddNbMeasurment(nb),
        IddCommand::MeasDeltaDelay(unit, value) => MfxCall::SetIddMeasDeltaDelay(unit, value),
    }
}

/// Every configuration command reaches the driver setter of the register it names,
/// with its arguments unchanged: the control settings go to `set_idd_ctrl`, the gain
/// to `set_idd_gain`, the minimum Vdd to `set_idd_vdd_min`, the pre-delay to
/// `set_idd_pre_delay`, the values of shunt `k` to `set_idd_shunt<k>` and to no other
/// shunt's setter, the measurement count to `set_idd_nb_measurment`, and the delay
/// between measurements to `set_idd_meas_delta_delay`.
pub proof fn lemma_each_command_reaches_its_setter(cmd: IddCommand)
    ensures
        cmd matches IddCommand::Ctrl { calibration_disabled: c, vref_disabled: v, nb_shunt: n }
            ==> mfx_call_for(cmd) == (MfxCall::SetIddCtrl { calibration_disabled: c, vref_disabled: v, nb_shunt: n }),
        cmd matches IddCommand::Gain(g) ==> mfx_call_for(cmd) == MfxCall::SetIddGain(g),
        cmd matches IddCommand::VddMin(m) ==> mfx_call_for(cmd) == MfxCall::SetIddVddMin(m),
        cmd matches IddCommand::PreDelay(u, d) ==> mfx_call_for(cmd) == MfxCall::SetIddPreDelay(u, d),
        cmd matches IddCommand::Shunt { shunt: ShuntIndex::Shunt0, resistance: r, stabilization_delay: d }
            ==> mfx_call_for(cmd) == MfxCall::SetIddShunt0(r, d),
        cmd matches IddCommand::Shunt { shunt: ShuntIndex::Shunt1, resistance: r, stabilization_delay: d }
            ==> mfx_call_for(cmd) == MfxCall::SetIddShunt1(r, d),
        cmd matches IddCommand::Shunt { shunt: ShuntIndex::Shunt2, resistance: r, stabilization_delay: d }
            ==> mfx_call_for(cmd) == MfxCall::SetIddShunt2(r, d),
        cmd matches IddCommand::Shunt { shunt: ShuntIndex::Shunt3, resistance: r, stabilization_delay: d }
            ==> mfx_call_for(cmd) == MfxCall::SetIddShunt3(r, d),
        cmd matches IddCommand::Shunt { shunt: ShuntIndex::Shunt4, resistance: r, stabilization_delay: d }
            ==> mfx_call_for(cmd) == MfxCall::SetIddShunt4(r, d),
        cmd matches IddCommand::NbMeasurement(n) ==> mfx_call_for(cmd) == MfxCall::SetIddNbMeasurment(n),
        cmd matches IddCommand::MeasDeltaDelay(u, d) ==> mfx_call_for(cmd) == MfxCall::SetIddMeasDeltaDelay(u, d),
{
}

/// The MFX driver, with the record of the Idd setter calls made through it.
#[verifier::reject_recursive_types(PINS)]
pub struct MfxDriver<PINS> {
    device: Mfx<PINS>,
    log: Ghost<Seq<MfxWrite>>,
}

impl<PINS> MfxDriver<PINS> {
    /// The driver itself.
    pub closed spec fn device(&self) -> Mfx<PINS> {
        self.device
    }

    /// The Idd setter calls made through this driver so far, oldest first, each with
    /// what the bus answered.
    pub closed spec fn log(&self) -> Seq<MfxWrite> {
        self.log@
    }

    /// Takes charge of the driver `device`, with no call recorded yet.
    pub fn new(device: Mfx<PINS>) -> (driver: Self)
        ensures
            driver.device() == device,
            driver.log() == Seq::<MfxWrite>::empty(),
    {
        MfxDriver { device, log: Ghost(Seq::empty()) }
    }

    /// Gives the driver back.
    pub fn into_device(self) -> (device: Mfx<PINS>)
        ensures
            device == self.device(),
    {
        self.device
    }

    /// Calls `MFX::set_idd_ctrl`, which writes the Idd control register (calibration
    /// and Vref switches, number of shunts) and the shunts-on-board register over the
    /// bus; each `ShuntCount` is handed over as the driver's `NbShunt` of the same
    /// count. Returns what the bus answered, each HAL error kind as the `BusError` of
    /// the same name (a kind that a later HAL adds as `Bus`), and records the call with
    /// that answer. The driver's own fields are left as they were: the call only writes
    /// to the chip. What the bus answers is up to the hardware and is not stated.
    #[verifier::external_body]
    pub(crate) fn set_idd_ctrl(&mut self, calibration_disabled: bool, vref_disabled: bool, nb_shunt: ShuntCount) -> (answer: Result<(), BusError>)
        ensures
            final(self).device() == old(self).device(),
            final(self).log() == old(self).log().push((MfxWrite { call: MfxCall::SetIddCtrl { calibration_disabled, vref_disabled, nb_shunt }, answer })),
    {
        let count = match nb_shunt {
            ShuntCount::One => mfxstm32l152::NbShunt::SHUNT_NB_1,
            ShuntCount::Two => mfxstm32l152::NbShunt::SHUNT_NB_2,
            ShuntCount::Three => mfxstm32l152::NbShunt::SHUNT_NB_3,
            ShuntCount::Four => mfxstm32l152::NbShunt::SHUNT_NB_4,
            ShuntCount::Five => mfxstm32l152::NbShunt::SHUNT_NB_5,
        };
        match self.device.set_idd_ctrl(calibration_disabled, vref_disabled, count) {
            Ok(()) => Ok(()),
            Err(stm32l4xx_hal::i2c::Error::Arbitration) => Err(BusError::Arbitration),
            Err(stm32l4xx_hal::i2c::Error::Nack) => Err(BusError::Nack),
            Err(_) => Err(BusError::Bus),
        }
    }

    /// Calls `MFX::set_idd_gain`, which writes the amplifier gain over the bus. Returns what the bus
    /// answered, each HAL error kind as the `BusError` of the same name (a kind that a
    /// later HAL adds as `Bus`), and records the call with that answer. The driver's
    /// own fields are left as they were: the call only writes to the chip. What the
    /// bus answers is up to the hardware and is not stated.
    #[verifier::external_body]
    pub(crate) fn set_idd_gain(&mut self, gain: u16) -> (answer: Result<(), BusError>)
        ensures
            final(self).device() == old(self).device(),
            final(self).log() == old(self).log().push((MfxWrite { call: MfxCall::SetIddGain(gain), answer })),
    {
        match self.device.set_idd_gain(gain) {
            Ok(()) => Ok(()),
            Err(stm32l4xx_hal::i2c::Error::Arbitration) => Err(BusError::Arbitration),
            Err(stm32l4xx_hal::i2c::Error::Nack) => Err(BusError::Nack),
            Err(_) => Err(BusError::Bus),
        }
    }

    /// Calls `MFX::set_idd_vdd_min`, which writes the minimum Vdd (millivolts) over the bus. Returns what the bus
    /// answered, each HAL error kind as the `BusError` of the same name (a kind that a
    /// later HAL adds as `Bus`), and records the call with that answer. The driver's
    /// own fields are left as they were: the call only writes to the chip. What the
    /// bus answers is up to the hardware and is not stated.
    #[verifier::external_body]
    pub(crate) fn set_idd_vdd_min(&mut self, millivolts: u16) -> (answer: Result<(), BusError>)
        ensures
            final(self).device() == old(self).device(),
            final(self).log() == old(self).log().push((MfxWrite { call: MfxCall::SetIddVddMin(millivolts), answer })),
    {
        match self.device.set_idd_vdd_min(millivolts) {
            Ok(()) => Ok(()),
            Err(stm32l4xx_hal::i2c::Error::Arbitration) => Err(BusError::Arbitration),
            Err(stm32l4xx_hal::i2c::Error::Nack) => Err(BusError::Nack),
            Err(_) => Err(BusError::Bus),
        }
    }

    /// Calls `MFX::set_idd_shunt0`, which writes the resistance of shunt 0 and its stabilization delay over the bus. Returns what the bus
    /// answered, each HAL error kind as the `BusError` of the same name (a kind that a
    /// later HAL adds as `Bus`), and records the call with that answer. The driver's
    /// own fields are left as they were: the call only writes to the chip. What the
    /// bus answers is up to the hardware and is not stated.
    #[verifier::external_body]
    pub(crate) fn set_idd_shunt0(&mut self, resistance: u16, delay: u8) -> (answer: Result<(), BusError>)
        ensures
            final(self).device() == old(self).device(),
            final(self).log() == old(self).log().push((MfxWrite { call: MfxCall::SetIddShunt0(resistance, delay), answer })),
    {
        match self.device.set_idd_shunt0(resistance, delay) {
            Ok(()) => Ok(()),
            Err(stm32l4xx_hal::i2c::Error::Arbitration) => Err(BusError::Arbitration),
            Err(stm32l4xx_hal::i2c::Error::Nack) => Err(BusError::Nack),
            Err(_) => Err(BusError::Bus),
        }
    }

    /// Calls `MFX::set_idd_shunt1`, which writes the resistance of shunt 1 and its stabilization delay over the bus. Returns what the bus
    /// answered, each HAL error kind as the `BusError` of the same name (a kind that a
    /// later HAL adds as `Bus`), and records the call with that answer. The driver's
    /// own fields are left as they were: the call only writes to the chip. What the
    /// bus answers is up to the hardware and is not stated.
    #[verifier::external_body]
    pub(crate) fn set_idd_shunt1(&mut self, resistance: u16, delay: u8) -> (answer: Result<(), BusError>)
        ensures
            final(self).device() == old(self).device(),
            final(self).log() == old(self).log().push((MfxWrite { call: MfxCall::SetIddShunt1(resistance, delay), answer })),
    {
        match self.device.set_idd_shunt1(resistance, delay) {
            Ok(()) => Ok(()),
            Err(stm32l4xx_hal::i2c::Error::Arbitration) => Err(BusError::Arbitration),
            Err(stm32l4xx_hal::i2c::Error::Nack) => Err(BusError::Nack),
            Err(_) => Err(BusError::Bus),
        }
    }

    /// Calls `MFX::set_idd_shunt2`, which writes the resistance of shunt 2 and its stabilization delay over the bus. Returns what the bus
    /// answered, each HAL error kind as the `BusError` of the same name (a kind that a
    /// later HAL adds as `Bus`), and records the call with that answer. The driver's
    /// own fields are left as they were: the call only writes to the chip. What the
    /// bus answers is up to the hardware and is not stated.
    #[verifier::external_body]
    pub(crate) fn set_idd_shunt2(&mut self, resistance: u16, delay: u8) -> (answer: Result<(), BusError>)
        ensures
            final(self).device() == old(self).device(),
            final(self).log() == old(self).log().push((MfxWrite { call: MfxCall::SetIddShunt2(resistance, delay), answer })),
    {
        match self.device.set_idd_shunt2(resistance, delay) {
            Ok(()) => Ok(()),
            Err(stm32l4xx_hal::i2c::Error::Arbitration) => Err(BusError::Arbitration),
            Err(stm32l4xx_hal::i2c::Error::Nack) => Err(BusError::Nack),
            Err(_) => Err(BusError::Bus),
        }
    }

    /// Calls `MFX::set_idd_shunt3`, which writes the resistance of shunt 3 and its stabilization delay over the bus. Returns what the bus
    /// answered, each HAL error kind as the `BusError` of the same name (a kind that a
    /// later HAL adds as `Bus`), and records the call with that answer. The driver's
    /// own fields are left as they were: the call only writes to the chip. What the
    /// bus answers is up to the hardware and is not stated.
    #[verifier::external_body]
    pub(crate) fn set_idd_shunt3(&mut self, resistance: u16, delay: u8) -> (answer: Result<(), BusError>)
        ensures
            final(self).device() == old(self).device(),
            final(self).log() == old(self).log().push((MfxWrite { call: MfxCall::SetIddShunt3(resistance, delay), answer })),
    {
        match self.device.set_idd_shunt3(resistance, delay) {
            Ok(()) => Ok(()),
            Err(stm32l4xx_hal::i2c::Error::Arbitration) => Err(BusError::Arbitration),
            Err(stm32l4xx_hal::i2c::Error::Nack) => Err(BusError::Nack),
            Err(_) => Err(BusError::Bus),
        }
    }

    /// Calls `MFX::set_idd_shunt4`, which writes the resistance of shunt 4 and its stabilization delay over the bus. Returns what the bus
    /// answered, each HAL error kind as the `BusError` of the same name (a kind that a
    /// later HAL adds as `Bus`), and records the call with that answer. The driver's
    /// own fields are left as they were: the call only writes to the chip. What the
    /// bus answers is up to the hardware and is not stated.
    #[verifier::external_body]
    pub(crate) fn set_idd_shunt4(&mut self, resistance: u16, delay: u8) -> (answer: Result<(), BusError>)
        ensures
            final(self).device() == old(self).device(),
            final(self).log() == old(self).log().push((MfxWrite { call: MfxCall::SetIddShunt4(resistance, delay), answer })),
    {
        match self.device.set_idd_shunt4(resistance, delay) {
            Ok(()) => Ok(()),
            Err(stm32l4xx_hal::i2c::Error::Arbitration) => Err(BusError::Arbitration),
            Err(stm32l4xx_hal::i2c::Error::Nack) => Err(BusError::Nack),
            Err(_) => Err(BusError::Bus),
        }
    }

    /// Calls `MFX::set_idd_nb_measurment`, which writes how many measurements one Idd request averages over the bus. Returns what the bus
    /// answered, each HAL error kind as the `BusError` of the same name (a kind that a
    /// later HAL adds as `Bus`), and records the call with that answer. The driver's
    /// own fields are left as they were: the call only writes to the chip. What the
    /// bus answers is up to the hardware and is not stated.
    #[verifier::external_body]
    pub(crate) fn set_idd_nb_measurment(&mut self, nb: u8) -> (answer: Result<(), BusError>)
        ensures
            final(self).device() == old(self).device(),
            final(self).log() == old(self).log().push((MfxWrite { call: MfxCall::SetIddNbMeasurment(nb), answer })),
    {
        match self.device.set_idd_nb_measurment(nb) {
            Ok(()) => Ok(()),
            Err(stm32l4xx_hal::i2c::Error::Arbitration) => Err(BusError::Arbitration),
            Err(stm32l4xx_hal::i2c::Error::Nack) => Err(BusError::Nack),
            Err(_) => Err(BusError::Bus),
        }
    }

    /// Calls `MFX::set_idd_pre_delay`, which writes the delay before a measurement over the bus; each `DelayUnit` is
    /// handed over as the driver's unit of the same name. Returns what the bus
    /// answered, each HAL error kind as the `BusError` of the same name (a kind that a
    /// later HAL adds as `Bus`), and records the call with that answer. The driver's
    /// own fields are left as they were: the call only writes to the chip. What the
    /// bus answers is up to the hardware and is not stated.
    #[verifier::external_body]
    pub(crate) fn set_idd_pre_delay(&mut self, unit: DelayUnit, value: u8) -> (answer: Result<(), BusError>)
        ensures
            final(self).device() == old(self).device(),
            final(self).log() == old(self).log().push((MfxWrite { call: MfxCall::SetIddPreDelay(unit, value), answer })),
    {
        let driver_unit = match unit {
            DelayUnit::Time5Ms => mfxstm32l152::DelayUnit::TIME_5_MS,
            DelayUnit::Time20Ms => mfxstm32l152::DelayUnit::TIME_20_MS,
        };
        match self.device.set_idd_pre_delay(driver_unit, value) {
            Ok(()) => Ok(()),
            Err(stm32l4xx_hal::i2c::Error::Arbitration) => Err(BusError::Arbitration),
            Err(stm32l4xx_hal::i2c::Error::Nack) => Err(BusError::Nack),
            Err(_) => Err(BusError::Bus),
        }
    }

    /// Calls `MFX::set_idd_meas_delta_delay`, which writes the delay between two measurements over the bus; each `DelayUnit` is
    /// handed over as the driver's unit of the same name. Returns what the bus
    /// answered, each HAL error kind as the `BusError` of the same name (a kind that a
    /// later HAL adds as `Bus`), and records the call with that answer. The driver's
    /// own fields are left as they were: the call only writes to the chip. What the
    /// bus answers is up to the hardware and is not stated.
    #[verifier::external_body]
    pub(crate) fn set_idd_meas_delta_delay(&mut self, unit: DelayUnit, value: u8) -> (answer: Result<(), BusError>)
        ensures
            final(self).device() == old(self).device(),
            final(self).log() == old(self).log().push((MfxWrite { call: MfxCall::SetIddMeasDeltaDelay(unit, value), answer })),
    {
        let driver_unit = match unit {
            DelayUnit::Time5Ms => mfxstm32l152::DelayUnit::TIME_5_MS,
            DelayUnit::Time20Ms => mfxstm32l152::DelayUnit::TIME_20_MS,
        };
        match self.device.set_idd_meas_delta_delay(driver_unit, value) {
            Ok(()) => Ok(()),
            Err(stm32l4xx_hal::i2c::Error::Arbitration) => Err(BusError::Arbitration),
            Err(stm32l4xx_hal::i2c::Error::Nack) => Err(BusError::Nack),
            Err(_) => Err(BusError::Bus),
        }
    }
}

} // verus!
