//! Sending one configuration command of the Idd bring-up to the MFX.
use vstd::prelude::*;

use crate::driver::{mfx_call_for, MfxDriver, MfxWrite};
use crate::idd::{BusError, IddCommand, ShuntIndex};

verus! {

/// Sends the configuration command `cmd` to the MFX through the driver setter that
/// carries it, and gives the driver back with what the bus answered (which is up to
/// the hardware). The driver's record grows by exactly that setter call and answer.
pub fn send_idd_command<PINS>(driver: MfxDriver<PINS>, cmd: IddCommand) -> (sent: (
    MfxDriver<PINS>,
    Result<(), BusError>,
))
    ensures
        sent.0.device() == driver.device(),
        sent.0.log() == driver.log().push((MfxWrite { call: mfx_call_for(cmd), answer: sent.1 })),
{
    let mut driver = driver;
    let answer = match cmd {
        IddCommand::Ctrl { calibration_disabled, vref_disabled, nb_shunt } => {
            driver.set_idd_ctrl(calibration_disabled, vref_disabled, nb_shunt)
        },
        IddCommand::Gain(gain) => driver.set_idd_gain(gain),
        IddCommand::VddMin(millivolts) => driver.set_idd_vdd_min(millivolts),
        IddCommand::PreDelay(unit, value) => driver.set_idd_pre_delay(unit, value),
        IddCommand::Shunt { shunt, resistance, stabilization_delay } => match shunt {
            ShuntIndex::Shunt0 => driver.set_idd_shunt0(resistance, stabilization_delay),
            ShuntIndex::Shunt1 => driver.set_idd_shunt1(resistance, stabilization_delay),
            ShuntIndex::Shunt2 => driver.set_idd_shunt2(resistance, stabilization_delay),
            ShuntIndex::Shunt3 => driver.set_idd_shunt3(resistance, stabilization_delay),
            ShuntIndex::Shunt4 => driver.set_idd_shunt4(resistance, stabilization_delay),
        },
        IddCommand::NbMeasurement(nb) => driver.set_idd_nb_measurment(nb),
        IddCommand::MeasDeltaDelay(unit, value) => driver.set_idd_meas_delta_delay(unit, value),
    };
    (driver, answer)
}

} // verus!
