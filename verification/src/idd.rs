//! The Idd measurement configuration of the discovery board.
use vstd::prelude::*;

verus! {

/// Gain of the Idd amplifier on the board, times 100 (board revisions C and later;
/// revisions A and B have 4990).
pub const DISCOVERY_IDD_AMPLI_GAIN: u16 = 4967;

/// Number of configuration commands that bring up the Idd measurement.
pub const IDD_INIT_STEPS: usize = 11;

/// The first commands of the bring-up configure the measurement itself; the board
/// cannot run without them, so a bus failure there is unrecoverable.
pub const IDD_SETUP_STEPS: usize = 4;

/// Number of shunt resistors that the MFX switches between.
#[derive(Clone, Copy, Debug, PartialEq, Eq, Structural)]
pub enum ShuntCount {
    One,
    Two,
    Three,
    Four,
    Five,
}

/// Time base of the MFX delays.
#[derive(Clone, Copy, Debug, PartialEq, Eq, Structural)]
pub enum DelayUnit {
    Time5Ms,
    Time20Ms,
}

/// One of the five shunt resistors of the Idd measurement.
#[derive(Clone, Copy, Debug, PartialEq, Eq, Structural)]
pub enum ShuntIndex {
    Shunt0,
    Shunt1,
    Shunt2,
    Shunt3,
    Shunt4,
}

/// A failure that the I2C bus reports for a transfer.
#[derive(Clone, Copy, Debug, PartialEq, Eq, Structural)]
pub enum BusError {
    /// Bus error
    Bus,
    /// Arbitration loss
    Arbitration,
    /// The addressed device did not acknowledge
    Nack,
}

/// A configuration command for the Idd measurement of the MFX, with its arguments.
#[derive(Clone, Copy, Debug, PartialEq, Eq, Structural)]
pub enum IddCommand {
    /// Idd control register: calibration and Vref measurement switches, shunts in use.
    Ctrl { calibration_disabled: bool, vref_disabled: bool, nb_shunt: ShuntCount },
    /// Amplifier gain, times 100.
    Gain(u16),
    /// Minimum Vdd, in millivolts.
    VddMin(u16),
    /// Delay before a measurement.
    PreDelay(DelayUnit, u8),
    /// Resistance of a shunt and its stabilization delay in milliseconds.
    Shunt { shunt: ShuntIndex, resistance: u16, stabilization_delay: u8 },
    /// Number of measurements that one Idd request averages.
    NbMeasurement(u8),
    /// Delay between two measurements.
    MeasDeltaDelay(DelayUnit, u8),
}

/// The bring-up sequence of the Idd measurement: command number `step`.
/// The shunt values are those of the board's user manual; the stabilization
/// delays are those of the STM32CubeL4 driver.
pub open spec fn init_command(step: int) -> IddCommand {
    if step == 0 {
        IddCommand::Ctrl {
            calibration_disabled: false,
            vref_disabled: false,
            nb_shunt: ShuntCount::Four,
        }
    } else if step == 1 {
        IddCommand::Gain(DISCOVERY_IDD_AMPLI_GAIN)
    } else if step == 2 {
        IddCommand::VddMin(2000)
    } else if step == 3 {
        IddCommand::PreDelay(DelayUnit::Time20Ms, 0xF)
    } else if step == 4 {
        IddCommand::Shunt { shunt: ShuntIndex::Shunt0, resistance: 1000, stabilization_delay: 149 }
    } else if step == 5 {
        IddCommand::Shunt { shunt: ShuntIndex::Shunt1, resistance: 24, stabilization_delay: 149 }
    } else if step == 6 {
        IddCommand::Shunt { shunt: ShuntIndex::Shunt2, resistance: 620, stabilization_delay: 149 }
    } else if step == 7 {
        IddCommand::Shunt { shunt: ShuntIndex::Shunt3, resistance: 0, stabilization_delay: 0 }
    } else if step == 8 {
        IddCommand::Shunt { shunt: ShuntIndex::Shunt4, resistance: 10000, stabilization_delay: 255 }
    } else if step == 9 {
        IddCommand::NbMeasurement(10)
    } else {
        IddCommand::MeasDeltaDelay(DelayUnit::Time5Ms, 10)
    }
}

/// Command number `step` of the Idd bring-up sequence.
pub fn idd_init_command(step: usize) -> (cmd: IddCommand)
    requires
        step < IDD_INIT_STEPS,
    ensures
        cmd == init_command(step as int),
{
    if step == 0 {
        IddCommand::Ctrl {
            calibration_disabled: false,
            vref_disabled: false,
            nb_shunt: ShuntCount::Four,
        }
    } else if step == 1 {
        IddCommand::Gain(DISCOVERY_IDD_AMPLI_GAIN)
    } else if step == 2 {
        IddCommand::VddMin(2000)
    } else if step == 3 {
        IddCommand::PreDelay(DelayUnit::Time20Ms, 0xF)
    } else if step == 4 {
        IddCommand::Shunt { shunt: ShuntIndex::Shunt0, resistance: 1000, stabilization_delay: 149 }
    } else if step == 5 {
        IddCommand::Shunt { shunt: ShuntIndex::Shunt1, resistance: 24, stabilization_delay: 149 }
    } else if step == 6 {
        IddCommand::Shunt { shunt: ShuntIndex::Shunt2, resistance: 620, stabilization_delay: 149 }
    } else if step == 7 {
        IddCommand::Shunt { shunt: ShuntIndex::Shunt3, resistance: 0, stabilization_delay: 0 }
    } else if step == 8 {
        IddCommand::Shunt { shunt: ShuntIndex::Shunt4, resistance: 10000, stabilization_delay: 255 }
    } else if step == 9 {
        IddCommand::NbMeasurement(10)
    } else {
        IddCommand::MeasDeltaDelay(DelayUnit::Time5Ms, 10)
    }
}

/// Why the Idd bring-up stopped: the command that failed and what the bus reported.
#[derive(Clone, Copy, Debug, PartialEq, Eq, Structural)]
pub struct InitFailure {
    pub step: usize,
    pub cause: BusError,
}

impl InitFailure {
    /// Whether the failed command is one of the setup commands, whose failure the
    /// board cannot recover from (the caller is expected to abort).
    pub fn is_unrecoverable(&self) -> (b: bool)
        ensures
            b == (self.step < IDD_SETUP_STEPS),
    {
        self.step < IDD_SETUP_STEPS
    }
}

/// Where the bring-up stands after a command: the next command to send, the end of
/// the sequence, or a failure.
#[derive(Clone, Copy, Debug, PartialEq, Eq, Structural)]
pub enum InitProgress {
    Next(usize),
    Done,
    Failed(InitFailure),
}

/// Where the bring-up stands after command `step` answered `result`.
pub open spec fn progress_after(step: int, result: Result<(), BusError>) -> InitProgress {
    match result {
        Err(cause) => InitProgress::Failed(InitFailure { step: step as usize, cause }),
        Ok(()) => if step + 1 == IDD_INIT_STEPS {
            InitProgress::Done
        } else {
            InitProgress::Next((step + 1) as usize)
        },
    }
}

/// Decides how the bring-up goes on once command `step` has answered `result`:
/// the first failure stops the sequence, and the sequence is done after its last
/// command succeeded.
pub fn advance(step: usize, result: Result<(), BusError>) -> (p: InitProgress)
    requires
        step < IDD_INIT_STEPS,
    ensures
        p == progress_after(step as int, result),
{
    match result {
        Err(cause) => InitProgress::Failed(InitFailure { step, cause }),
        Ok(()) => {
            if step + 1 == IDD_INIT_STEPS {
                InitProgress::Done
            } else {
                InitProgress::Next(step + 1)
            }
        },
    }
}

} // verus!

verus! {

/// The unrecoverable commands of the bring-up are exactly those that set up the
/// measurement itself (control register, amplifier gain, minimum Vdd, pre-delay);
/// the shunt table and the measurement count and spacing come after them.
pub proof fn lemma_setup_steps_configure_the_measurement(step: int)
    requires
        0 <= step < IDD_INIT_STEPS,
    ensures
        step < IDD_SETUP_STEPS <==> {
            ||| init_command(step) is Ctrl
            ||| init_command(step) is Gain
            ||| init_command(step) is VddMin
            ||| init_command(step) is PreDelay
        },
{
}

/// The bring-up sets the resistance of each of the five shunts exactly once, in
/// the order of the shunts, and announces four shunts in the control register.
pub proof fn lemma_every_shunt_configured_once(step: int)
    requires
        0 <= step < IDD_INIT_STEPS,
    ensures
        init_command(step) is Shunt <==> 4 <= step < 9,
        init_command(step) matches IddCommand::Shunt { shunt, .. } ==> {
            &&& step == 4 <==> shunt == ShuntIndex::Shunt0
            &&& step == 5 <==> shunt == ShuntIndex::Shunt1
            &&& step == 6 <==> shunt == ShuntIndex::Shunt2
            &&& step == 7 <==> shunt == ShuntIndex::Shunt3
            &&& step == 8 <==> shunt == ShuntIndex::Shunt4
        },
        init_command(0) == (IddCommand::Ctrl {
            calibration_disabled: false,
            vref_disabled: false,
            nb_shunt: ShuntCount::Four,
        }),
{
}

/// Every delay value that the bring-up hands the driver is at most 0x7F, so the
/// driver's cap (a value above 0x80 becomes 0x7F) leaves it as it is. (The driver then
/// writes `unit & value` into the delay register, which is 0 for both delays of this
/// sequence: 0x80 & 0x0F and 0x00 & 10.)
pub proof fn lemma_delays_fit_the_register_field(step: int)
    requires
        0 <= step < IDD_INIT_STEPS,
    ensures
        init_command(step) matches IddCommand::PreDelay(_, d) ==> d <= 0x7F,
        init_command(step) matches IddCommand::MeasDeltaDelay(_, d) ==> d <= 0x7F,
{
}

/// From the first command, a run whose commands all succeed visits every command of
/// the sequence once, in order, and is done after the last one; any failure ends
/// the run at the command that failed.
pub proof fn lemma_successful_run_visits_every_step(step: int, cause: BusError)
    requires
        0 <= step < IDD_INIT_STEPS,
    ensures
        step + 1 < IDD_INIT_STEPS ==> progress_after(step, Ok(())) == InitProgress::Next(
            (step + 1) as usize,
        ),
        step + 1 == IDD_INIT_STEPS ==> progress_after(step, Ok(())) == InitProgress::Done,
        progress_after(step, Err(cause)) == InitProgress::Failed(
            InitFailure { step: step as usize, cause },
        ),
{
}

} // verus!
