//! The board and the bring-up of its MFX companion chip.
use core::marker::PhantomData;
use vstd::prelude::*;

use crate::command::send_idd_command;
use crate::driver::{mfx_call_for, Mfx, MfxCall, MfxDriver, MfxWrite};
use crate::idd::{
    advance, idd_init_command, init_command, progress_after, BusError, IddCommand, InitFailure,
    InitProgress, ShuntCount, DelayUnit, DISCOVERY_IDD_AMPLI_GAIN, IDD_INIT_STEPS,
};

verus! {

/// Type state of a board whose peripherals are configured and running.
pub struct RunMode;

/// The discovery board in the type state `Mode`, holding the driver `D` of its MFX
/// companion chip once that chip has been brought up.
pub struct Board<Mode, D> {
    _phantom: PhantomData<Mode>,
    pub mfx: Option<D>,
}

impl<Mode, D> View for Board<Mode, D> {
    type V = Option<D>;

    /// The MFX driver that the board holds, if any: the field `mfx`. The view is
    /// closed because the board's type-state marker is private (only `constrain`
    /// builds a board), and a public open spec function may not read the fields of
    /// such a type outside this module.
    closed spec fn view(&self) -> Option<D> {
        self.mfx
    }
}

/// The bring-up of the MFX ran `run` on the commands of the Idd sequence in order,
/// starting from the driver `mfx`: command `i` was handed `drivers[i]` and gave back
/// `drivers[i + 1]` and `results[i]`. Every command but the last one issued succeeded;
/// the last one issued is the last of the sequence when `outcome` is `Ok`, and is the
/// failed step, with the bus error that it reported, when `outcome` is `Err`.
pub open spec fn init_run<D, F: Fn(D, IddCommand) -> (D, Result<(), BusError>)>(
    run: F,
    mfx: D,
    drivers: Seq<D>,
    results: Seq<Result<(), BusError>>,
    outcome: Result<(), InitFailure>,
) -> bool {
    let issued: int = match outcome {
        Ok(()) => IDD_INIT_STEPS as int,
        Err(failure) => failure.step + 1,
    };
    &&& 1 <= issued <= IDD_INIT_STEPS
    &&& drivers.len() == issued + 1
    &&& results.len() == issued
    &&& drivers[0] == mfx
    &&& forall|i: int|
        #![trigger results[i]]
        0 <= i < issued ==> call_ensures(
            run,
            (drivers[i], init_command(i)),
            (drivers[i + 1], results[i]),
        )
    &&& forall|i: int| #![trigger results[i]] 0 <= i < issued - 1 ==> results[i] is Ok
    &&& match outcome {
        Ok(()) => results[issued - 1] is Ok,
        Err(failure) => results[issued - 1] == Err::<(), BusError>(failure.cause),
    }
}

impl<T, D> Board<T, D> {
    /// A board in run mode whose MFX has not been brought up yet.
    pub fn constrain() -> (board: Board<RunMode, D>)
        ensures
            board@ is None,
    {
        Board { _phantom: PhantomData, mfx: None }
    }
}

impl<D> Board<RunMode, D> {
    /// Brings up the Idd measurement of an MFX, and keeps its driver in the board when
    /// every command of the sequence succeeded.
    ///
    /// `run` sends one command over the I2C bus through the driver it is given, and
    /// gives the driver back with what the bus answered. The commands are sent in the
    /// order of the sequence, and the first failure ends the bring-up: the driver is
    /// then dropped, the board is left as it was, and the failure names the command.
    pub fn init_mfx_with<F>(&mut self, mfx: D, run: F) -> (outcome: Result<(), InitFailure>)
        where
            F: Fn(D, IddCommand) -> (D, Result<(), BusError>),
        requires
            forall|d: D, cmd: IddCommand| call_requires(run, (d, cmd)),
        ensures
            exists|drivers: Seq<D>, results: Seq<Result<(), BusError>>|
                {
                    &&& init_run(run, mfx, drivers, results, outcome)
                    &&& outcome is Ok ==> final(self)@ == Some(drivers.last())
                },
            outcome is Err ==> final(self)@ == old(self)@,
    {
        let mut driver = mfx;
        let mut step: usize = 0;
        let ghost mut drivers: Seq<D> = seq![mfx];
        let ghost mut results: Seq<Result<(), BusError>> = Seq::empty();
        loop
            invariant
                step < IDD_INIT_STEPS,
                drivers.len() == step + 1,
                results.len() == step,
                drivers[0] == mfx,
                drivers.last() == driver,
                forall|d: D, cmd: IddCommand| call_requires(run, (d, cmd)),
                forall|i: int|
                    #![trigger results[i]]
                    0 <= i < step ==> call_ensures(
                        run,
                        (drivers[i], init_command(i)),
                        (drivers[i + 1], results[i]),
                    ),
                forall|i: int| #![trigger results[i]] 0 <= i < step ==> results[i] is Ok,
                self@ == old(self)@,
            decreases IDD_INIT_STEPS - step,
        {
            let cmd = idd_init_command(step);
            let (next_driver, result) = run(driver, cmd);
            proof {
                drivers = drivers.push(next_driver);
                results = results.push(result);
            }
            match advance(step, result) {
                InitProgress::Next(next_step) => {
                    driver = next_driver;
                    step = next_step;
                },
                InitProgress::Done => {
                    self.mfx = Some(next_driver);
                    assert(init_run(run, mfx, drivers, results, Ok(())));
                    return Ok(());
                },
                InitProgress::Failed(failure) => {
                    assert(init_run(run, mfx, drivers, results, Err(failure)));
                    return Err(failure);
                },
            }
        }
    }
}

/// The record of setter calls that a bring-up leaves on the MFX driver when command
/// `i` of the Idd sequence was answered `results[i]`: one call per command, in order,
/// each by the setter that carries that command.
pub open spec fn sent_log(results: Seq<Result<(), BusError>>) -> Seq<MfxWrite> {
    Seq::new(
        results.len(),
        |i: int| MfxWrite { call: mfx_call_for(init_command(i)), answer: results[i] },
    )
}

/// The record that a bring-up whose commands were all answered `Ok` leaves on the MFX
/// driver: the eleven setter calls of the Idd sequence, in order.
pub open spec fn idd_bringup_log() -> Seq<MfxWrite> {
    Seq::new(
        IDD_INIT_STEPS as nat,
        |i: int| MfxWrite { call: mfx_call_for(init_command(i)), answer: Ok(()) },
    )
}

/// A bring-up whose commands were all answered `Ok` makes exactly these driver calls,
/// in this order: the control register with calibration and Vref measurement on and
/// four shunts, the amplifier gain 4967 (`DISCOVERY_IDD_AMPLI_GAIN`, gain times 100),
/// a minimum Vdd of 2000 mV, a pre-delay of 0xF in 20 ms units, shunts 0 to 4 with
/// resistances 1000, 24, 620, 0 and 10000 and stabilization delays 149, 149, 149, 0
/// and 255, 10 measurements, and a delay of 10 in 5 ms units between measurements.
pub proof fn lemma_bringup_log_is_board_configuration()
    ensures
        DISCOVERY_IDD_AMPLI_GAIN == 4967,
        idd_bringup_log() == seq![
            MfxWrite {
                call: MfxCall::SetIddCtrl {
                    calibration_disabled: false,
                    vref_disabled: false,
                    nb_shunt: ShuntCount::Four,
                },
                answer: Ok(()),
            },
            MfxWrite { call: MfxCall::SetIddGain(4967), answer: Ok(()) },
            MfxWrite { call: MfxCall::SetIddVddMin(2000), answer: Ok(()) },
            MfxWrite { call: MfxCall::SetIddPreDelay(DelayUnit::Time20Ms, 0xF), answer: Ok(()) },
            MfxWrite { call: MfxCall::SetIddShunt0(1000, 149), answer: Ok(()) },
            MfxWrite { call: MfxCall::SetIddShunt1(24, 149), answer: Ok(()) },
            MfxWrite { call: MfxCall::SetIddShunt2(620, 149), answer: Ok(()) },
            MfxWrite { call: MfxCall::SetIddShunt3(0, 0), answer: Ok(()) },
            MfxWrite { call: MfxCall::SetIddShunt4(10000, 255), answer: Ok(()) },
            MfxWrite { call: MfxCall::SetIddNbMeasurment(10), answer: Ok(()) },
            MfxWrite { call: MfxCall::SetIddMeasDeltaDelay(DelayUnit::Time5Ms, 10), answer: Ok(()) },
        ],
{
    assert(idd_bringup_log() =~= seq![
        MfxWrite {
            call: MfxCall::SetIddCtrl {
                calibration_disabled: false,
                vref_disabled: false,
                nb_shunt: ShuntCount::Four,
            },
            answer: Ok(()),
        },
        MfxWrite { call: MfxCall::SetIddGain(4967), answer: Ok(()) },
        MfxWrite { call: MfxCall::SetIddVddMin(2000), answer: Ok(()) },
        MfxWrite { call: MfxCall::SetIddPreDelay(DelayUnit::Time20Ms, 0xF), answer: Ok(()) },
        MfxWrite { call: MfxCall::SetIddShunt0(1000, 149), answer: Ok(()) },
        MfxWrite { call: MfxCall::SetIddShunt1(24, 149), answer: Ok(()) },
        MfxWrite { call: MfxCall::SetIddShunt2(620, 149), answer: Ok(()) },
        MfxWrite { call: MfxCall::SetIddShunt3(0, 0), answer: Ok(()) },
        MfxWrite { call: MfxCall::SetIddShunt4(10000, 255), answer: Ok(()) },
        MfxWrite { call: MfxCall::SetIddNbMeasurment(10), answer: Ok(()) },
        MfxWrite { call: MfxCall::SetIddMeasDeltaDelay(DelayUnit::Time5Ms, 10), answer: Ok(()) },
    ]);
}

/// Along a bring-up that sent its commands with `send_idd_command`, the driver stays
/// the same and its record grows by the setter call of each command with its answer.
proof fn lemma_bringup_records_each_command<PINS>(
    drivers: Seq<MfxDriver<PINS>>,
    results: Seq<Result<(), BusError>>,
    outcome: Result<(), InitFailure>,
    j: int,
)
    requires
        init_run(send_idd_command::<PINS>, drivers[0], drivers, results, outcome),
        0 <= j < drivers.len(),
    ensures
        drivers[j].device() == drivers[0].device(),
        drivers[j].log() == drivers[0].log() + sent_log(results.take(j)),
    decreases j,
{
    if j > 0 {
        lemma_bringup_records_each_command(drivers, results, outcome, j - 1);
        assert(sent_log(results.take(j)) =~= sent_log(results.take(j - 1)).push(
            MfxWrite { call: mfx_call_for(init_command(j - 1)), answer: results[j - 1] },
        ));
        assert(drivers[0].log() + sent_log(results.take(j)) =~= (drivers[0].log() + sent_log(
            results.take(j - 1),
        )).push(MfxWrite { call: mfx_call_for(init_command(j - 1)), answer: results[j - 1] }));
    } else {
        assert(drivers[0].log() + sent_log(results.take(0)) =~= drivers[0].log());
    }
}

impl<PINS> Board<RunMode, MfxDriver<PINS>> {
    /// Brings up the Idd measurement of the board's MFX, whose driver is `mfx`, over
    /// the I2C bus, and keeps the driver in the board when every command of the
    /// sequence succeeded. The commands are sent in the order of the sequence with
    /// `send_idd_command`, each through the driver setter that carries it, and the
    /// first bus failure ends the bring-up: the driver is then dropped, the board is
    /// left as it was, and the failure names the command and carries the bus error
    /// (a failure of one of the setup commands is unrecoverable). On success the board
    /// holds the driver with the record of the eleven setter calls, all answered `Ok`.
    pub fn init_mfx(&mut self, mfx: Mfx<PINS>) -> (outcome: Result<(), InitFailure>)
        ensures
            exists|drivers: Seq<MfxDriver<PINS>>, results: Seq<Result<(), BusError>>|
                {
                    &&& init_run(send_idd_command::<PINS>, drivers[0], drivers, results, outcome)
                    &&& drivers[0].device() == mfx
                    &&& drivers[0].log() == Seq::<MfxWrite>::empty()
                    &&& outcome is Ok ==> final(self)@ == Some(drivers.last())
                    &&& drivers.last().log() == sent_log(results)
                },
            outcome is Ok ==> (final(self)@ matches Some(driver) && driver.device() == mfx
                && driver.log() == idd_bringup_log()),
            outcome is Err ==> final(self)@ == old(self)@,
    {
        let driver = MfxDriver::new(mfx);
        let outcome = self.init_mfx_with(driver, send_idd_command::<PINS>);
        proof {
            let (drivers, results) = choose|
                drivers: Seq<MfxDriver<PINS>>,
                results: Seq<Result<(), BusError>>,
            |
                {
                    &&& init_run(send_idd_command::<PINS>, driver, drivers, results, outcome)
                    &&& outcome is Ok ==> self@ == Some(drivers.last())
                };
            lemma_bringup_records_each_command(drivers, results, outcome, drivers.len() - 1);
            assert(results.take(results.len() as int) =~= results);
            assert(drivers[0].log() + sent_log(results) =~= sent_log(results));
            if outcome is Ok {
                assert forall|i: int| 0 <= i < results.len() implies results[i] == Ok::<(), BusError>(()) by {
                    assert(results[i] is Ok);
                    let u: () = results[i]->Ok_0;
                    assert(results[i] == Ok::<(), BusError>(u));
                }
                assert(sent_log(results) =~= idd_bringup_log());
            }
        }
        outcome
    }
}

} // verus!
