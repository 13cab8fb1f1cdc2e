use std::cell::RefCell;

use discovery32l476::{
    advance, idd_init_command, Board, BusError, DelayUnit, IddCommand, InitFailure, InitProgress,
    RunMode, ShuntCount, ShuntIndex, DISCOVERY_IDD_AMPLI_GAIN, IDD_INIT_STEPS, IDD_SETUP_STEPS,
};

fn expected_sequence() -> Vec<IddCommand> {
    vec![
        IddCommand::Ctrl { calibration_disabled: false, vref_disabled: false, nb_shunt: ShuntCount::Four },
        IddCommand::Gain(4967),
        IddCommand::VddMin(2000),
        IddCommand::PreDelay(DelayUnit::Time20Ms, 0xF),
        IddCommand::Shunt { shunt: ShuntIndex::Shunt0, resistance: 1000, stabilization_delay: 149 },
        IddCommand::Shunt { shunt: ShuntIndex::Shunt1, resistance: 24, stabilization_delay: 149 },
        IddCommand::Shunt { shunt: ShuntIndex::Shunt2, resistance: 620, stabilization_delay: 149 },
        IddCommand::Shunt { shunt: ShuntIndex::Shunt3, resistance: 0, stabilization_delay: 0 },
        IddCommand::Shunt { shunt: ShuntIndex::Shunt4, resistance: 10000, stabilization_delay: 255 },
        IddCommand::NbMeasurement(10),
        IddCommand::MeasDeltaDelay(DelayUnit::Time5Ms, 10),
    ]
}

/// A driver stand-in that records every command it is sent.
fn recording(log: Vec<IddCommand>, cmd: IddCommand) -> (Vec<IddCommand>, Result<(), BusError>) {
    let mut log = log;
    log.push(cmd);
    (log, Ok(()))
}

#[test]
fn constrain_holds_no_mfx() {
    let board = Board::<RunMode, u32>::constrain();
    assert!(board.mfx.is_none());
}

#[test]
fn gain_constant_is_board_amplifier_gain() {
    assert_eq!(DISCOVERY_IDD_AMPLI_GAIN, 4967);
    assert_eq!(IDD_INIT_STEPS, 11);
    assert_eq!(IDD_SETUP_STEPS, 4);
}

#[test]
fn init_command_table_is_board_configuration() {
    let expected = expected_sequence();
    for step in 0..IDD_INIT_STEPS {
        assert_eq!(idd_init_command(step), expected[step]);
    }
}

#[test]
fn init_mfx_sends_every_command_in_order_and_keeps_driver() {
    let mut board = Board::<RunMode, Vec<IddCommand>>::constrain();
    let outcome = board.init_mfx_with(Vec::new(), recording);
    assert_eq!(outcome, Ok(()));
    assert_eq!(board.mfx, Some(expected_sequence()));
}

#[test]
fn init_mfx_stops_at_first_failure_and_leaves_board_unchanged() {
    let sent = RefCell::new(Vec::new());
    let mut board = Board::<RunMode, u8>::constrain();
    let outcome = board.init_mfx_with(5u8, |d: u8, cmd: IddCommand| {
        sent.borrow_mut().push(cmd);
        if cmd == (IddCommand::Shunt { shunt: ShuntIndex::Shunt2, resistance: 620, stabilization_delay: 149 }) {
            (d, Err(BusError::Nack))
        } else {
            (d, Ok(()))
        }
    });
    assert_eq!(outcome, Err(InitFailure { step: 6, cause: BusError::Nack }));
    assert!(!outcome.unwrap_err().is_unrecoverable());
    assert_eq!(board.mfx, None);
    assert_eq!(*sent.borrow(), expected_sequence()[..7].to_vec());
}

#[test]
fn init_mfx_failure_in_setup_is_unrecoverable() {
    let sent = RefCell::new(0usize);
    let mut board = Board::<RunMode, u8>::constrain();
    let outcome = board.init_mfx_with(1u8, |d: u8, cmd: IddCommand| {
        *sent.borrow_mut() += 1;
        match cmd {
            IddCommand::Gain(_) => (d, Err(BusError::Arbitration)),
            _ => (d, Ok(())),
        }
    });
    let failure = outcome.unwrap_err();
    assert_eq!(failure, InitFailure { step: 1, cause: BusError::Arbitration });
    assert!(failure.is_unrecoverable());
    assert_eq!(*sent.borrow(), 2);
    assert!(board.mfx.is_none());
}

#[test]
fn init_mfx_failure_on_last_command() {
    let mut board = Board::<RunMode, u8>::constrain();
    let outcome = board.init_mfx_with(1u8, |d: u8, cmd: IddCommand| match cmd {
        IddCommand::MeasDeltaDelay(..) => (d, Err(BusError::Bus)),
        _ => (d + 1, Ok(())),
    });
    assert_eq!(outcome, Err(InitFailure { step: 10, cause: BusError::Bus }));
    assert!(board.mfx.is_none());
}

#[test]
fn init_mfx_keeps_driver_given_back_by_last_command() {
    let mut board = Board::<RunMode, u32>::constrain();
    let outcome = board.init_mfx_with(0u32, |d: u32, _cmd: IddCommand| (d + 1, Ok(())));
    assert_eq!(outcome, Ok(()));
    assert_eq!(board.mfx, Some(11));
}

#[test]
fn failed_reinit_keeps_previous_driver() {
    let mut board = Board::<RunMode, u32>::constrain();
    assert_eq!(board.init_mfx_with(100u32, |d: u32, _cmd: IddCommand| (d, Ok(()))), Ok(()));
    let outcome = board.init_mfx_with(7u32, |d: u32, _cmd: IddCommand| (d, Err(BusError::Nack)));
    assert_eq!(outcome, Err(InitFailure { step: 0, cause: BusError::Nack }));
    assert_eq!(board.mfx, Some(100));
}

#[test]
fn successful_reinit_replaces_driver() {
    let mut board = Board::<RunMode, u32>::constrain();
    assert_eq!(board.init_mfx_with(100u32, |d: u32, _cmd: IddCommand| (d, Ok(()))), Ok(()));
    assert_eq!(board.init_mfx_with(7u32, |d: u32, _cmd: IddCommand| (d, Ok(()))), Ok(()));
    assert_eq!(board.mfx, Some(7));
}

#[test]
fn advance_moves_to_next_step_on_success() {
    assert_eq!(advance(0, Ok(())), InitProgress::Next(1));
    assert_eq!(advance(9, Ok(())), InitProgress::Next(10));
    assert_eq!(advance(10, Ok(())), InitProgress::Done);
}

#[test]
fn advance_stops_on_each_bus_error() {
    for cause in [BusError::Bus, BusError::Arbitration, BusError::Nack] {
        for step in 0..IDD_INIT_STEPS {
            assert_eq!(advance(step, Err(cause)), InitProgress::Failed(InitFailure { step, cause }));
        }
    }
}

#[test]
fn unrecoverable_steps_are_measurement_setup() {
    for step in 0..IDD_INIT_STEPS {
        let failure = InitFailure { step, cause: BusError::Bus };
        let setup = matches!(
            idd_init_command(step),
            IddCommand::Ctrl { .. } | IddCommand::Gain(_) | IddCommand::VddMin(_) | IddCommand::PreDelay(..)
        );
        assert_eq!(failure.is_unrecoverable(), setup);
        assert_eq!(failure.is_unrecoverable(), step < 4);
    }
}

#[test]
fn every_shunt_configured_once_in_order() {
    let shunts: Vec<ShuntIndex> = (0..IDD_INIT_STEPS)
        .filter_map(|s| match idd_init_command(s) {
            IddCommand::Shunt { shunt, .. } => Some(shunt),
            _ => None,
        })
        .collect();
    assert_eq!(
        shunts,
        vec![ShuntIndex::Shunt0, ShuntIndex::Shunt1, ShuntIndex::Shunt2, ShuntIndex::Shunt3, ShuntIndex::Shunt4]
    );
}

#[test]
fn delays_fit_register_field() {
    for step in 0..IDD_INIT_STEPS {
        match idd_init_command(step) {
            IddCommand::PreDelay(_, d) | IddCommand::MeasDeltaDelay(_, d) => assert!(d <= 0x7F),
            _ => {}
        }
    }
}
