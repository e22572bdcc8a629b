use ili9341_smiley::program::{
    idle_step, program_step, Action, FatalError, Model, Note, Outcome, Signal, BRING_UP_LEN,
    BUS_HERTZ, IDLE_MILLIS, PROGRAM_LEN,
};
use ili9341_smiley::scene::{frame_ops, DrawOp, FRAME_LEN};
use ili9341_smiley::sequencer::{verdict, Phase, Sequencer};

/// Runs the sequencer against a script: the outcome at place `i` answers the
/// `i`-th action. Returns the actions that were handed out.
fn run_script(sequencer: &mut Sequencer, script: &[Outcome]) -> Vec<Action> {
    let mut issued = Vec::new();
    for outcome in script {
        match sequencer.next_action() {
            None => break,
            Some(action) => {
                issued.push(action);
                sequencer.advance(*outcome);
            }
        }
    }
    issued
}

fn draws_of(actions: &[Action]) -> Vec<DrawOp> {
    let mut ops = Vec::new();
    for action in actions {
        if let Action::Draw(op) = action {
            ops.push(*op);
        }
    }
    ops
}

fn position_of(actions: &[Action], wanted: Action) -> usize {
    actions.iter().position(|action| *action == wanted).unwrap()
}

#[test]
fn program_is_listed_in_order() {
    let expected = vec![
        Action::StartRuntime,
        Action::Log(Note::Starting),
        Action::TakePeripherals,
        Action::ConfigureOutput(Signal::Reset),
        Action::DriveHigh(Signal::Reset),
        Action::ConfigureOutput(Signal::DataCommand),
        Action::ConfigureOutput(Signal::ChipSelect),
        Action::OpenBus { clock: Signal::SerialClock, data_out: Signal::SerialOut, dma: false },
        Action::ClockBus { hertz: 40_000_000 },
        Action::BindDevice { chip_select: Signal::ChipSelect },
        Action::BindTransport { data_command: Signal::DataCommand },
        Action::InitController { model: Model::Ili9341Rgb565, reset: Signal::Reset },
        Action::ConfigureOutput(Signal::Backlight),
        Action::DriveHigh(Signal::Backlight),
        Action::Detach(Signal::Backlight),
    ];
    assert_eq!(expected.len(), BRING_UP_LEN);
    for (index, action) in expected.iter().enumerate() {
        assert_eq!(program_step(index), *action);
    }
    let frame = frame_ops();
    for index in 0..FRAME_LEN {
        assert_eq!(program_step(BRING_UP_LEN + index), Action::Draw(frame[index]));
    }
    assert_eq!(program_step(PROGRAM_LEN - 1), Action::Log(Note::Finished));
    assert_eq!(PROGRAM_LEN, BRING_UP_LEN + FRAME_LEN + 1);
}

#[test]
fn fixed_parameters_have_their_values() {
    assert_eq!(BUS_HERTZ, 40_000_000);
    assert_eq!(IDLE_MILLIS, 1000);
    assert_eq!(idle_step(), Action::Sleep { millis: 1000 });
    assert_eq!(Signal::Reset.pin(), 4);
    assert_eq!(Signal::DataCommand.pin(), 2);
    assert_eq!(Signal::SerialClock.pin(), 14);
    assert_eq!(Signal::SerialOut.pin(), 13);
    assert_eq!(Signal::SerialIn.pin(), 12);
    assert_eq!(Signal::ChipSelect.pin(), 15);
    assert_eq!(Signal::Backlight.pin(), 21);
}

#[test]
fn log_lines_read_as_written() {
    assert_eq!(Note::Starting.as_str(), "Starting...");
    assert_eq!(Note::Finished.as_str(), "The end.");
}

#[test]
fn clean_run_issues_the_program_and_then_idles() {
    let mut sequencer = Sequencer::new();
    assert_eq!(sequencer.phase(), Phase::Running { step: 0 });
    let issued = run_script(&mut sequencer, &[Outcome::Done; PROGRAM_LEN]);
    assert_eq!(issued.len(), PROGRAM_LEN);
    for (index, action) in issued.iter().enumerate() {
        assert_eq!(*action, program_step(index));
    }
    assert_eq!(sequencer.phase(), Phase::Idle);
    assert_eq!(sequencer.error(), None);
    assert_eq!(sequencer.next_action(), Some(Action::Sleep { millis: 1000 }));
}

#[test]
fn clean_run_draws_the_whole_frame_in_order() {
    let mut sequencer = Sequencer::new();
    let issued = run_script(&mut sequencer, &[Outcome::Done; PROGRAM_LEN + 5]);
    assert_eq!(draws_of(&issued), frame_ops());
}

#[test]
fn reset_is_high_before_the_controller_starts() {
    let mut sequencer = Sequencer::new();
    let issued = run_script(&mut sequencer, &[Outcome::Done; PROGRAM_LEN]);
    let start_up = position_of(&issued, Action::InitController { model: Model::Ili9341Rgb565, reset: Signal::Reset });
    assert!(position_of(&issued, Action::ConfigureOutput(Signal::Reset))
        < position_of(&issued, Action::DriveHigh(Signal::Reset)));
    assert!(position_of(&issued, Action::DriveHigh(Signal::Reset)) < start_up);
    assert!(position_of(&issued, Action::ConfigureOutput(Signal::ChipSelect)) < start_up);
    assert!(position_of(&issued, Action::ConfigureOutput(Signal::DataCommand)) < start_up);
    let first_draw = issued.iter().position(|action| matches!(action, Action::Draw(_))).unwrap();
    assert!(start_up < first_draw);
}

#[test]
fn backlight_is_detached_before_the_first_draw() {
    let mut sequencer = Sequencer::new();
    let issued = run_script(&mut sequencer, &[Outcome::Done; PROGRAM_LEN]);
    let configured = position_of(&issued, Action::ConfigureOutput(Signal::Backlight));
    let driven = position_of(&issued, Action::DriveHigh(Signal::Backlight));
    let detached = position_of(&issued, Action::Detach(Signal::Backlight));
    let first_draw = issued.iter().position(|action| matches!(action, Action::Draw(_))).unwrap();
    assert!(configured < driven && driven < detached && detached < first_draw);
}

#[test]
fn failed_draw_stops_the_program_at_every_place() {
    let frame = frame_ops();
    for failing in 0..FRAME_LEN {
        let mut script = vec![Outcome::Done; PROGRAM_LEN + 3];
        script[BRING_UP_LEN + failing] = Outcome::Failed;
        let mut sequencer = Sequencer::new();
        let issued = run_script(&mut sequencer, &script);
        assert_eq!(issued.len(), BRING_UP_LEN + failing + 1);
        assert_eq!(draws_of(&issued), frame[..failing + 1].to_vec());
        assert_eq!(sequencer.phase(), Phase::Halted { error: FatalError::DrawOperation });
        assert_eq!(sequencer.error(), Some(FatalError::DrawOperation));
        assert_eq!(sequencer.next_action(), None);
    }
}

#[test]
fn halted_sequencer_ignores_further_outcomes() {
    let mut sequencer = Sequencer::new();
    let mut script = vec![Outcome::Done; 3];
    script[2] = Outcome::Failed;
    run_script(&mut sequencer, &script);
    let halted = sequencer.phase();
    sequencer.advance(Outcome::Done);
    sequencer.advance(Outcome::Refused);
    sequencer.advance(Outcome::Failed);
    assert_eq!(sequencer.phase(), halted);
    assert_eq!(sequencer.next_action(), None);
}

fn error_when_step_fails(step: usize, outcome: Outcome) -> Option<FatalError> {
    let mut script = vec![Outcome::Done; step + 1];
    script[step] = outcome;
    let mut sequencer = Sequencer::new();
    run_script(&mut sequencer, &script);
    sequencer.error()
}

#[test]
fn each_failure_has_its_error() {
    assert_eq!(error_when_step_fails(2, Outcome::Failed), Some(FatalError::ResourceAlreadyClaimed));
    assert_eq!(error_when_step_fails(3, Outcome::Failed), Some(FatalError::PinConfiguration));
    assert_eq!(error_when_step_fails(4, Outcome::Failed), Some(FatalError::PinConfiguration));
    assert_eq!(error_when_step_fails(5, Outcome::Failed), Some(FatalError::PinConfiguration));
    assert_eq!(error_when_step_fails(6, Outcome::Failed), Some(FatalError::PinConfiguration));
    assert_eq!(error_when_step_fails(7, Outcome::Failed), Some(FatalError::BusConstruction));
    assert_eq!(error_when_step_fails(8, Outcome::Failed), Some(FatalError::BusConstruction));
    assert_eq!(error_when_step_fails(9, Outcome::Failed), Some(FatalError::BusConstruction));
    assert_eq!(error_when_step_fails(10, Outcome::Failed), Some(FatalError::BusConstruction));
    assert_eq!(error_when_step_fails(11, Outcome::Failed), Some(FatalError::ControllerHandshake));
    assert_eq!(error_when_step_fails(12, Outcome::Failed), Some(FatalError::PinConfiguration));
    assert_eq!(error_when_step_fails(13, Outcome::Failed), Some(FatalError::PinConfiguration));
    assert_eq!(error_when_step_fails(14, Outcome::Failed), Some(FatalError::PinConfiguration));
    assert_eq!(error_when_step_fails(15, Outcome::Failed), Some(FatalError::DrawOperation));
    assert_eq!(error_when_step_fails(21, Outcome::Failed), Some(FatalError::DrawOperation));
}

#[test]
fn refused_claim_is_resource_already_claimed() {
    assert_eq!(error_when_step_fails(2, Outcome::Refused), Some(FatalError::ResourceAlreadyClaimed));
    assert_eq!(error_when_step_fails(3, Outcome::Refused), Some(FatalError::ResourceAlreadyClaimed));
    assert_eq!(error_when_step_fails(7, Outcome::Refused), Some(FatalError::ResourceAlreadyClaimed));
    assert_eq!(error_when_step_fails(12, Outcome::Refused), Some(FatalError::ResourceAlreadyClaimed));
    assert_eq!(error_when_step_fails(4, Outcome::Refused), Some(FatalError::PinConfiguration));
    assert_eq!(error_when_step_fails(11, Outcome::Refused), Some(FatalError::ControllerHandshake));
}

#[test]
fn steps_that_cannot_fail_go_on() {
    assert_eq!(error_when_step_fails(0, Outcome::Failed), None);
    assert_eq!(error_when_step_fails(1, Outcome::Failed), None);
    assert_eq!(error_when_step_fails(22, Outcome::Failed), None);
    assert_eq!(Action::StartRuntime.failure(), None);
    assert_eq!(Action::Log(Note::Starting).failure(), None);
    assert_eq!(Action::Sleep { millis: 1000 }.failure(), None);
}

#[test]
fn verdict_follows_claims_and_failure() {
    let claim = Action::ConfigureOutput(Signal::Backlight);
    assert!(claim.claims());
    assert_eq!(verdict(claim, Outcome::Done), None);
    assert_eq!(verdict(claim, Outcome::Refused), Some(FatalError::ResourceAlreadyClaimed));
    assert_eq!(verdict(claim, Outcome::Failed), Some(FatalError::PinConfiguration));
    let drive = Action::DriveHigh(Signal::Backlight);
    assert!(!drive.claims());
    assert_eq!(verdict(drive, Outcome::Refused), Some(FatalError::PinConfiguration));
    assert!(Action::TakePeripherals.claims());
    assert!(Action::OpenBus { clock: Signal::SerialClock, data_out: Signal::SerialOut, dma: false }
        .claims());
    assert!(!Action::Draw(frame_ops()[0]).claims());
}

#[test]
fn idle_loop_has_no_way_out() {
    let mut sequencer = Sequencer::new();
    run_script(&mut sequencer, &[Outcome::Done; PROGRAM_LEN]);
    assert_eq!(sequencer.phase(), Phase::Idle);
    let outcomes = [Outcome::Done, Outcome::Failed, Outcome::Refused];
    for round in 0..3000 {
        assert_eq!(sequencer.next_action(), Some(Action::Sleep { millis: IDLE_MILLIS }));
        sequencer.advance(outcomes[round % 3]);
        assert_eq!(sequencer.phase(), Phase::Idle);
    }
}
