use ili9341_smiley::board::{Board, Bus, Line};
use ili9341_smiley::program::{
    Action, FatalError, Model, Note, Outcome, Signal, PROGRAM_LEN,
};
use ili9341_smiley::scene::{frame_ops, smiley_ops};
use ili9341_smiley::sequencer::{Phase, Sequencer};
use ili9341_smiley::simulation::{draw_all, draw_smiley, drive};

const ALL_SIGNALS: [Signal; 7] = [
    Signal::Reset,
    Signal::DataCommand,
    Signal::SerialClock,
    Signal::SerialOut,
    Signal::SerialIn,
    Signal::ChipSelect,
    Signal::Backlight,
];

fn lit_board() -> Board {
    let mut sequencer = Sequencer::new();
    let mut board = Board::new();
    drive(&mut sequencer, &mut board, PROGRAM_LEN);
    assert_eq!(sequencer.phase(), Phase::Idle);
    board
}

#[test]
fn fresh_board_owns_nothing() {
    let board = Board::new();
    assert!(!board.peripherals_taken());
    assert_eq!(board.bus(), Bus::Closed);
    assert_eq!(board.model(), None);
    assert_eq!(board.bus_hertz(), 0);
    assert!(!board.bus_dma());
    assert!(board.surface().is_empty());
    assert!(board.log().is_empty());
    for signal in ALL_SIGNALS {
        assert_eq!(board.line(signal), Line::Free);
        assert_eq!(board.level(signal), None);
    }
}

#[test]
fn program_on_a_fresh_board_lights_the_panel() {
    let board = lit_board();
    assert!(board.peripherals_taken());
    assert_eq!(board.bus(), Bus::Ready);
    assert_eq!(board.model(), Some(Model::Ili9341Rgb565));
    assert_eq!(board.bus_hertz(), 40_000_000);
    assert!(!board.bus_dma());
    assert_eq!(*board.surface(), frame_ops());
    assert_eq!(*board.log(), vec![Note::Starting, Note::Finished]);
    assert_eq!(board.line(Signal::Reset), Line::Lent);
    assert_eq!(board.line(Signal::DataCommand), Line::Lent);
    assert_eq!(board.line(Signal::SerialClock), Line::Lent);
    assert_eq!(board.line(Signal::SerialOut), Line::Lent);
    assert_eq!(board.line(Signal::SerialIn), Line::Free);
    assert_eq!(board.line(Signal::ChipSelect), Line::Lent);
    assert_eq!(board.line(Signal::Backlight), Line::Latched { high: true });
    assert_eq!(board.level(Signal::Backlight), Some(true));
}

#[test]
fn idle_loop_leaves_the_board_alone() {
    let mut sequencer = Sequencer::new();
    let mut board = Board::new();
    drive(&mut sequencer, &mut board, PROGRAM_LEN + 500);
    assert_eq!(sequencer.phase(), Phase::Idle);
    assert_eq!(*board.surface(), frame_ops());
    assert_eq!(*board.log(), vec![Note::Starting, Note::Finished]);
    assert_eq!(board.level(Signal::Backlight), Some(true));
}

#[test]
fn drive_stops_after_the_steps_it_was_given() {
    let mut sequencer = Sequencer::new();
    let mut board = Board::new();
    drive(&mut sequencer, &mut board, 5);
    assert_eq!(sequencer.phase(), Phase::Running { step: 5 });
    assert_eq!(board.line(Signal::Reset), Line::Held { high: true });
    assert_eq!(board.level(Signal::Reset), Some(true));
    assert_eq!(board.bus(), Bus::Closed);
    drive(&mut sequencer, &mut board, 0);
    assert_eq!(sequencer.phase(), Phase::Running { step: 5 });
}

#[test]
fn second_take_of_the_peripherals_is_refused() {
    let mut board = Board::new();
    assert_eq!(board.perform(Action::TakePeripherals), Outcome::Done);
    assert_eq!(board.perform(Action::TakePeripherals), Outcome::Refused);
    assert!(board.peripherals_taken());
}

#[test]
fn second_claim_of_a_pin_is_refused() {
    for signal in ALL_SIGNALS {
        let mut board = Board::new();
        board.perform(Action::TakePeripherals);
        assert_eq!(board.perform(Action::ConfigureOutput(signal)), Outcome::Done);
        assert_eq!(board.line(signal), Line::Held { high: false });
        assert_eq!(board.perform(Action::ConfigureOutput(signal)), Outcome::Refused);
        assert_eq!(board.line(signal), Line::Held { high: false });
    }
}

#[test]
fn second_opening_of_the_bus_is_refused() {
    let open =
        Action::OpenBus { clock: Signal::SerialClock, data_out: Signal::SerialOut, dma: false };
    let mut board = Board::new();
    board.perform(Action::TakePeripherals);
    assert_eq!(board.perform(open), Outcome::Done);
    assert_eq!(board.bus(), Bus::Open);
    assert_eq!(board.perform(open), Outcome::Refused);
    assert_eq!(board.perform(Action::ConfigureOutput(Signal::SerialClock)), Outcome::Refused);
    assert_eq!(board.perform(Action::ConfigureOutput(Signal::SerialOut)), Outcome::Refused);
}

#[test]
fn bus_on_a_claimed_pin_is_refused() {
    let mut board = Board::new();
    board.perform(Action::TakePeripherals);
    board.perform(Action::ConfigureOutput(Signal::SerialClock));
    let open =
        Action::OpenBus { clock: Signal::SerialClock, data_out: Signal::SerialOut, dma: false };
    assert_eq!(board.perform(open), Outcome::Refused);
    assert_eq!(board.bus(), Bus::Closed);
    let same_pin =
        Action::OpenBus { clock: Signal::SerialOut, data_out: Signal::SerialOut, dma: false };
    assert_eq!(board.perform(same_pin), Outcome::Failed);
}

#[test]
fn second_run_on_the_same_board_is_refused() {
    let mut board = lit_board();
    let mut again = Sequencer::new();
    drive(&mut again, &mut board, PROGRAM_LEN);
    assert_eq!(again.phase(), Phase::Halted { error: FatalError::ResourceAlreadyClaimed });
    assert_eq!(again.error(), Some(FatalError::ResourceAlreadyClaimed));
    assert_eq!(*board.surface(), frame_ops());
    assert_eq!(*board.log(), vec![Note::Starting, Note::Finished, Note::Starting]);
    assert_eq!(board.level(Signal::Backlight), Some(true));
}

#[test]
fn nothing_is_configured_before_the_peripherals_are_taken() {
    let mut board = Board::new();
    assert_eq!(board.perform(Action::ConfigureOutput(Signal::Reset)), Outcome::Failed);
    assert_eq!(board.line(Signal::Reset), Line::Free);
    let open =
        Action::OpenBus { clock: Signal::SerialClock, data_out: Signal::SerialOut, dma: false };
    assert_eq!(board.perform(open), Outcome::Failed);
    assert_eq!(board.perform(Action::DriveHigh(Signal::Reset)), Outcome::Failed);
    assert_eq!(board.perform(Action::Detach(Signal::Reset)), Outcome::Failed);
}

fn board_with_transport() -> Board {
    let mut board = Board::new();
    let steps = [
        Action::TakePeripherals,
        Action::ConfigureOutput(Signal::Reset),
        Action::ConfigureOutput(Signal::DataCommand),
        Action::ConfigureOutput(Signal::ChipSelect),
        Action::OpenBus { clock: Signal::SerialClock, data_out: Signal::SerialOut, dma: false },
        Action::ClockBus { hertz: 40_000_000 },
        Action::BindDevice { chip_select: Signal::ChipSelect },
        Action::BindTransport { data_command: Signal::DataCommand },
    ];
    for step in steps {
        assert_eq!(board.perform(step), Outcome::Done);
    }
    assert_eq!(board.bus(), Bus::Transport);
    board
}

#[test]
fn controller_does_not_start_while_reset_is_low() {
    let mut board = board_with_transport();
    assert_eq!(board.level(Signal::Reset), Some(false));
    assert_eq!(board.perform(Action::InitController { model: Model::Ili9341Rgb565, reset: Signal::Reset }), Outcome::Failed);
    assert_eq!(board.bus(), Bus::Transport);
    assert_eq!(board.perform(Action::DriveHigh(Signal::Reset)), Outcome::Done);
    assert_eq!(board.perform(Action::InitController { model: Model::Ili9341Rgb565, reset: Signal::Reset }), Outcome::Done);
    assert_eq!(board.bus(), Bus::Ready);
    assert_eq!(board.line(Signal::Reset), Line::Lent);
}

#[test]
fn bus_is_assembled_in_order_only() {
    let mut board = Board::new();
    board.perform(Action::TakePeripherals);
    board.perform(Action::ConfigureOutput(Signal::ChipSelect));
    board.perform(Action::ConfigureOutput(Signal::DataCommand));
    assert_eq!(board.perform(Action::ClockBus { hertz: 40_000_000 }), Outcome::Failed);
    assert_eq!(board.perform(Action::BindDevice { chip_select: Signal::ChipSelect }), Outcome::Failed);
    assert_eq!(
        board.perform(Action::BindTransport { data_command: Signal::DataCommand }),
        Outcome::Failed
    );
    assert_eq!(board.perform(Action::Draw(frame_ops()[0])), Outcome::Failed);
    assert!(board.surface().is_empty());
    board.perform(Action::OpenBus {
        clock: Signal::SerialClock,
        data_out: Signal::SerialOut,
        dma: true,
    });
    assert!(board.bus_dma());
    assert_eq!(board.perform(Action::ClockBus { hertz: 0 }), Outcome::Failed);
    assert_eq!(board.perform(Action::ClockBus { hertz: 26_000_000 }), Outcome::Done);
    assert_eq!(board.bus_hertz(), 26_000_000);
    assert_eq!(board.bus(), Bus::Clocked);
    assert_eq!(board.perform(Action::BindDevice { chip_select: Signal::Backlight }), Outcome::Failed);
    assert_eq!(board.perform(Action::BindDevice { chip_select: Signal::ChipSelect }), Outcome::Done);
    assert_eq!(board.line(Signal::ChipSelect), Line::Lent);
}

#[test]
fn released_line_floats() {
    let mut board = Board::new();
    board.perform(Action::TakePeripherals);
    board.perform(Action::ConfigureOutput(Signal::Backlight));
    board.perform(Action::DriveHigh(Signal::Backlight));
    assert_eq!(board.level(Signal::Backlight), Some(true));
    board.release(Signal::Backlight);
    assert_eq!(board.line(Signal::Backlight), Line::Free);
    assert_eq!(board.level(Signal::Backlight), None);
}

#[test]
fn detached_line_keeps_its_level() {
    let mut board = Board::new();
    board.perform(Action::TakePeripherals);
    board.perform(Action::ConfigureOutput(Signal::Backlight));
    board.perform(Action::DriveHigh(Signal::Backlight));
    assert_eq!(board.perform(Action::Detach(Signal::Backlight)), Outcome::Done);
    board.release(Signal::Backlight);
    assert_eq!(board.line(Signal::Backlight), Line::Latched { high: true });
    assert_eq!(board.level(Signal::Backlight), Some(true));
}

#[test]
fn backlight_stays_on_whatever_comes_after() {
    let mut board = lit_board();
    let attempts = [
        Action::ConfigureOutput(Signal::Backlight),
        Action::DriveHigh(Signal::Backlight),
        Action::Detach(Signal::Backlight),
        Action::BindDevice { chip_select: Signal::Backlight },
        Action::BindTransport { data_command: Signal::Backlight },
        Action::InitController { model: Model::Ili9341Rgb565, reset: Signal::Backlight },
        Action::OpenBus { clock: Signal::Backlight, data_out: Signal::SerialIn, dma: false },
        Action::TakePeripherals,
        Action::Sleep { millis: 1000 },
    ];
    for attempt in attempts {
        board.perform(attempt);
        assert_eq!(board.line(Signal::Backlight), Line::Latched { high: true });
        assert_eq!(board.level(Signal::Backlight), Some(true));
    }
    for signal in ALL_SIGNALS {
        board.release(signal);
        assert_eq!(board.line(Signal::Backlight), Line::Latched { high: true });
    }
}

#[test]
fn detached_low_line_stays_low() {
    let mut board = Board::new();
    board.perform(Action::TakePeripherals);
    board.perform(Action::ConfigureOutput(Signal::Reset));
    board.perform(Action::Detach(Signal::Reset));
    assert_eq!(board.line(Signal::Reset), Line::Latched { high: false });
    assert_eq!(board.perform(Action::DriveHigh(Signal::Reset)), Outcome::Failed);
    assert_eq!(board.perform(Action::ConfigureOutput(Signal::Reset)), Outcome::Refused);
    assert_eq!(board.level(Signal::Reset), Some(false));
}

#[test]
fn smiley_is_drawn_on_a_ready_board() {
    let mut board = lit_board();
    assert_eq!(draw_smiley(&mut board), Ok(()));
    let mut expected = frame_ops();
    expected.extend(smiley_ops());
    assert_eq!(*board.surface(), expected);
}

#[test]
fn smiley_fails_before_the_controller_is_ready() {
    let mut board = board_with_transport();
    assert_eq!(draw_smiley(&mut board), Err(FatalError::DrawOperation));
    assert!(board.surface().is_empty());
    let mut fresh = Board::new();
    assert_eq!(draw_smiley(&mut fresh), Err(FatalError::DrawOperation));
}

#[test]
fn draw_all_makes_the_calls_in_order() {
    let mut board = lit_board();
    let ops = vec![frame_ops()[6], frame_ops()[0]];
    assert_eq!(draw_all(&mut board, &ops), Ok(()));
    let surface = board.surface();
    assert_eq!(surface.len(), 9);
    assert_eq!(surface[7], frame_ops()[6]);
    assert_eq!(surface[8], frame_ops()[0]);
    let mut fresh = Board::new();
    assert_eq!(draw_all(&mut fresh, &Vec::new()), Ok(()));
    assert_eq!(draw_all(&mut fresh, &ops), Err(FatalError::DrawOperation));
}

#[test]
fn log_and_runtime_steps_always_succeed() {
    let mut board = Board::new();
    assert_eq!(board.perform(Action::StartRuntime), Outcome::Done);
    assert_eq!(board.perform(Action::Log(Note::Finished)), Outcome::Done);
    assert_eq!(board.perform(Action::Sleep { millis: 1000 }), Outcome::Done);
    assert_eq!(*board.log(), vec![Note::Finished]);
    assert!(!board.peripherals_taken());
}
