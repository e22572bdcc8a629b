//! The fixed program: every step from power-up to the idle loop, in order.

use vstd::prelude::*;
use crate::scene::{frame, frame_op, DrawOp, FRAME_LEN};

verus! {

/// The signals between the controller board and the panel.
#[derive(Clone, Copy, Debug, PartialEq, Eq, Structural)]
pub enum Signal {
    /// Holds the panel's controller in reset while low.
    Reset,
    /// Tells the controller whether a byte is a command or data.
    DataCommand,
    /// Clock of the serial bus.
    SerialClock,
    /// Data from the host to the panel.
    SerialOut,
    /// Data from the panel to the host. It has a pin but the bus does not use it.
    SerialIn,
    /// Selects the panel on the bus.
    ChipSelect,
    /// Switches the backlight on while high.
    Backlight,
}

impl Signal {
    /// The number of the pin that carries the signal.
    pub open spec fn spec_pin(self) -> u8 {
        match self {
            Signal::Reset => 4,
            Signal::DataCommand => 2,
            Signal::SerialClock => 14,
            Signal::SerialOut => 13,
            Signal::SerialIn => 12,
            Signal::ChipSelect => 15,
            Signal::Backlight => 21,
        }
    }

    /// The number of the pin that carries the signal.
    #[verifier::when_used_as_spec(spec_pin)]
    pub fn pin(self) -> (pin: u8)
        ensures
            pin == self.spec_pin(),
    {
        match self {
            Signal::Reset => 4,
            Signal::DataCommand => 2,
            Signal::SerialClock => 14,
            Signal::SerialOut => 13,
            Signal::SerialIn => 12,
            Signal::ChipSelect => 15,
            Signal::Backlight => 21,
        }
    }
}

/// No two signals share a pin.
pub proof fn signals_are_distinct(a: Signal, b: Signal)
    requires
        a != b,
    ensures
        a.spec_pin() != b.spec_pin(),
{
}

/// The two lines that are written to the log.
#[derive(Clone, Copy, Debug, PartialEq, Eq, Structural)]
pub enum Note {
    Starting,
    Finished,
}

impl Note {
    /// The characters of the line.
    pub open spec fn chars(self) -> Seq<char> {
        match self {
            Note::Starting => seq!['S', 't', 'a', 'r', 't', 'i', 'n', 'g', '.', '.', '.'],
            Note::Finished => seq!['T', 'h', 'e', ' ', 'e', 'n', 'd', '.'],
        }
    }

    /// The line as a string.
    pub fn as_str(self) -> (s: &'static str)
        ensures
            s@ == self.chars(),
    {
        proof {
            reveal_strlit("Starting...");
            reveal_strlit("The end.");
        }
        match self {
            Note::Starting => {
                assert("Starting..."@ =~= self.chars());
                "Starting..."
            },
            Note::Finished => {
                assert("The end."@ =~= self.chars());
                "The end."
            },
        }
    }
}

/// The controllers that the program can bring up.
#[derive(Clone, Copy, Debug, PartialEq, Eq, Structural)]
pub enum Model {
    /// An ILI9341 behind a panel of 240 by 320 pixels, with 16 bits for each
    /// pixel.
    Ili9341Rgb565,
}

/// Clock rate of the serial bus.
pub const BUS_HERTZ: u32 = 40_000_000;

/// Length of one sleep of the idle loop.
pub const IDLE_MILLIS: u32 = 1000;

/// One step of the program: something the driver loop does to the hardware.
#[derive(Clone, Copy, Debug, PartialEq, Eq)]
pub enum Action {
    /// Prepare the runtime and bind the log to it.
    StartRuntime,
    /// Write a line to the log.
    Log(Note),
    /// Take the one set of peripherals that the chip has.
    TakePeripherals,
    /// Claim the signal's pin and make it a digital output. It starts low.
    ConfigureOutput(Signal),
    /// Drive a claimed output high.
    DriveHigh(Signal),
    /// Claim the serial peripheral with its clock and data pins. `dma` says
    /// whether transfers go through direct memory access.
    OpenBus { clock: Signal, data_out: Signal, dma: bool },
    /// Put a bus driver with the given clock rate on the open bus.
    ClockBus { hertz: u32 },
    /// Pair the bus with the chip select line into a device that nothing else
    /// shares, with no delay between transactions. The line goes to the device.
    BindDevice { chip_select: Signal },
    /// Wrap the device and the data/command line into the transport that the
    /// controller's commands go through. The line goes to the transport.
    BindTransport { data_command: Signal },
    /// Hand the transport and the reset line to the driver of the controller and
    /// run its start-up sequence. The first bytes cross the bus here.
    InitController { model: Model, reset: Signal },
    /// Give up the handle of a claimed output without releasing the pin, so that
    /// the pin keeps its level for good.
    Detach(Signal),
    /// Make one call on the drawing surface.
    Draw(DrawOp),
    /// Sleep for the given time.
    Sleep { millis: u32 },
}

/// What the driver loop reports after it has carried out an action.
#[derive(Clone, Copy, Debug, PartialEq, Eq, Structural)]
pub enum Outcome {
    /// The action was carried out.
    Done,
    /// The action asked for something that already has an owner.
    Refused,
    /// The action failed for another reason.
    Failed,
}

/// Why the program stopped. Each of these ends it: nothing is tried again.
#[derive(Clone, Copy, Debug, PartialEq, Eq, Structural)]
pub enum FatalError {
    /// The peripherals, a pin or the bus already had an owner.
    ResourceAlreadyClaimed,
    /// A pin could not be configured or driven.
    PinConfiguration,
    /// The bus could not be put together.
    BusConstruction,
    /// The controller did not come up.
    ControllerHandshake,
    /// A call on the drawing surface failed.
    DrawOperation,
}

impl Action {
    /// Whether the action takes ownership of something that can have one owner
    /// only: the peripherals, a pin, or the bus.
    pub open spec fn spec_claims(self) -> bool {
        match self {
            Action::TakePeripherals => true,
            Action::ConfigureOutput(_) => true,
            Action::OpenBus { .. } => true,
            _ => false,
        }
    }

    /// Whether the action takes ownership of something that can have one owner
    /// only: the peripherals, a pin, or the bus.
    #[verifier::when_used_as_spec(spec_claims)]
    pub fn claims(self) -> (claims: bool)
        ensures
            claims == self.spec_claims(),
    {
        match self {
            Action::TakePeripherals => true,
            Action::ConfigureOutput(_) => true,
            Action::OpenBus { .. } => true,
            _ => false,
        }
    }

    /// The error that ends the program when the action fails; `None` for an
    /// action that cannot fail.
    pub open spec fn spec_failure(self) -> Option<FatalError> {
        match self {
            Action::StartRuntime => None,
            Action::Log(_) => None,
            Action::TakePeripherals => Some(FatalError::ResourceAlreadyClaimed),
            Action::ConfigureOutput(_) => Some(FatalError::PinConfiguration),
            Action::DriveHigh(_) => Some(FatalError::PinConfiguration),
            Action::OpenBus { .. } => Some(FatalError::BusConstruction),
            Action::ClockBus { .. } => Some(FatalError::BusConstruction),
            Action::BindDevice { .. } => Some(FatalError::BusConstruction),
            Action::BindTransport { .. } => Some(FatalError::BusConstruction),
            Action::InitController { .. } => Some(FatalError::ControllerHandshake),
            Action::Detach(_) => Some(FatalError::PinConfiguration),
            Action::Draw(_) => Some(FatalError::DrawOperation),
            Action::Sleep { .. } => None,
        }
    }

    /// The error that ends the program when the action fails; `None` for an
    /// action that cannot fail.
    #[verifier::when_used_as_spec(spec_failure)]
    pub fn failure(self) -> (error: Option<FatalError>)
        ensures
            error == self.spec_failure(),
    {
        match self {
            Action::StartRuntime => None,
            Action::Log(_) => None,
            Action::TakePeripherals => Some(FatalError::ResourceAlreadyClaimed),
            Action::ConfigureOutput(_) => Some(FatalError::PinConfiguration),
            Action::DriveHigh(_) => Some(FatalError::PinConfiguration),
            Action::OpenBus { .. } => Some(FatalError::BusConstruction),
            Action::ClockBus { .. } => Some(FatalError::BusConstruction),
            Action::BindDevice { .. } => Some(FatalError::BusConstruction),
            Action::BindTransport { .. } => Some(FatalError::BusConstruction),
            Action::InitController { .. } => Some(FatalError::ControllerHandshake),
            Action::Detach(_) => Some(FatalError::PinConfiguration),
            Action::Draw(_) => Some(FatalError::DrawOperation),
            Action::Sleep { .. } => None,
        }
    }
}

/// Number of steps before the first call on the drawing surface.
pub const BRING_UP_LEN: usize = 15;

/// Number of steps before the idle loop.
pub const PROGRAM_LEN: usize = 23;

/// The steps that bring the panel up, from the runtime to the backlight.
pub open spec fn bring_up() -> Seq<Action> {
    seq![
        Action::StartRuntime,
        Action::Log(Note::Starting),
        Action::TakePeripherals,
        Action::ConfigureOutput(Signal::Reset),
        Action::DriveHigh(Signal::Reset),
        Action::ConfigureOutput(Signal::DataCommand),
        Action::ConfigureOutput(Signal::ChipSelect),
        Action::OpenBus { clock: Signal::SerialClock, data_out: Signal::SerialOut, dma: false },
        Action::ClockBus { hertz: 40_000_000 },
        Action::BindDevice { chip_select: Signal::ChipSelect },
        Action::BindTransport { data_command: Signal::DataCommand },
        Action::InitController { model: Model::Ili9341Rgb565, reset: Signal::Reset },
        Action::ConfigureOutput(Signal::Backlight),
        Action::DriveHigh(Signal::Backlight),
        Action::Detach(Signal::Backlight),
    ]
}

/// The whole program up to the idle loop: the bring-up, the frame call by call,
/// and the closing line of the log.
pub open spec fn program() -> Seq<Action> {
    bring_up() + frame().map_values(|op: DrawOp| Action::Draw(op)) + seq![
        Action::Log(Note::Finished),
    ]
}

/// The one step of the idle loop, which is repeated for ever.
pub open spec fn idle_action() -> Action {
    Action::Sleep { millis: 1000 }
}

/// The step at place `index` of the program.
pub fn program_step(index: usize) -> (action: Action)
    requires
        index < PROGRAM_LEN,
    ensures
        action == program()[index as int],
{
    proof {
        crate::scene::frame_shape();
    }
    if index >= BRING_UP_LEN && index < BRING_UP_LEN + FRAME_LEN {
        Action::Draw(frame_op(index - BRING_UP_LEN))
    } else if index == 0 {
        Action::StartRuntime
    } else if index == 1 {
        Action::Log(Note::Starting)
    } else if index == 2 {
        Action::TakePeripherals
    } else if index == 3 {
        Action::ConfigureOutput(Signal::Reset)
    } else if index == 4 {
        Action::DriveHigh(Signal::Reset)
    } else if index == 5 {
        Action::ConfigureOutput(Signal::DataCommand)
    } else if index == 6 {
        Action::ConfigureOutput(Signal::ChipSelect)
    } else if index == 7 {
        Action::OpenBus { clock: Signal::SerialClock, data_out: Signal::SerialOut, dma: false }
    } else if index == 8 {
        Action::ClockBus { hertz: BUS_HERTZ }
    } else if index == 9 {
        Action::BindDevice { chip_select: Signal::ChipSelect }
    } else if index == 10 {
        Action::BindTransport { data_command: Signal::DataCommand }
    } else if index == 11 {
        Action::InitController { model: Model::Ili9341Rgb565, reset: Signal::Reset }
    } else if index == 12 {
        Action::ConfigureOutput(Signal::Backlight)
    } else if index == 13 {
        Action::DriveHigh(Signal::Backlight)
    } else if index == 14 {
        Action::Detach(Signal::Backlight)
    } else {
        Action::Log(Note::Finished)
    }
}

/// The step of the idle loop.
pub fn idle_step() -> (action: Action)
    ensures
        action == idle_action(),
{
    Action::Sleep { millis: IDLE_MILLIS }
}

/// The program has twenty-three steps; the frame stands behind the bring-up,
/// call by call, and the closing line of the log is the last step.
pub proof fn program_shape()
    ensures
        bring_up().len() == BRING_UP_LEN,
        program().len() == PROGRAM_LEN,
        forall|i: int| 0 <= i < BRING_UP_LEN ==> #[trigger] program()[i] == bring_up()[i],
        forall|i: int|
            BRING_UP_LEN <= i < BRING_UP_LEN + FRAME_LEN ==> #[trigger] program()[i]
                == Action::Draw(frame()[i - BRING_UP_LEN]),
        program()[PROGRAM_LEN - 1] == Action::Log(Note::Finished),
{
    crate::scene::frame_shape();
}

} // verus!
