//! A model of the hardware: who owns which pin, how far the bus is assembled,
//! and what was drawn. The program can be run on it in place of a real board.

use vstd::prelude::*;
use crate::program::{Action, Model, Note, Outcome, Signal};
use crate::scene::DrawOp;

verus! {

/// The state of one pin.
#[derive(Clone, Copy, Debug, PartialEq, Eq)]
pub enum Line {
    /// Nothing owns the pin. It is an input and floats.
    Free,
    /// A handle owns the pin and drives it as an output.
    Held { high: bool },
    /// The pin belongs to the bus, the device, the transport or the controller's
    /// driver, which drives it as it sees fit.
    Lent,
    /// The pin is an output at a fixed level and no handle to it is left: it
    /// cannot be driven, released or claimed again.
    Latched { high: bool },
}

/// How far the path to the panel is assembled.
#[derive(Clone, Copy, Debug, PartialEq, Eq, Structural)]
pub enum Bus {
    /// The serial peripheral has no owner.
    Closed,
    /// The serial peripheral is claimed with its pins.
    Open,
    /// A bus driver with a clock rate is on the peripheral.
    Clocked,
    /// The bus is paired with the chip select line.
    Device,
    /// The transport with the data/command line is on the device.
    Transport,
    /// The controller is initialised and takes drawing calls.
    Ready,
}

/// The state of the board as contracts speak of it.
pub struct BoardState {
    /// Whether the set of peripherals was taken.
    pub taken: bool,
    pub reset: Line,
    pub data_command: Line,
    pub serial_clock: Line,
    pub serial_out: Line,
    pub serial_in: Line,
    pub chip_select: Line,
    pub backlight: Line,
    pub bus: Bus,
    /// The controller that was brought up, once one was.
    pub model: Option<Model>,
    /// The clock rate of the bus; zero until it has one.
    pub hertz: u32,
    /// Whether the bus transfers through direct memory access.
    pub dma: bool,
    /// The calls on the drawing surface, oldest first.
    pub surface: Seq<DrawOp>,
    /// The lines of the log, oldest first.
    pub log: Seq<Note>,
}

impl BoardState {
    /// The board at power-up.
    pub open spec fn fresh() -> BoardState {
        BoardState {
            taken: false,
            reset: Line::Free,
            data_command: Line::Free,
            serial_clock: Line::Free,
            serial_out: Line::Free,
            serial_in: Line::Free,
            chip_select: Line::Free,
            backlight: Line::Free,
            bus: Bus::Closed,
            model: None,
            hertz: 0,
            dma: false,
            surface: Seq::empty(),
            log: Seq::empty(),
        }
    }

    /// The state of the signal's pin.
    pub open spec fn line(self, signal: Signal) -> Line {
        match signal {
            Signal::Reset => self.reset,
            Signal::DataCommand => self.data_command,
            Signal::SerialClock => self.serial_clock,
            Signal::SerialOut => self.serial_out,
            Signal::SerialIn => self.serial_in,
            Signal::ChipSelect => self.chip_select,
            Signal::Backlight => self.backlight,
        }
    }

    /// The state with the signal's pin changed to `line`.
    pub open spec fn with_line(self, signal: Signal, line: Line) -> BoardState {
        match signal {
            Signal::Reset => BoardState { reset: line, ..self },
            Signal::DataCommand => BoardState { data_command: line, ..self },
            Signal::SerialClock => BoardState { serial_clock: line, ..self },
            Signal::SerialOut => BoardState { serial_out: line, ..self },
            Signal::SerialIn => BoardState { serial_in: line, ..self },
            Signal::ChipSelect => BoardState { chip_select: line, ..self },
            Signal::Backlight => BoardState { backlight: line, ..self },
        }
    }

    /// Whether a handle owns the signal's pin.
    pub open spec fn held(self, signal: Signal) -> bool {
        self.line(signal) is Held
    }

    /// The level of the signal's pin, where the board knows it.
    pub open spec fn level(self, signal: Signal) -> Option<bool> {
        match self.line(signal) {
            Line::Held { high } => Some(high),
            Line::Latched { high } => Some(high),
            _ => None,
        }
    }

    /// What an action does to the board, and what it reports.
    ///
    /// A claim of something that has an owner is refused. An action that lacks
    /// what it builds on fails. Neither changes the board.
    pub open spec fn step(self, action: Action) -> (BoardState, Outcome) {
        match action {
            Action::StartRuntime => (self, Outcome::Done),
            Action::Log(note) => (BoardState { log: self.log.push(note), ..self }, Outcome::Done),
            Action::TakePeripherals => if self.taken {
                (self, Outcome::Refused)
            } else {
                (BoardState { taken: true, ..self }, Outcome::Done)
            },
            Action::ConfigureOutput(signal) => if !self.taken {
                (self, Outcome::Failed)
            } else if !(self.line(signal) is Free) {
                (self, Outcome::Refused)
            } else {
                (self.with_line(signal, Line::Held { high: false }), Outcome::Done)
            },
            Action::DriveHigh(signal) => if self.held(signal) {
                (self.with_line(signal, Line::Held { high: true }), Outcome::Done)
            } else {
                (self, Outcome::Failed)
            },
            Action::OpenBus { clock, data_out, dma } => if !self.taken || clock == data_out {
                (self, Outcome::Failed)
            } else if self.bus != Bus::Closed || !(self.line(clock) is Free) || !(self.line(
                data_out,
            ) is Free) {
                (self, Outcome::Refused)
            } else {
                (
                    BoardState { bus: Bus::Open, dma, ..self }.with_line(
                        clock,
                        Line::Lent,
                    ).with_line(data_out, Line::Lent),
                    Outcome::Done,
                )
            },
            Action::ClockBus { hertz } => if self.bus == Bus::Open && hertz > 0 {
                (BoardState { bus: Bus::Clocked, hertz, ..self }, Outcome::Done)
            } else {
                (self, Outcome::Failed)
            },
            Action::BindDevice { chip_select } => if self.bus == Bus::Clocked && self.held(
                chip_select,
            ) {
                (
                    BoardState { bus: Bus::Device, ..self }.with_line(chip_select, Line::Lent),
                    Outcome::Done,
                )
            } else {
                (self, Outcome::Failed)
            },
            Action::BindTransport { data_command } => if self.bus == Bus::Device && self.held(
                data_command,
            ) {
                (
                    BoardState { bus: Bus::Transport, ..self }.with_line(data_command, Line::Lent),
                    Outcome::Done,
                )
            } else {
                (self, Outcome::Failed)
            },
            Action::InitController { model, reset } => if self.bus == Bus::Transport && self.line(
                reset,
            ) == (Line::Held { high: true }) {
                (
                    BoardState { bus: Bus::Ready, model: Some(model), ..self }.with_line(
                        reset,
                        Line::Lent,
                    ),
                    Outcome::Done,
                )
            } else {
                (self, Outcome::Failed)
            },
            Action::Detach(signal) => match self.line(signal) {
                Line::Held { high } => (
                    self.with_line(signal, Line::Latched { high }),
                    Outcome::Done,
                ),
                _ => (self, Outcome::Failed),
            },
            Action::Draw(op) => if self.bus == Bus::Ready {
                (BoardState { surface: self.surface.push(op), ..self }, Outcome::Done)
            } else {
                (self, Outcome::Failed)
            },
            Action::Sleep { .. } => (self, Outcome::Done),
        }
    }

    /// What the end of a handle's life does to the board: a pin that a handle
    /// holds goes back to a floating input, and any other pin stays as it is.
    pub open spec fn release(self, signal: Signal) -> BoardState {
        if self.held(signal) {
            self.with_line(signal, Line::Free)
        } else {
            self
        }
    }
}

/// The board that the program can be run on.
pub struct Board {
    taken: bool,
    reset: Line,
    data_command: Line,
    serial_clock: Line,
    serial_out: Line,
    serial_in: Line,
    chip_select: Line,
    backlight: Line,
    bus: Bus,
    model: Option<Model>,
    hertz: u32,
    dma: bool,
    surface: Vec<DrawOp>,
    log: Vec<Note>,
}

impl View for Board {
    type V = BoardState;

    closed spec fn view(&self) -> BoardState {
        BoardState {
            taken: self.taken,
            reset: self.reset,
            data_command: self.data_command,
            serial_clock: self.serial_clock,
            serial_out: self.serial_out,
            serial_in: self.serial_in,
            chip_select: self.chip_select,
            backlight: self.backlight,
            bus: self.bus,
            model: self.model,
            hertz: self.hertz,
            dma: self.dma,
            surface: self.surface@,
            log: self.log@,
        }
    }
}

impl Board {
    /// The board at power-up: nothing is claimed, nothing is drawn.
    pub fn new() -> (board: Board)
        ensures
            board@ == BoardState::fresh(),
    {
        Board {
            taken: false,
            reset: Line::Free,
            data_command: Line::Free,
            serial_clock: Line::Free,
            serial_out: Line::Free,
            serial_in: Line::Free,
            chip_select: Line::Free,
            backlight: Line::Free,
            bus: Bus::Closed,
            model: None,
            hertz: 0,
            dma: false,
            surface: Vec::new(),
            log: Vec::new(),
        }
    }

    /// The state of the signal's pin.
    pub fn line(&self, signal: Signal) -> (line: Line)
        ensures
            line == self@.line(signal),
    {
        match signal {
            Signal::Reset => self.reset,
            Signal::DataCommand => self.data_command,
            Signal::SerialClock => self.serial_clock,
            Signal::SerialOut => self.serial_out,
            Signal::SerialIn => self.serial_in,
            Signal::ChipSelect => self.chip_select,
            Signal::Backlight => self.backlight,
        }
    }

    /// The level of the signal's pin, where the board knows it.
    pub fn level(&self, signal: Signal) -> (level: Option<bool>)
        ensures
            level == self@.level(signal),
    {
        match self.line(signal) {
            Line::Held { high } => Some(high),
            Line::Latched { high } => Some(high),
            _ => None,
        }
    }

    /// Whether the set of peripherals was taken.
    pub fn peripherals_taken(&self) -> (taken: bool)
        ensures
            taken == self@.taken,
    {
        self.taken
    }

    /// How far the path to the panel is assembled.
    pub fn bus(&self) -> (bus: Bus)
        ensures
            bus == self@.bus,
    {
        self.bus
    }

    /// The controller that was brought up, once one was.
    pub fn model(&self) -> (model: Option<Model>)
        ensures
            model == self@.model,
    {
        self.model
    }

    /// The clock rate of the bus; zero until it has one.
    pub fn bus_hertz(&self) -> (hertz: u32)
        ensures
            hertz == self@.hertz,
    {
        self.hertz
    }

    /// Whether the bus transfers through direct memory access.
    pub fn bus_dma(&self) -> (dma: bool)
        ensures
            dma == self@.dma,
    {
        self.dma
    }

    /// The calls on the drawing surface, oldest first.
    pub fn surface(&self) -> (ops: &Vec<DrawOp>)
        ensures
            ops@ == self@.surface,
    {
        &self.surface
    }

    /// The lines of the log, oldest first.
    pub fn log(&self) -> (notes: &Vec<Note>)
        ensures
            notes@ == self@.log,
    {
        &self.log
    }

    fn set_line(&mut self, signal: Signal, line: Line)
        ensures
            final(self)@ == old(self)@.with_line(signal, line),
    {
        match signal {
            Signal::Reset => {
                self.reset = line;
            },
            Signal::DataCommand => {
                self.data_command = line;
            },
            Signal::SerialClock => {
                self.serial_clock = line;
            },
            Signal::SerialOut => {
                self.serial_out = line;
            },
            Signal::SerialIn => {
                self.serial_in = line;
            },
            Signal::ChipSelect => {
                self.chip_select = line;
            },
            Signal::Backlight => {
                self.backlight = line;
            },
        }

    }

    /// Carries out one action on the board.
    pub fn perform(&mut self, action: Action) -> (outcome: Outcome)
        ensures
            final(self)@ == old(self)@.step(action).0,
            outcome == old(self)@.step(action).1,
    {
        match action {
            Action::StartRuntime => Outcome::Done,
            Action::Log(note) => {
                self.log.push(note);
                Outcome::Done
            },
            Action::TakePeripherals => {
                if self.taken {
                    Outcome::Refused
                } else {
                    self.taken = true;
                    Outcome::Done
                }
            },
            Action::ConfigureOutput(signal) => {
                if !self.taken {
                    Outcome::Failed
                } else {
                    match self.line(signal) {
                        Line::Free => {
                            self.set_line(signal, Line::Held { high: false });
                            Outcome::Done
                        },
                        _ => Outcome::Refused,
                    }
                }
            },
            Action::DriveHigh(signal) => {
                match self.line(signal) {
                    Line::Held { .. } => {
                        self.set_line(signal, Line::Held { high: true });
                        Outcome::Done
                    },
                    _ => Outcome::Failed,
                }
            },
            Action::OpenBus { clock, data_out, dma } => {
                if !self.taken || clock == data_out {
                    Outcome::Failed
                } else {
                    let closed = self.bus == Bus::Closed;
                    match (closed, self.line(clock), self.line(data_out)) {
                        (true, Line::Free, Line::Free) => {
                            self.bus = Bus::Open;
                            self.dma = dma;
                            self.set_line(clock, Line::Lent);
                            self.set_line(data_out, Line::Lent);
                            Outcome::Done
                        },
                        _ => Outcome::Refused,
                    }
                }
            },
            Action::ClockBus { hertz } => {
                if self.bus == Bus::Open && hertz > 0 {
                    self.bus = Bus::Clocked;
                    self.hertz = hertz;
                    Outcome::Done
                } else {
                    Outcome::Failed
                }
            },
            Action::BindDevice { chip_select } => {
                let clocked = self.bus == Bus::Clocked;
                match (clocked, self.line(chip_select)) {
                    (true, Line::Held { .. }) => {
                        self.bus = Bus::Device;
                        self.set_line(chip_select, Line::Lent);
                        Outcome::Done
                    },
                    _ => Outcome::Failed,
                }
            },
            Action::BindTransport { data_command } => {
                let bound = self.bus == Bus::Device;
                match (bound, self.line(data_command)) {
                    (true, Line::Held { .. }) => {
                        self.bus = Bus::Transport;
                        self.set_line(data_command, Line::Lent);
                        Outcome::Done
                    },
                    _ => Outcome::Failed,
                }
            },
            Action::InitController { model, reset } => {
                let wrapped = self.bus == Bus::Transport;
                match (wrapped, self.line(reset)) {
                    (true, Line::Held { high: true }) => {
                        self.bus = Bus::Ready;
                        self.model = Some(model);
                        self.set_line(reset, Line::Lent);
                        Outcome::Done
                    },
                    _ => Outcome::Failed,
                }
            },
            Action::Detach(signal) => {
                match self.line(signal) {
                    Line::Held { high } => {
                        self.set_line(signal, Line::Latched { high });
                        Outcome::Done
                    },
                    _ => Outcome::Failed,
                }
            },
            Action::Draw(op) => {
                if self.bus == Bus::Ready {
                    self.surface.push(op);
                    Outcome::Done
                } else {
                    Outcome::Failed
                }
            },
            Action::Sleep { .. } => Outcome::Done,
        }
    }

    /// Ends the life of the handle that holds the signal's pin, if there is one:
    /// the pin goes back to a floating input. A pin without a handle stays as it
    /// is.
    pub fn release(&mut self, signal: Signal)
        ensures
            final(self)@ == old(self)@.release(signal),
    {
        match self.line(signal) {
            Line::Held { .. } => {
                self.set_line(signal, Line::Free);
            },
            _ => {},
        }
    }
}

} // verus!
