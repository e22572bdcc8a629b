//! Bring-up and first frame of an ILI9341 panel on a serial bus, as a verified
//! sequencer.
//!
//! The library decides *what* is done and in which order: which lines are claimed
//! and driven, how the bus is assembled, which primitives make up the frame, and
//! what happens when a step fails. It touches no hardware itself. A driver loop
//! asks the [`sequencer::Sequencer`] for the next [`program::Action`], carries it
//! out, and reports the [`program::Outcome`]. The [`board::Board`] is a model of
//! the hardware on which the same program can be run and reasoned about.

pub mod board;
pub mod color;
pub mod geometry;
pub mod laws;
pub mod program;
pub mod scene;
pub mod sequencer;
pub mod simulation;

