//! The driver loop on the model board.

use vstd::prelude::*;
use crate::board::{Board, BoardState, Bus, Line};
use crate::program::{Action, FatalError, Model, Note};
use crate::scene::{frame, smiley, smiley_ops, DrawOp};
use crate::sequencer::{verdict, Phase, Sequencer};

verus! {

/// Where the sequencer and the board stand after the driver loop has gone round
/// `steps` times, or fewer if the program stopped before: each time the action of
/// the phase is carried out on the board, and the outcome decides the next phase.
pub open spec fn driven(phase: Phase, board: BoardState, steps: nat) -> (Phase, BoardState)
    decreases steps,
{
    if steps == 0 {
        (phase, board)
    } else {
        match phase.action() {
            None => (phase, board),
            Some(action) => {
                let (next, outcome) = board.step(action);
                driven(phase.after(outcome), next, (steps - 1) as nat)
            },
        }
    }
}

/// Runs the driver loop on the board, `steps` times at most. It ends early when
/// the program has stopped.
pub fn drive(sequencer: &mut Sequencer, board: &mut Board, steps: usize)
    ensures
        (final(sequencer)@, final(board)@) == driven(old(sequencer)@, old(board)@, steps as nat),
{
    let mut left: usize = steps;
    while left > 0
        invariant
            driven(sequencer@, board@, left as nat) == driven(
                old(sequencer)@,
                old(board)@,
                steps as nat,
            ),
        decreases left,
    {
        match sequencer.next_action() {
            None => {
                left = 0;
            },
            Some(action) => {
                let outcome = board.perform(action);
                sequencer.advance(outcome);
                left = left - 1;
            },
        }
    }
}

/// The board after the whole program has run on a board fresh from power-up.
pub open spec fn lit_board() -> BoardState {
    BoardState {
        taken: true,
        reset: Line::Lent,
        data_command: Line::Lent,
        serial_clock: Line::Lent,
        serial_out: Line::Lent,
        serial_in: Line::Free,
        chip_select: Line::Lent,
        backlight: Line::Latched { high: true },
        bus: Bus::Ready,
        model: Some(Model::Ili9341Rgb565),
        hertz: 40_000_000,
        dma: false,
        surface: frame(),
        log: seq![Note::Starting, Note::Finished],
    }
}

/// Makes the calls of `ops` on the board's drawing surface, in order, and stops at
/// the first that fails. The surface takes calls once the controller is ready, so
/// either all calls are made or none is.
pub fn draw_all(board: &mut Board, ops: &Vec<DrawOp>) -> (result: Result<(), FatalError>)
    ensures
        result is Ok <==> old(board)@.bus == Bus::Ready || ops@.len() == 0,
        result is Ok ==> final(board)@ == (BoardState {
            surface: old(board)@.surface + ops@,
            ..old(board)@
        }),
        result is Err ==> result == Err::<(), FatalError>(FatalError::DrawOperation),
        result is Err ==> final(board)@ == old(board)@,
{
    let mut made: usize = 0;
    while made < ops.len()
        invariant
            made <= ops@.len(),
            made > 0 ==> old(board)@.bus == Bus::Ready,
            board@ == (BoardState {
                surface: old(board)@.surface + ops@.take(made as int),
                ..old(board)@
            }),
        decreases ops@.len() - made,
    {
        assert(old(board)@.surface + ops@.take(0) =~= old(board)@.surface);
        let action = Action::Draw(ops[made]);
        let outcome = board.perform(action);
        match verdict(action, outcome) {
            Some(error) => {
                return Err(error);
            },
            None => {
                assert(old(board)@.surface + ops@.take(made + 1) =~= (old(board)@.surface
                    + ops@.take(made as int)).push(ops@[made as int]));
                made = made + 1;
            },
        }
    }
    assert(ops@.take(made as int) =~= ops@);
    Ok(())
}

/// Draws the face on the board: the two eyes, the mouth, and the cover over the
/// mouth, in this order. It fails, and draws nothing, unless the controller is
/// ready.
pub fn draw_smiley(board: &mut Board) -> (result: Result<(), FatalError>)
    ensures
        result is Ok <==> old(board)@.bus == Bus::Ready,
        result is Ok ==> final(board)@ == (BoardState {
            surface: old(board)@.surface + smiley(),
            ..old(board)@
        }),
        result is Err ==> result == Err::<(), FatalError>(FatalError::DrawOperation),
        result is Err ==> final(board)@ == old(board)@,
{
    let ops = smiley_ops();
    draw_all(board, &ops)
}

} // verus!
