//! What holds of every run of the program.

use vstd::prelude::*;
use crate::board::{BoardState, Bus, Line};
use crate::program::{
    bring_up, idle_action, program, program_shape, Action, FatalError, Note, Outcome, Signal,
    BRING_UP_LEN, PROGRAM_LEN,
};
use crate::scene::{frame, frame_shape, DrawOp, FRAME_LEN};
use crate::sequencer::{spec_verdict, Phase};
use crate::simulation::{driven, lit_board};

verus! {

/// The board after the bring-up has run on a board fresh from power-up: the
/// controller is ready, the backlight is on for good, nothing is drawn yet.
pub open spec fn dark_board() -> BoardState {
    BoardState { surface: Seq::empty(), log: seq![Note::Starting], ..lit_board() }
}

/// Going round the driver loop `m + n` times is going round it `m` times and then
/// `n` times.
pub proof fn driven_in_two(phase: Phase, board: BoardState, m: nat, n: nat)
    ensures
        driven(phase, board, m + n) == driven(
            driven(phase, board, m).0,
            driven(phase, board, m).1,
            n,
        ),
    decreases m,
{
    if m == 0 {
    } else {
        match phase.action() {
            None => {
                if n > 0 {
                    assert(driven(phase, board, n) == (phase, board));
                }
            },
            Some(action) => {
                let (next, outcome) = board.step(action);
                driven_in_two(phase.after(outcome), next, (m - 1) as nat, n);
                assert(m + n - 1 == (m - 1) + n);
            },
        }
    }
}

/// On a board fresh from power-up every step of the bring-up is carried out.
pub proof fn bring_up_runs_clean()
    ensures
        driven(Phase::start(), BoardState::fresh(), BRING_UP_LEN as nat) == (
            Phase::Running { step: BRING_UP_LEN },
            dark_board(),
        ),
{
    program_shape();
    reveal_with_fuel(driven, 16);
    assert(dark_board().log =~= Seq::<Note>::empty().push(Note::Starting));
}

/// The idle loop changes nothing: neither the phase nor the board.
pub proof fn idle_changes_nothing(board: BoardState, steps: nat)
    ensures
        driven(Phase::Idle, board, steps) == (Phase::Idle, board),
    decreases steps,
{
    if steps > 0 {
        idle_changes_nothing(board, (steps - 1) as nat);
    }
}

/// On a board whose controller is ready, the calls of the frame that are still
/// to come are all made, in order, and nothing else changes.
pub proof fn frame_is_drawn(board: BoardState, done: nat)
    requires
        board.bus == Bus::Ready,
        done <= FRAME_LEN,
    ensures
        driven(
            Phase::Running { step: (BRING_UP_LEN + done) as usize },
            board,
            (FRAME_LEN - done) as nat,
        ) == (
            Phase::Running { step: (BRING_UP_LEN + FRAME_LEN) as usize },
            BoardState { surface: board.surface + frame().skip(done as int), ..board },
        ),
    decreases FRAME_LEN - done,
{
    program_shape();
    frame_shape();
    if done == FRAME_LEN {
        assert(board.surface + frame().skip(done as int) =~= board.surface);
    } else {
        let phase = Phase::Running { step: (BRING_UP_LEN + done) as usize };
        let op = frame()[done as int];
        assert(program()[BRING_UP_LEN + done] == Action::Draw(op));
        assert(phase.action() == Some(Action::Draw(op)));
        let next = BoardState { surface: board.surface.push(op), ..board };
        assert(board.step(Action::Draw(op)) == (next, Outcome::Done));
        assert(phase.after(Outcome::Done) == Phase::Running {
            step: (BRING_UP_LEN + done + 1) as usize,
        });
        frame_is_drawn(next, done + 1);
        assert(next.surface + frame().skip(done as int + 1) =~= board.surface + frame().skip(
            done as int,
        ));
        assert((FRAME_LEN - done) as nat - 1 == (FRAME_LEN - (done + 1)) as nat);
    }
}

/// On a board fresh from power-up the whole program is carried out: the driver
/// loop reaches the idle loop with the controller ready, the backlight high with
/// no handle left, the whole frame on the surface in order, and both lines in
/// the log. However long the loop goes on after that, nothing changes.
pub proof fn program_runs_clean(steps: nat)
    requires
        steps >= PROGRAM_LEN,
    ensures
        driven(Phase::start(), BoardState::fresh(), steps) == (Phase::Idle, lit_board()),
{
    program_shape();
    frame_shape();
    bring_up_runs_clean();
    let start = Phase::start();
    let fresh = BoardState::fresh();
    let drawing = Phase::Running { step: BRING_UP_LEN };
    let closing = Phase::Running { step: (BRING_UP_LEN + FRAME_LEN) as usize };
    let drawn = BoardState { surface: frame(), ..dark_board() };
    frame_is_drawn(dark_board(), 0);
    assert(dark_board().surface + frame().skip(0) =~= frame());
    assert(driven(drawing, dark_board(), FRAME_LEN as nat) == (closing, drawn));
    driven_in_two(start, fresh, BRING_UP_LEN as nat, FRAME_LEN as nat);
    assert(driven(start, fresh, (BRING_UP_LEN + FRAME_LEN) as nat) == (closing, drawn));
    assert(driven(closing, drawn, 1) == (Phase::Idle, lit_board())) by {
        reveal_with_fuel(driven, 2);
        assert(closing.action() == Some(Action::Log(Note::Finished)));
        assert(drawn.step(Action::Log(Note::Finished)).0.log =~= lit_board().log);
    }
    driven_in_two(start, fresh, (BRING_UP_LEN + FRAME_LEN) as nat, 1);
    assert(driven(start, fresh, PROGRAM_LEN as nat) == (Phase::Idle, lit_board()));
    idle_changes_nothing(lit_board(), (steps - PROGRAM_LEN) as nat);
    driven_in_two(start, fresh, PROGRAM_LEN as nat, (steps - PROGRAM_LEN) as nat);
}

/// The action at place `index` of the unending list of actions: the program, and
/// after it the step of the idle loop again and again.
pub open spec fn unending(index: nat) -> Action {
    if index < PROGRAM_LEN {
        program()[index as int]
    } else {
        idle_action()
    }
}

/// The phase in which the action at place `index` of the unending list is next.
pub open spec fn phase_at(index: nat) -> Phase {
    if index < PROGRAM_LEN {
        Phase::Running { step: index as usize }
    } else {
        Phase::Idle
    }
}

/// Whether every outcome of a run is `Done`.
pub open spec fn all_done(outcomes: Seq<Outcome>) -> bool {
    forall|i: int| 0 <= i < outcomes.len() ==> outcomes[i] == Outcome::Done
}

/// The calls on the drawing surface among a list of actions, in order.
pub open spec fn draws(actions: Seq<Action>) -> Seq<DrawOp>
    decreases actions.len(),
{
    if actions.len() == 0 {
        Seq::empty()
    } else {
        match actions.last() {
            Action::Draw(op) => draws(actions.drop_last()).push(op),
            _ => draws(actions.drop_last()),
        }
    }
}

/// Once the program has stopped, no outcome moves it and no action is handed out.
pub proof fn halt_is_final(error: FatalError, outcomes: Seq<Outcome>)
    ensures
        (Phase::Halted { error }).run(outcomes) == (Phase::Halted { error }),
        (Phase::Halted { error }).issued(outcomes) == Seq::<Action>::empty(),
    decreases outcomes.len(),
{
    if outcomes.len() > 0 {
        halt_is_final(error, outcomes.drop_first());
    }
}

/// A phase and the action it hands out: the action at its place in the unending
/// list. Where the action is carried out the next place follows; where it is not,
/// the program stops with the verdict.
pub proof fn phase_at_steps(index: nat, outcome: Outcome)
    ensures
        phase_at(index).wf(),
        phase_at(index).action() == Some(unending(index)),
        phase_at(index).after(outcome) == match spec_verdict(unending(index), outcome) {
            Some(error) => Phase::Halted { error },
            None => phase_at(index + 1),
        },
{
}

/// In any run that starts at a place of the unending list, whatever the outcomes:
/// the actions are handed out in the order of the list, each has an outcome, and
/// every action before the last was carried out.
pub proof fn issued_follows_program(index: nat, outcomes: Seq<Outcome>, place: int)
    requires
        0 <= place < phase_at(index).issued(outcomes).len(),
    ensures
        place < outcomes.len(),
        phase_at(index).issued(outcomes)[place] == unending((index + place) as nat),
        forall|early: int|
            0 <= early < place ==> spec_verdict(
                unending((index + early) as nat),
                #[trigger] outcomes[early],
            ) is None,
    decreases outcomes.len(),
{
    let phase = phase_at(index);
    phase_at_steps(index, outcomes[0]);
    if place > 0 {
        let rest = outcomes.drop_first();
        let next = phase.after(outcomes[0]);
        assert(phase.issued(outcomes) == seq![unending(index)] + next.issued(rest));
        match spec_verdict(unending(index), outcomes[0]) {
            Some(error) => {
                halt_is_final(error, rest);
            },
            None => {
                issued_follows_program(index + 1, rest, place - 1);
                assert forall|early: int| 0 <= early < place implies spec_verdict(
                    unending((index + early) as nat),
                    #[trigger] outcomes[early],
                ) is None by {
                    if early > 0 {
                        assert(outcomes[early] == rest[early - 1]);
                        assert(index + early == index + 1 + (early - 1));
                    }
                }
            },
        }
    }
}

/// In a run that starts at a place of the unending list: an action that is not
/// carried out is the last one handed out, and the run ends halted with the
/// verdict on it.
pub proof fn failure_ends_the_run(index: nat, outcomes: Seq<Outcome>, place: int)
    requires
        0 <= place < phase_at(index).issued(outcomes).len(),
        place < outcomes.len(),
        spec_verdict(unending((index + place) as nat), outcomes[place]) is Some,
    ensures
        phase_at(index).issued(outcomes).len() == place + 1,
        phase_at(index).run(outcomes) == (Phase::Halted {
            error: spec_verdict(unending((index + place) as nat), outcomes[place])->0,
        }),
    decreases outcomes.len(),
{
    let phase = phase_at(index);
    let rest = outcomes.drop_first();
    phase_at_steps(index, outcomes[0]);
    assert(phase.issued(outcomes) == seq![unending(index)] + phase.after(outcomes[0]).issued(
        rest,
    ));
    match spec_verdict(unending(index), outcomes[0]) {
        Some(error) => {
            halt_is_final(error, rest);
        },
        None => {
            assert(place > 0);
            assert(outcomes[place] == rest[place - 1]);
            assert(index + place == index + 1 + (place - 1));
            failure_ends_the_run(index + 1, rest, place - 1);
        },
    }
}

/// A run that starts at a place of the unending list and in which every action
/// is carried out hands out one action for each outcome, and ends in the phase of
/// the place after the last.
pub proof fn clean_run(index: nat, outcomes: Seq<Outcome>)
    requires
        all_done(outcomes),
    ensures
        phase_at(index).run(outcomes) == phase_at(index + outcomes.len()),
        phase_at(index).issued(outcomes).len() == outcomes.len(),
    decreases outcomes.len(),
{
    if outcomes.len() > 0 {
        let rest = outcomes.drop_first();
        phase_at_steps(index, outcomes[0]);
        assert(all_done(rest)) by {
            assert forall|i: int| 0 <= i < rest.len() implies rest[i] == Outcome::Done by {
                assert(rest[i] == outcomes[i + 1]);
            }
        }
        clean_run(index + 1, rest);
        assert(index + 1 + rest.len() == index + outcomes.len());
    }
}

/// How many calls of the frame are among the first `count` actions of the
/// unending list.
pub open spec fn drawn_among(count: nat) -> nat {
    if count <= BRING_UP_LEN {
        0
    } else if count >= BRING_UP_LEN + FRAME_LEN {
        FRAME_LEN as nat
    } else {
        (count - BRING_UP_LEN) as nat
    }
}

/// The calls on the drawing surface among the first actions of the unending list
/// are the first calls of the frame, in order.
pub proof fn draws_of_a_prefix(actions: Seq<Action>)
    requires
        forall|place: int| 0 <= place < actions.len() ==> actions[place] == unending(place as nat),
    ensures
        draws(actions) == frame().take(drawn_among(actions.len()) as int),
    decreases actions.len(),
{
    program_shape();
    frame_shape();
    let count = actions.len();
    if count == 0 {
        assert(frame().take(0) =~= Seq::<DrawOp>::empty());
    } else {
        let before = actions.drop_last();
        draws_of_a_prefix(before);
        let last = (count - 1) as nat;
        assert(actions.last() == unending(last));
        if BRING_UP_LEN <= last < BRING_UP_LEN + FRAME_LEN {
            let op = frame()[last - BRING_UP_LEN];
            assert(unending(last) == Action::Draw(op));
            assert(frame().take(last - BRING_UP_LEN).push(op) =~= frame().take(
                last - BRING_UP_LEN + 1,
            ));
        } else if last < BRING_UP_LEN {
            assert(unending(last) == bring_up()[last as int]);
            assert(!(unending(last) is Draw));
        } else {
            assert(!(unending(last) is Draw));
        }
    }
}

/// In any run from power-up, whatever the outcomes, the calls made on the drawing
/// surface are the first calls of the frame, in order: none is left out, none is
/// made twice, none comes early.
pub proof fn draws_follow_the_frame(outcomes: Seq<Outcome>)
    ensures
        draws(Phase::start().issued(outcomes)) == frame().take(
            drawn_among(Phase::start().issued(outcomes).len()) as int,
        ),
{
    let issued = Phase::start().issued(outcomes);
    assert forall|place: int| 0 <= place < issued.len() implies issued[place] == unending(
        place as nat,
    ) by {
        issued_follows_program(0, outcomes, place);
    }
    draws_of_a_prefix(issued);
}

/// Every action is carried out: then the run reaches the idle loop, and the calls
/// it made on the drawing surface are the frame, whole and in order.
pub proof fn clean_run_draws_the_frame(outcomes: Seq<Outcome>)
    requires
        all_done(outcomes),
        outcomes.len() >= PROGRAM_LEN,
    ensures
        Phase::start().run(outcomes) == Phase::Idle,
        Phase::start().issued(outcomes).len() == outcomes.len(),
        Phase::start().issued(outcomes).take(PROGRAM_LEN as int) == program(),
        draws(Phase::start().issued(outcomes)) == frame(),
{
    program_shape();
    frame_shape();
    clean_run(0, outcomes);
    let issued = Phase::start().issued(outcomes);
    assert forall|place: int| 0 <= place < issued.len() implies issued[place] == unending(
        place as nat,
    ) by {
        issued_follows_program(0, outcomes, place);
    }
    draws_of_a_prefix(issued);
    assert(frame().take(FRAME_LEN as int) =~= frame());
    assert(issued.take(PROGRAM_LEN as int) =~= program());
}

/// A call on the drawing surface fails: then it is the last action of the run, the
/// program has stopped with `DrawOperation`, and the calls that were made are the
/// frame up to the failed call, with none after it.
pub proof fn nothing_after_a_failed_draw(outcomes: Seq<Outcome>, place: int)
    requires
        0 <= place < outcomes.len(),
        place < Phase::start().issued(outcomes).len(),
        Phase::start().issued(outcomes)[place] is Draw,
        outcomes[place] != Outcome::Done,
    ensures
        BRING_UP_LEN <= place < BRING_UP_LEN + FRAME_LEN,
        Phase::start().issued(outcomes) == program().take(place + 1),
        Phase::start().run(outcomes) == (Phase::Halted { error: FatalError::DrawOperation }),
        draws(Phase::start().issued(outcomes)) == frame().take(place - BRING_UP_LEN + 1),
{
    program_shape();
    frame_shape();
    let issued = Phase::start().issued(outcomes);
    issued_follows_program(0, outcomes, place);
    assert(unending(place as nat) is Draw);
    if place < BRING_UP_LEN {
        assert(unending(place as nat) == bring_up()[place]);
    }
    failure_ends_the_run(0, outcomes, place);
    assert forall|early: int| 0 <= early < issued.len() implies issued[early] == unending(
        early as nat,
    ) by {
        issued_follows_program(0, outcomes, early);
    }
    draws_of_a_prefix(issued);
    assert(issued =~= program().take(place + 1));
}

/// Any action is not carried out: then it is the last action of the run, and the
/// program has stopped with the verdict on it.
pub proof fn nothing_after_a_failure(outcomes: Seq<Outcome>, place: int)
    requires
        0 <= place < outcomes.len(),
        place < Phase::start().issued(outcomes).len(),
        spec_verdict(Phase::start().issued(outcomes)[place], outcomes[place]) is Some,
    ensures
        Phase::start().issued(outcomes).len() == place + 1,
        Phase::start().run(outcomes) == (Phase::Halted {
            error: spec_verdict(Phase::start().issued(outcomes)[place], outcomes[place])->0,
        }),
{
    issued_follows_program(0, outcomes, place);
    failure_ends_the_run(0, outcomes, place);
}

/// The idle loop has no way out: whatever is reported, the phase stays idle, and
/// for each report the step of the idle loop is handed out again.
pub proof fn idle_is_for_ever(outcomes: Seq<Outcome>)
    ensures
        Phase::Idle.run(outcomes) == Phase::Idle,
        Phase::Idle.issued(outcomes) == Seq::new(outcomes.len(), |i: int| idle_action()),
    decreases outcomes.len(),
{
    if outcomes.len() > 0 {
        idle_is_for_ever(outcomes.drop_first());
        assert(Phase::Idle.after(outcomes[0]) == Phase::Idle);
    }
    assert(Phase::Idle.issued(outcomes) =~= Seq::new(outcomes.len(), |i: int| idle_action()));
}

/// Whether an action sends bytes over the bus. The controller's start-up is the
/// first that does.
pub open spec fn crosses_bus(action: Action) -> bool {
    action is InitController || action is Draw
}

/// Whether, in the run from power-up with these outcomes, `action` was handed out
/// before `place` and carried out.
pub open spec fn carried_out_before(outcomes: Seq<Outcome>, action: Action, place: int) -> bool {
    exists|early: int|
        0 <= early < place && early < outcomes.len() && early < Phase::start().issued(
            outcomes,
        ).len() && #[trigger] Phase::start().issued(outcomes)[early] == action && spec_verdict(
            action,
            outcomes[early],
        ) is None
}

/// In any run from power-up, before the first byte crosses the bus: the
/// peripherals were taken, the reset line was configured and driven high, and the
/// data/command and chip select lines were configured. This holds of the
/// controller's start-up and of every call on the drawing surface.
pub proof fn bus_waits_for_its_lines(outcomes: Seq<Outcome>, place: int)
    requires
        0 <= place < Phase::start().issued(outcomes).len(),
        crosses_bus(Phase::start().issued(outcomes)[place]),
    ensures
        carried_out_before(outcomes, Action::TakePeripherals, place),
        carried_out_before(outcomes, Action::ConfigureOutput(Signal::Reset), place),
        carried_out_before(outcomes, Action::DriveHigh(Signal::Reset), place),
        carried_out_before(outcomes, Action::ConfigureOutput(Signal::DataCommand), place),
        carried_out_before(outcomes, Action::ConfigureOutput(Signal::ChipSelect), place),
{
    program_shape();
    let issued = Phase::start().issued(outcomes);
    issued_follows_program(0, outcomes, place);
    if place < BRING_UP_LEN {
        assert(unending(place as nat) == bring_up()[place]);
    }
    assert(place >= 11);
    assert forall|early: int| 2 <= early <= 6 implies early < outcomes.len() && early
        < issued.len() && #[trigger] issued[early] == bring_up()[early] && spec_verdict(
        bring_up()[early],
        outcomes[early],
    ) is None by {
        issued_follows_program(0, outcomes, early);
        assert(unending(early as nat) == bring_up()[early]);
    }
    assert(issued[2] == Action::TakePeripherals);
    assert(issued[3] == Action::ConfigureOutput(Signal::Reset));
    assert(issued[4] == Action::DriveHigh(Signal::Reset));
    assert(issued[5] == Action::ConfigureOutput(Signal::DataCommand));
    assert(issued[6] == Action::ConfigureOutput(Signal::ChipSelect));
}

/// On the board the controller comes up only while the reset line is held high
/// and the transport stands; a call on the drawing surface is made only once the
/// controller has come up.
pub proof fn board_guards_the_bus(board: BoardState, action: Action)
    requires
        crosses_bus(action),
        board.step(action).1 == Outcome::Done,
    ensures
        match action {
            Action::InitController { reset, .. } => board.bus == Bus::Transport && board.line(
                reset,
            ) == (Line::Held { high: true }),
            _ => board.bus == Bus::Ready,
        },
{
}

/// What is claimed has an owner: a second claim of the same thing is refused and
/// changes nothing, and the refusal ends the program with
/// `ResourceAlreadyClaimed`.
pub proof fn second_claim_is_refused(board: BoardState, action: Action)
    requires
        action.spec_claims(),
        board.step(action).1 == Outcome::Done,
    ensures
        board.step(action).0.step(action) == (board.step(action).0, Outcome::Refused),
        spec_verdict(action, Outcome::Refused) == Some(FatalError::ResourceAlreadyClaimed),
{
}

/// A pin is claimed as an output exactly when the peripherals are taken and the
/// pin is free; with the peripherals taken, it is refused exactly when the pin is
/// not free.
pub proof fn pin_claim_is_exclusive(board: BoardState, signal: Signal)
    ensures
        board.step(Action::ConfigureOutput(signal)).1 == Outcome::Done <==> board.taken
            && board.line(signal) is Free,
        board.step(Action::ConfigureOutput(signal)).1 == Outcome::Refused <==> board.taken && !(
        board.line(signal) is Free),
        board.step(Action::TakePeripherals).1 == Outcome::Refused <==> board.taken,
        board.step(Action::TakePeripherals).1 == Outcome::Done <==> !board.taken,
{
}

/// Whatever phase the program is in: where a claim is refused, the program stops
/// with `ResourceAlreadyClaimed`.
pub proof fn refused_claim_is_fatal(phase: Phase)
    requires
        phase.action() is Some,
        phase.action()->0.spec_claims(),
    ensures
        phase.after(Outcome::Refused) == (Phase::Halted {
            error: FatalError::ResourceAlreadyClaimed,
        }),
{
}

/// The program started on a board whose peripherals are taken stops at once with
/// `ResourceAlreadyClaimed`: it writes its opening line to the log and touches
/// nothing else.
pub proof fn second_run_is_refused(board: BoardState, steps: nat)
    requires
        board.taken,
        steps >= 3,
    ensures
        driven(Phase::start(), board, steps) == (
            Phase::Halted { error: FatalError::ResourceAlreadyClaimed },
            BoardState { log: board.log.push(Note::Starting), ..board },
        ),
{
    program_shape();
    assert(program()[0] == bring_up()[0]);
    assert(program()[1] == bring_up()[1]);
    assert(program()[2] == bring_up()[2]);
    reveal_with_fuel(driven, 4);
    let halted = Phase::Halted { error: FatalError::ResourceAlreadyClaimed };
    let logged = BoardState { log: board.log.push(Note::Starting), ..board };
    assert(driven(Phase::start(), board, 3) == (halted, logged));
    driven_in_two(Phase::start(), board, 3, (steps - 3) as nat);
    if steps > 3 {
        assert(driven(halted, logged, (steps - 3) as nat) == (halted, logged));
    }
}

/// The board after a list of actions was carried out on it, one after the other,
/// whatever their outcomes.
pub open spec fn performed(board: BoardState, actions: Seq<Action>) -> BoardState
    decreases actions.len(),
{
    if actions.len() == 0 {
        board
    } else {
        performed(board.step(actions[0]).0, actions.drop_first())
    }
}

/// Changing one line changes that line and no other.
pub proof fn changed_line_only(board: BoardState, changed: Signal, line: Line, signal: Signal)
    ensures
        board.with_line(changed, line).line(signal) == if signal == changed {
            line
        } else {
            board.line(signal)
        },
{
}

/// A pin without a handle keeps its level: the end of a handle's life, its own or
/// another's, does not change a latched line.
pub proof fn latched_line_outlives_handles(board: BoardState, signal: Signal, other: Signal)
    requires
        board.line(signal) is Latched,
    ensures
        board.release(other).line(signal) == board.line(signal),
{
    changed_line_only(board, other, Line::Free, signal);
}

/// A pin without a handle keeps its level: no action changes a latched line.
pub proof fn latched_line_keeps_its_level(board: BoardState, signal: Signal, action: Action)
    requires
        board.line(signal) is Latched,
    ensures
        board.step(action).0.line(signal) == board.line(signal),
{
    match action {
        Action::ConfigureOutput(other) => {
            changed_line_only(board, other, Line::Held { high: false }, signal);
        },
        Action::DriveHigh(other) => {
            changed_line_only(board, other, Line::Held { high: true }, signal);
        },
        Action::OpenBus { clock, data_out, dma } => {
            let opened = BoardState { bus: Bus::Open, dma, ..board };
            assert(opened.line(signal) == board.line(signal));
            assert(opened.line(clock) == board.line(clock));
            assert(opened.line(data_out) == board.line(data_out));
            changed_line_only(opened, clock, Line::Lent, signal);
            changed_line_only(opened.with_line(clock, Line::Lent), data_out, Line::Lent, signal);
        },
        Action::BindDevice { chip_select } => {
            let bound = BoardState { bus: Bus::Device, ..board };
            assert(bound.line(signal) == board.line(signal));
            changed_line_only(bound, chip_select, Line::Lent, signal);
        },
        Action::BindTransport { data_command } => {
            let wrapped = BoardState { bus: Bus::Transport, ..board };
            assert(wrapped.line(signal) == board.line(signal));
            changed_line_only(wrapped, data_command, Line::Lent, signal);
        },
        Action::InitController { model, reset } => {
            let ready = BoardState { bus: Bus::Ready, model: Some(model), ..board };
            assert(ready.line(signal) == board.line(signal));
            changed_line_only(ready, reset, Line::Lent, signal);
        },
        Action::Detach(other) => {
            match board.line(other) {
                Line::Held { high } => {
                    changed_line_only(board, other, Line::Latched { high }, signal);
                },
                _ => {},
            }
        },
        Action::StartRuntime => {},
        Action::Log(_) => {},
        Action::TakePeripherals => {},
        Action::ClockBus { .. } => {},
        Action::Draw(_) => {},
        Action::Sleep { .. } => {},
    }
}

/// A latched line keeps its level through any list of actions.
pub proof fn latched_line_stays(board: BoardState, signal: Signal, actions: Seq<Action>)
    requires
        board.line(signal) is Latched,
    ensures
        performed(board, actions).line(signal) == board.line(signal),
    decreases actions.len(),
{
    if actions.len() > 0 {
        latched_line_keeps_its_level(board, signal, actions[0]);
        latched_line_stays(board.step(actions[0]).0, signal, actions.drop_first());
    }
}

/// Detaching is what makes the level last: a held line that is detached keeps its
/// level when its handle ends, and one that is not detached loses it.
pub proof fn detached_line_outlives_its_handle(board: BoardState, signal: Signal)
    requires
        board.held(signal),
    ensures
        board.step(Action::Detach(signal)).1 == Outcome::Done,
        board.step(Action::Detach(signal)).0.release(signal).level(signal) == board.level(
            signal,
        ),
        board.release(signal).line(signal) == Line::Free,
        board.release(signal).level(signal) is None,
{
}

/// After the program the backlight is on, and it stays on whatever is done to the
/// board afterwards.
pub proof fn backlight_stays_on(actions: Seq<Action>)
    ensures
        lit_board().level(Signal::Backlight) == Some(true),
        performed(lit_board(), actions).level(Signal::Backlight) == Some(true),
        forall|signal: Signal|
            #[trigger] performed(lit_board(), actions).release(signal).level(Signal::Backlight)
                == Some(true),
{
    latched_line_stays(lit_board(), Signal::Backlight, actions);
    let later = performed(lit_board(), actions);
    assert forall|signal: Signal| #[trigger]
        later.release(signal).level(Signal::Backlight) == Some(true) by {
        latched_line_outlives_handles(later, Signal::Backlight, signal);
    }
}

} // verus!
