//! The sequencer: which action comes next, and what an outcome leads to.

use vstd::prelude::*;
use crate::program::{
    idle_action, idle_step, program, program_step, Action, FatalError, Outcome, PROGRAM_LEN,
};

verus! {

/// Where the program stands.
#[derive(Clone, Copy, Debug, PartialEq, Eq, Structural)]
pub enum Phase {
    /// The step at place `step` of the program is the next one.
    Running { step: usize },
    /// The program is through; only the idle loop is left.
    Idle,
    /// The program has stopped for good.
    Halted { error: FatalError },
}

/// The error that an outcome of an action ends the program with, if it ends it.
///
/// A refused claim is always `ResourceAlreadyClaimed`. Any other refusal counts as
/// a failure. A failure ends the program with the action's own error; where the
/// action cannot fail, the report is not believed and the program goes on.
pub open spec fn spec_verdict(action: Action, outcome: Outcome) -> Option<FatalError> {
    match outcome {
        Outcome::Done => None,
        Outcome::Refused => if action.spec_claims() {
            Some(FatalError::ResourceAlreadyClaimed)
        } else {
            action.spec_failure()
        },
        Outcome::Failed => action.spec_failure(),
    }
}

/// The error that an outcome of an action ends the program with, if it ends it.
#[verifier::when_used_as_spec(spec_verdict)]
pub fn verdict(action: Action, outcome: Outcome) -> (error: Option<FatalError>)
    ensures
        error == spec_verdict(action, outcome),
{
    match outcome {
        Outcome::Done => None,
        Outcome::Refused => {
            if action.claims() {
                Some(FatalError::ResourceAlreadyClaimed)
            } else {
                action.failure()
            }
        },
        Outcome::Failed => action.failure(),
    }
}

impl Phase {
    /// The phase at power-up.
    pub open spec fn start() -> Phase {
        Phase::Running { step: 0 }
    }

    /// A running phase points into the program.
    pub open spec fn wf(self) -> bool {
        match self {
            Phase::Running { step } => step < PROGRAM_LEN,
            _ => true,
        }
    }

    /// The action to carry out in this phase; none once the program has stopped.
    pub open spec fn action(self) -> Option<Action> {
        match self {
            Phase::Running { step } => Some(program()[step as int]),
            Phase::Idle => Some(idle_action()),
            Phase::Halted { .. } => None,
        }
    }

    /// The phase that follows when the action of this phase was carried out.
    pub open spec fn successor(self) -> Phase {
        match self {
            Phase::Running { step } => if step + 1 < PROGRAM_LEN {
                Phase::Running { step: (step + 1) as usize }
            } else {
                Phase::Idle
            },
            _ => self,
        }
    }

    /// The phase that follows on an outcome of this phase's action.
    pub open spec fn after(self, outcome: Outcome) -> Phase {
        match self.action() {
            None => self,
            Some(action) => match spec_verdict(action, outcome) {
                Some(error) => Phase::Halted { error },
                None => self.successor(),
            },
        }
    }

    /// The phase reached from this one by a run: `outcomes[0]` answers this
    /// phase's action, `outcomes[1]` the action of the phase that follows, and so
    /// on.
    pub open spec fn run(self, outcomes: Seq<Outcome>) -> Phase
        decreases outcomes.len(),
    {
        if outcomes.len() == 0 {
            self
        } else {
            self.after(outcomes[0]).run(outcomes.drop_first())
        }
    }

    /// The actions that a run hands out, in order: one for each outcome, until the
    /// program stops. An action that fails is among them; nothing comes after it.
    pub open spec fn issued(self, outcomes: Seq<Outcome>) -> Seq<Action>
        decreases outcomes.len(),
    {
        if outcomes.len() == 0 {
            Seq::empty()
        } else {
            match self.action() {
                None => Seq::empty(),
                Some(action) => seq![action] + self.after(outcomes[0]).issued(
                    outcomes.drop_first(),
                ),
            }
        }
    }
}

/// The sequencer of the program. A driver loop asks it for the next action,
/// carries the action out, and reports the outcome.
pub struct Sequencer {
    phase: Phase,
}

impl View for Sequencer {
    type V = Phase;

    closed spec fn view(&self) -> Phase {
        self.phase
    }
}

impl Sequencer {
    #[verifier::type_invariant]
    spec fn inv(self) -> bool {
        self.phase.wf()
    }

    /// A sequencer at power-up.
    pub fn new() -> (sequencer: Sequencer)
        ensures
            sequencer@ == Phase::start(),
    {
        Sequencer { phase: Phase::Running { step: 0 } }
    }

    /// Where the program stands.
    pub fn phase(&self) -> (phase: Phase)
        ensures
            phase == self@,
            phase.wf(),
    {
        proof {
            use_type_invariant(self);
        }
        self.phase
    }

    /// The action to carry out next; `None` once the program has stopped.
    pub fn next_action(&self) -> (action: Option<Action>)
        ensures
            action == self@.action(),
    {
        proof {
            use_type_invariant(self);
        }
        match self.phase {
            Phase::Running { step } => Some(program_step(step)),
            Phase::Idle => Some(idle_step()),
            Phase::Halted { .. } => None,
        }
    }

    /// The error that the program stopped with, if it has stopped.
    pub fn error(&self) -> (error: Option<FatalError>)
        ensures
            error == match self@ {
                Phase::Halted { error } => Some(error),
                _ => None,
            },
    {
        match self.phase {
            Phase::Halted { error } => Some(error),
            _ => None,
        }
    }

    /// Takes the outcome of the action that `next_action` handed out, and moves
    /// on: to the next step, to the idle loop after the last step, or to a halt.
    /// Once the program has stopped, nothing moves it.
    pub fn advance(&mut self, outcome: Outcome)
        ensures
            final(self)@ == old(self)@.after(outcome),
    {
        proof {
            use_type_invariant(&*self);
        }
        match self.phase {
            Phase::Running { step } => {
                match verdict(program_step(step), outcome) {
                    Some(error) => {
                        self.phase = Phase::Halted { error };
                    },
                    None => {
                        if step + 1 < PROGRAM_LEN {
                            self.phase = Phase::Running { step: step + 1 };
                        } else {
                            self.phase = Phase::Idle;
                        }
                    },
                }
            },
            Phase::Idle => {},
            Phase::Halted { .. } => {},
        }
    }
}

} // verus!
