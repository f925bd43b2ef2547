//! The start-up state machine.
//!
//! Start-up alternates between a decision and an effect. The machine decides:
//! it names the next [`Action`]. The embedding program performs the action
//! and reports its [`Outcome`], and the machine moves on. The plug-ins are
//! registered one after the other; once all are registered the event loop
//! runs; the first failure, of a registration or of the event loop, aborts
//! start-up for good. Nothing is retried.

use crate::plugin::{plugins_to_register, registration_order, Plugin};
use vstd::prelude::*;

verus! {

/// Where start-up stands.
#[derive(Clone, Copy, Debug, PartialEq, Eq, Structural)]
pub enum Phase {
    /// Plug-ins are still being registered.
    Registering,
    /// Every plug-in is registered and the event loop has control.
    Running,
    /// The event loop has returned: the application was closed.
    Finished,
    /// A registration or the event loop failed.
    Aborted,
}

/// What the embedding program is to do next.
#[derive(Clone, Copy, Debug, PartialEq, Eq, Structural)]
pub enum Action {
    /// Attach this plug-in to the application.
    Register(Plugin),
    /// Hand control to the event loop until the application is closed.
    RunEventLoop,
    /// Leave: the application has run and was closed.
    Exit,
    /// Terminate with a diagnostic: start-up has failed.
    Abort,
}

/// How the last action ended.
#[derive(Clone, Copy, Debug, PartialEq, Eq, Structural)]
pub enum Outcome {
    Succeeded,
    Failed,
}

/// The state of start-up as a mathematical value.
pub struct State {
    /// Whether this is a debug build.
    pub debug: bool,
    /// How many plug-ins have been registered.
    pub registered: nat,
    /// Where start-up stands.
    pub phase: Phase,
}

impl State {
    /// The state before anything has been registered.
    pub open spec fn initial(debug: bool) -> State {
        State { debug, registered: 0, phase: Phase::Registering }
    }

    /// The plug-ins that this start-up registers, first to last.
    pub open spec fn order(self) -> Seq<Plugin> {
        registration_order(self.debug)
    }

    /// While plug-ins are being registered one is still missing; the event
    /// loop runs only with all of them.
    pub open spec fn wf(self) -> bool {
        &&& self.registered <= self.order().len()
        &&& self.phase == Phase::Registering ==> self.registered < self.order().len()
        &&& self.phase == Phase::Running || self.phase == Phase::Finished ==> self.registered
            == self.order().len()
    }

    /// The action that is due in this state.
    pub open spec fn action(self) -> Action {
        match self.phase {
            Phase::Registering => Action::Register(self.order()[self.registered as int]),
            Phase::Running => Action::RunEventLoop,
            Phase::Finished => Action::Exit,
            Phase::Aborted => Action::Abort,
        }
    }

    /// The state that follows once the due action has ended with `outcome`.
    /// `Finished` and `Aborted` are final: there the outcome is ignored.
    pub open spec fn after(self, outcome: Outcome) -> State {
        match (self.phase, outcome) {
            (Phase::Registering, Outcome::Succeeded) => State {
                registered: self.registered + 1,
                phase: if self.registered + 1 < self.order().len() {
                    Phase::Registering
                } else {
                    Phase::Running
                },
                ..self
            },
            (Phase::Running, Outcome::Succeeded) => State { phase: Phase::Finished, ..self },
            (Phase::Registering, Outcome::Failed) | (Phase::Running, Outcome::Failed) => State {
                phase: Phase::Aborted,
                ..self
            },
            (Phase::Finished, _) | (Phase::Aborted, _) => self,
        }
    }

    /// The state that follows a whole history of outcomes, oldest first.
    pub open spec fn after_all(self, outcomes: Seq<Outcome>) -> State
        decreases outcomes.len(),
    {
        if outcomes.len() == 0 {
            self
        } else {
            self.after_all(outcomes.drop_last()).after(outcomes.last())
        }
    }
}

/// The start-up of one application run.
#[derive(Clone, Copy, Debug)]
pub struct Startup {
    debug: bool,
    registered: usize,
    phase: Phase,
}

impl View for Startup {
    type V = State;

    closed spec fn view(&self) -> State {
        State { debug: self.debug, registered: self.registered as nat, phase: self.phase }
    }
}

impl Startup {
    #[verifier::type_invariant]
    spec fn inv(self) -> bool {
        self@.wf()
    }

    /// Begins the start-up of a debug or a release build.
    pub fn new(debug: bool) -> (startup: Startup)
        ensures
            startup@ == State::initial(debug),
    {
        Startup { debug, registered: 0, phase: Phase::Registering }
    }

    /// Whether this is the start-up of a debug build.
    pub fn is_debug(&self) -> (debug: bool)
        ensures
            debug == self@.debug,
    {
        self.debug
    }

    /// How many plug-ins have been registered.
    pub fn registered(&self) -> (count: usize)
        ensures
            count == self@.registered,
    {
        self.registered
    }

    /// Where start-up stands.
    pub fn phase(&self) -> (phase: Phase)
        ensures
            phase == self@.phase,
    {
        self.phase
    }

    /// Names the action that is due. The state is well formed, so a
    /// registration names a plug-in of the registration order.
    pub fn next_action(&self) -> (action: Action)
        ensures
            self@.wf(),
            action == self@.action(),
    {
        proof {
            use_type_invariant(self);
        }
        match self.phase {
            Phase::Registering => {
                let order = plugins_to_register(self.debug);
                Action::Register(order[self.registered])
            },
            Phase::Running => Action::RunEventLoop,
            Phase::Finished => Action::Exit,
            Phase::Aborted => Action::Abort,
        }
    }

    /// Records how the due action ended and moves to the state that follows.
    pub fn record(&mut self, outcome: Outcome)
        ensures
            final(self)@ == old(self)@.after(outcome),
    {
        proof {
            use_type_invariant(&*self);
        }
        match (self.phase, outcome) {
            (Phase::Registering, Outcome::Succeeded) => {
                let total: usize = plugins_to_register(self.debug).len();
                let registered: usize = self.registered + 1;
                let phase = if registered < total {
                    Phase::Registering
                } else {
                    Phase::Running
                };
                *self = Startup { debug: self.debug, registered, phase };
            },
            (Phase::Running, Outcome::Succeeded) => {
                *self = Startup {
                    debug: self.debug,
                    registered: self.registered,
                    phase: Phase::Finished,
                };
            },
            (Phase::Registering, Outcome::Failed) | (Phase::Running, Outcome::Failed) => {
                *self = Startup {
                    debug: self.debug,
                    registered: self.registered,
                    phase: Phase::Aborted,
                };
            },
            (Phase::Finished, _) | (Phase::Aborted, _) => {},
        }
    }
}

} // verus!
