//! The course of one timing session, as a machine that a driver steps.

use crate::invocation::{Invocation, InvocationView, OutputFormat};
use vstd::prelude::*;

verus! {

/// Wall-clock time of one run: whole seconds, and the nanoseconds beyond them.
#[derive(Clone, Copy, Debug, PartialEq, Eq, Structural)]
pub struct Elapsed {
    pub secs: u64,
    pub nanos: u32,
}

/// Where a session stands.
#[derive(Clone, Copy, Debug, PartialEq, Eq, Structural)]
pub enum Phase {
    /// Waiting for one byte of input before anything is timed.
    AwaitingKey,
    /// At least one run is still to be made.
    Running,
    /// Every run is made; the aggregate is to be presented.
    Reporting,
    /// The aggregate is out; the process snapshot is to be listed.
    Listing,
    /// Nothing is left to do.
    Finished,
    /// A fatal error ended the session.
    Failed,
}

/// What the driver is to do next.
#[derive(Clone, Copy, Debug, PartialEq, Eq, Structural)]
pub enum Action {
    /// Show the prompt and block until one byte has been read.
    AwaitKey,
    /// Time one run of the command and show its outcome; `index` counts from zero.
    Run { index: usize },
    /// Present the aggregate in the given format.
    Report { format: OutputFormat },
    /// Take one process snapshot and list the watched processes.
    ListProcesses,
    /// Leave with success.
    Exit,
    /// Leave with failure, presenting nothing further.
    Abort,
}

/// What the driver reports back.
#[derive(Clone, Copy, Debug, PartialEq, Eq, Structural)]
pub enum Event {
    /// One byte was read from the input.
    KeyRead,
    /// The command ran to its end. The exit code is absent where the process
    /// was ended without one.
    RunFinished { exit_code: Option<i32>, elapsed: Elapsed },
    /// The aggregate was presented.
    Reported,
    /// The snapshot section was written.
    ProcessesListed,
    /// The action could not be carried out.
    Failed,
}

/// Mathematical content of a [`Session`].
pub struct SessionView {
    pub invocation: InvocationView,
    pub phase: Phase,
    /// Elapsed time of each run made so far, in order.
    pub times: Seq<Elapsed>,
    /// Exit code of the run made last.
    pub last_code: Option<i32>,
}

/// The session as it stands before anything has happened.
pub open spec fn opening(invocation: InvocationView) -> SessionView {
    SessionView {
        invocation,
        phase: if invocation.wait {
            Phase::AwaitingKey
        } else {
            Phase::Running
        },
        times: Seq::empty(),
        last_code: None,
    }
}

impl SessionView {
    /// The states a session can be in.
    pub open spec fn wf(self) -> bool {
        &&& self.invocation.wf()
        &&& match self.phase {
            Phase::AwaitingKey => self.invocation.wait && self.times.len() == 0,
            Phase::Running => self.times.len() < self.invocation.runs,
            Phase::Reporting | Phase::Listing | Phase::Finished => self.times.len()
                == self.invocation.runs,
            Phase::Failed => self.times.len() <= self.invocation.runs,
        }
    }

    /// Whether every run has been made and none has failed.
    pub open spec fn complete(self) -> bool {
        self.phase == Phase::Reporting || self.phase == Phase::Listing || self.phase
            == Phase::Finished
    }

    /// The action that the state calls for.
    pub open spec fn instruction(self) -> Action {
        match self.phase {
            Phase::AwaitingKey => Action::AwaitKey,
            Phase::Running => Action::Run { index: self.times.len() as usize },
            Phase::Reporting => Action::Report { format: self.invocation.format },
            Phase::Listing => Action::ListProcesses,
            Phase::Finished => Action::Exit,
            Phase::Failed => Action::Abort,
        }
    }

    /// The place of the phase in the course of a session. A failure counts
    /// as the last place: nothing follows it.
    pub open spec fn progress(self) -> nat {
        match self.phase {
            Phase::AwaitingKey => 0,
            Phase::Running => 1,
            Phase::Reporting => 2,
            Phase::Listing => 3,
            Phase::Finished => 4,
            Phase::Failed => 5,
        }
    }

    /// The state after `event`. An event that the phase does not await
    /// changes nothing. A failure is fatal in every phase but the listing,
    /// which it merely ends.
    pub open spec fn advance(self, event: Event) -> SessionView {
        match (self.phase, event) {
            (Phase::AwaitingKey, Event::KeyRead) => SessionView { phase: Phase::Running, ..self },
            (Phase::Running, Event::RunFinished { exit_code, elapsed }) => SessionView {
                phase: if self.times.len() + 1 == self.invocation.runs {
                    Phase::Reporting
                } else {
                    Phase::Running
                },
                times: self.times.push(elapsed),
                last_code: exit_code,
                ..self
            },
            (Phase::Reporting, Event::Reported) => SessionView { phase: Phase::Listing, ..self },
            (Phase::Listing, Event::ProcessesListed) => SessionView {
                phase: Phase::Finished,
                ..self
            },
            (Phase::Listing, Event::Failed) => SessionView { phase: Phase::Finished, ..self },
            (Phase::AwaitingKey, Event::Failed) => SessionView { phase: Phase::Failed, ..self },
            (Phase::Running, Event::Failed) => SessionView { phase: Phase::Failed, ..self },
            (Phase::Reporting, Event::Failed) => SessionView { phase: Phase::Failed, ..self },
            _ => self,
        }
    }
}

/// The aggregate of a complete session.
#[derive(Debug)]
pub struct Summary {
    /// Exit code of the last run only.
    pub exit_code: Option<i32>,
    /// Elapsed time of every run, in order.
    pub times: Vec<Elapsed>,
}

/// The phase as it is stored. Running and reporting are one stage: which of
/// the two it is follows from the number of times held.
#[derive(Clone, Copy, PartialEq, Eq, Structural)]
enum Stage {
    AwaitingKey,
    Active,
    Listing,
    Finished,
    Failed,
}

/// One timing session. The driver asks for the pending action, performs it,
/// and steps the session with what happened.
pub struct Session {
    invocation: Invocation,
    stage: Stage,
    times: Vec<Elapsed>,
    last_code: Option<i32>,
}

impl View for Session {
    type V = SessionView;

    closed spec fn view(&self) -> SessionView {
        SessionView {
            invocation: self.invocation@,
            phase: match self.stage {
                Stage::AwaitingKey => Phase::AwaitingKey,
                Stage::Active => if self.times@.len() < self.invocation@.runs {
                    Phase::Running
                } else {
                    Phase::Reporting
                },
                Stage::Listing => Phase::Listing,
                Stage::Finished => Phase::Finished,
                Stage::Failed => Phase::Failed,
            },
            times: self.times@,
            last_code: self.last_code,
        }
    }
}

impl Session {
    #[verifier::type_invariant]
    spec fn valid(self) -> bool {
        self@.wf()
    }

    /// Starts a session for an accepted invocation.
    pub fn begin(invocation: Invocation) -> (session: Session)
        ensures
            session@ == opening(invocation@),
            session@.wf(),
    {
        let wait = invocation.wait();
        Session {
            invocation,
            stage: if wait {
                Stage::AwaitingKey
            } else {
                Stage::Active
            },
            times: Vec::new(),
            last_code: None,
        }
    }

    /// The parameters that the session was started with.
    pub fn invocation(&self) -> (invocation: &Invocation)
        ensures
            invocation@ == self@.invocation,
    {
        &self.invocation
    }

    /// The action that the driver is to perform now.
    pub fn pending(&self) -> (action: Action)
        ensures
            action == self@.instruction(),
            self@.wf(),
    {
        proof {
            use_type_invariant(self);
        }
        match self.stage {
            Stage::AwaitingKey => Action::AwaitKey,
            Stage::Active => {
                if self.times.len() < self.invocation.runs() {
                    Action::Run { index: self.times.len() }
                } else {
                    Action::Report { format: self.invocation.format() }
                }
            },
            Stage::Listing => Action::ListProcesses,
            Stage::Finished => Action::Exit,
            Stage::Failed => Action::Abort,
        }
    }

    /// The aggregate, once every run has been made and as long as nothing
    /// has failed; nothing is given of a part of the runs.
    pub fn summary(&self) -> (summary: Option<Summary>)
        ensures
            summary is Some <==> self@.complete(),
            summary matches Some(s) ==> {
                &&& s.exit_code == self@.last_code
                &&& s.times@ == self@.times
                &&& s.times@.len() == self@.invocation.runs
                &&& s.times@.len() >= 1
            },
    {
        proof {
            use_type_invariant(self);
        }
        let complete = match self.stage {
            Stage::Active => self.times.len() >= self.invocation.runs(),
            Stage::Listing => true,
            Stage::Finished => true,
            _ => false,
        };
        if complete {
            let times = self.times.clone();
            assert(times@ =~= self.times@);
            Some(Summary { exit_code: self.last_code, times })
        } else {
            None
        }
    }

    /// Takes in what happened and says what to do next.
    pub fn step(&mut self, event: Event) -> (action: Action)
        ensures
            final(self)@ == old(self)@.advance(event),
            final(self)@.wf(),
            action == final(self)@.instruction(),
    {
        proof {
            use_type_invariant(&*self);
        }
        let running = self.times.len() < self.invocation.runs();
        match (self.stage, event) {
            (Stage::AwaitingKey, Event::KeyRead) => {
                self.stage = Stage::Active;
            },
            (Stage::Active, Event::RunFinished { exit_code, elapsed }) => {
                if running {
                    let mut times: Vec<Elapsed> = Vec::new();
                    std::mem::swap(&mut times, &mut self.times);
                    times.push(elapsed);
                    self.times = times;
                    self.last_code = exit_code;
                }
            },
            (Stage::Active, Event::Reported) => {
                if !running {
                    self.stage = Stage::Listing;
                }
            },
            (Stage::Listing, Event::ProcessesListed) => {
                self.stage = Stage::Finished;
            },
            (Stage::Listing, Event::Failed) => {
                self.stage = Stage::Finished;
            },
            (Stage::AwaitingKey, Event::Failed) => {
                self.stage = Stage::Failed;
            },
            (Stage::Active, Event::Failed) => {
                self.stage = Stage::Failed;
            },
            _ => {},
        }
        self.pending()
    }
}

} // verus!
