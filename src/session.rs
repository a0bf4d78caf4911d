use vstd::prelude::*;

use crate::error::SolveError;
use crate::validate::Shape;

verus! {

/// Where a solve stands in the analyze, factor, solve protocol.
#[derive(Clone, Copy, Debug, PartialEq, Eq, Structural)]
pub enum Phase {
    Initializing,
    Analyzing,
    Factoring,
    Solving,
    ReleasingNumeric,
    ReleasingSymbolic,
    Finished,
}

/// What the driver must do next with the engine.
#[derive(Clone, Copy, Debug, PartialEq, Eq)]
pub enum Action {
    /// Acquire and fill the engine's default configuration record.
    InitConfig,
    /// Run symbolic analysis on the column structure.
    Analyze,
    /// Run numeric factorization against the analysis context.
    Factor,
    /// Solve in place for `nrhs` stacked vectors, transposed or not.
    Solve { nrhs: i32, transpose: bool },
    /// Release the factorization context.
    FreeNumeric,
    /// Release the analysis context.
    FreeSymbolic,
    /// Stop and hand this outcome to the caller.
    Finish(Result<(), SolveError>),
}

/// What the driver observed after performing the last action.
#[derive(Clone, Copy, Debug, PartialEq, Eq, Structural)]
pub enum Event {
    ConfigReady,
    ConfigFailed { code: i32 },
    Analyzed,
    AnalysisFailed { code: i32 },
    Factored,
    FactorFailed { code: i32 },
    /// The solve returned `code`; the engine signals success with 1.
    Solved { code: i32 },
    Released,
}

/// The engine's success value for a solve.
pub const ENGINE_TRUE: i32 = 1;

/// One solve's session: its phase, the engine contexts it currently owns,
/// and the outcome it will report once everything is released.
#[derive(Clone, Copy, Debug)]
pub struct Session {
    pub phase: Phase,
    pub nrhs: i32,
    pub transpose: bool,
    pub symbolic_live: bool,
    pub numeric_live: bool,
    pub outcome: Result<(), SolveError>,
}

impl Session {
    /// Which contexts are owned in each phase. A factorization context is only
    /// ever owned together with the analysis context it was built from.
    pub open spec fn wf(&self) -> bool {
        match self.phase {
            Phase::Initializing | Phase::Analyzing => !self.symbolic_live && !self.numeric_live,
            Phase::Factoring => self.symbolic_live && !self.numeric_live,
            Phase::Solving => self.symbolic_live && self.numeric_live,
            Phase::ReleasingNumeric => self.symbolic_live && !self.numeric_live,
            Phase::ReleasingSymbolic | Phase::Finished => !self.symbolic_live && !self.numeric_live,
        }
    }

    /// The events that can follow the action issued in the current phase.
    pub open spec fn expects(&self, e: Event) -> bool {
        match self.phase {
            Phase::Initializing => e is ConfigReady || e is ConfigFailed,
            Phase::Analyzing => e is Analyzed || e is AnalysisFailed,
            Phase::Factoring => e is Factored || e is FactorFailed,
            Phase::Solving => e is Solved,
            Phase::ReleasingNumeric | Phase::ReleasingSymbolic => e is Released,
            Phase::Finished => false,
        }
    }

    /// The session as it stands before the engine is touched.
    pub open spec fn initial(shape: Shape, transpose: bool) -> Session {
        Session {
            phase: Phase::Initializing,
            nrhs: shape.nrhs,
            transpose,
            symbolic_live: false,
            numeric_live: false,
            outcome: Ok(()),
        }
    }

    /// The transition taken on event `e`: the next session and the action
    /// the driver performs next. Once a context exists, every failure path
    /// releases it (numeric before symbolic) before the error is reported.
    pub open spec fn next(self, e: Event) -> (Session, Action) {
        match (self.phase, e) {
            (Phase::Initializing, Event::ConfigReady) => (
                Session { phase: Phase::Analyzing, ..self },
                Action::Analyze,
            ),
            (Phase::Initializing, Event::ConfigFailed { code }) => {
                let out = Err(SolveError::EngineInit { code });
                (Session { phase: Phase::Finished, outcome: out, ..self }, Action::Finish(out))
            },
            (Phase::Analyzing, Event::Analyzed) => (
                Session { phase: Phase::Factoring, symbolic_live: true, ..self },
                Action::Factor,
            ),
            (Phase::Analyzing, Event::AnalysisFailed { code }) => {
                let out = Err(SolveError::Analysis { code });
                (Session { phase: Phase::Finished, outcome: out, ..self }, Action::Finish(out))
            },
            (Phase::Factoring, Event::Factored) => (
                Session { phase: Phase::Solving, numeric_live: true, ..self },
                Action::Solve { nrhs: self.nrhs, transpose: self.transpose },
            ),
            (Phase::Factoring, Event::FactorFailed { code }) => (
                Session {
                    phase: Phase::ReleasingSymbolic,
                    symbolic_live: false,
                    outcome: Err(SolveError::Factorization { code }),
                    ..self
                },
                Action::FreeSymbolic,
            ),
            (Phase::Solving, Event::Solved { code }) => (
                Session {
                    phase: Phase::ReleasingNumeric,
                    numeric_live: false,
                    outcome: if code == ENGINE_TRUE {
                        Ok(())
                    } else {
                        Err(SolveError::Solve { code })
                    },
                    ..self
                },
                Action::FreeNumeric,
            ),
            (Phase::ReleasingNumeric, Event::Released) => (
                Session { phase: Phase::ReleasingSymbolic, symbolic_live: false, ..self },
                Action::FreeSymbolic,
            ),
            (Phase::ReleasingSymbolic, Event::Released) => (
                Session { phase: Phase::Finished, ..self },
                Action::Finish(self.outcome),
            ),
            _ => (self, Action::Finish(self.outcome)),
        }
    }

    /// Opens a session for a validated shape; the driver's first action is
    /// to set up the engine's configuration.
    pub fn begin(shape: Shape, transpose: bool) -> (r: (Session, Action))
        ensures
            r.0 == Session::initial(shape, transpose),
            r.0.wf(),
            r.1 == Action::InitConfig,
    {
        let s = Session {
            phase: Phase::Initializing,
            nrhs: shape.nrhs,
            transpose,
            symbolic_live: false,
            numeric_live: false,
            outcome: Ok(()),
        };
        (s, Action::InitConfig)
    }

    /// Whether `e` is an event the session is waiting for.
    pub fn accepts(&self, e: Event) -> (r: bool)
        ensures
            r == self.expects(e),
    {
        match self.phase {
            Phase::Initializing => matches!(e, Event::ConfigReady | Event::ConfigFailed { .. }),
            Phase::Analyzing => matches!(e, Event::Analyzed | Event::AnalysisFailed { .. }),
            Phase::Factoring => matches!(e, Event::Factored | Event::FactorFailed { .. }),
            Phase::Solving => matches!(e, Event::Solved { .. }),
            Phase::ReleasingNumeric | Phase::ReleasingSymbolic => matches!(e, Event::Released),
            Phase::Finished => false,
        }
    }

    /// Advances the session on event `e` and returns the next action.
    ///
    /// A release is only ever asked for a context the session owns, the
    /// factorization context always before the analysis context, and the
    /// outcome is only handed back once no context is owned.
    pub fn step(&mut self, e: Event) -> (r: Action)
        requires
            old(self).wf(),
            old(self).expects(e),
        ensures
            (*final(self), r) == old(self).next(e),
            final(self).wf(),
            r is FreeNumeric ==> old(self).numeric_live,
            r is FreeSymbolic ==> old(self).symbolic_live && !old(self).numeric_live,
            r is Finish ==> final(self).phase == Phase::Finished,
    {
        match (self.phase, e) {
            (Phase::Initializing, Event::ConfigReady) => {
                self.phase = Phase::Analyzing;
                Action::Analyze
            },
            (Phase::Initializing, Event::ConfigFailed { code }) => {
                self.phase = Phase::Finished;
                self.outcome = Err(SolveError::EngineInit { code });
                Action::Finish(self.outcome)
            },
            (Phase::Analyzing, Event::Analyzed) => {
                self.phase = Phase::Factoring;
                self.symbolic_live = true;
                Action::Factor
            },
            (Phase::Analyzing, Event::AnalysisFailed { code }) => {
                self.phase = Phase::Finished;
                self.outcome = Err(SolveError::Analysis { code });
                Action::Finish(self.outcome)
            },
            (Phase::Factoring, Event::Factored) => {
                self.phase = Phase::Solving;
                self.numeric_live = true;
                Action::Solve { nrhs: self.nrhs, transpose: self.transpose }
            },
            (Phase::Factoring, Event::FactorFailed { code }) => {
                self.phase = Phase::ReleasingSymbolic;
                self.symbolic_live = false;
                self.outcome = Err(SolveError::Factorization { code });
                Action::FreeSymbolic
            },
            (Phase::Solving, Event::Solved { code }) => {
                self.phase = Phase::ReleasingNumeric;
                self.numeric_live = false;
                self.outcome = if code == ENGINE_TRUE {
                    Ok(())
                } else {
                    Err(SolveError::Solve { code })
                };
                Action::FreeNumeric
            },
            (Phase::ReleasingNumeric, Event::Released) => {
                self.phase = Phase::ReleasingSymbolic;
                self.symbolic_live = false;
                Action::FreeSymbolic
            },
            (Phase::ReleasingSymbolic, Event::Released) => {
                self.phase = Phase::Finished;
                Action::Finish(self.outcome)
            },
            _ => Action::Finish(self.outcome),
        }
    }
}

/// The session and the actions issued after feeding `events` to `s` in order.
pub open spec fn run(s: Session, events: Seq<Event>) -> (Session, Seq<Action>)
    decreases events.len(),
{
    if events.len() == 0 {
        (s, Seq::empty())
    } else {
        let prev = run(s, events.drop_last());
        let last = prev.0.next(events.last());
        (last.0, prev.1.push(last.1))
    }
}

/// Each event of `events` is one the session was waiting for when it came.
pub open spec fn valid_run(s: Session, events: Seq<Event>) -> bool
    decreases events.len(),
{
    events.len() == 0 || (valid_run(s, events.drop_last()) && run(
        s,
        events.drop_last(),
    ).0.expects(events.last()))
}

pub open spec fn count_events(events: Seq<Event>, e: Event) -> nat
    decreases events.len(),
{
    if events.len() == 0 {
        0
    } else {
        count_events(events.drop_last(), e) + if events.last() == e {
            1nat
        } else {
            0nat
        }
    }
}

pub open spec fn count_actions(actions: Seq<Action>, a: Action) -> nat
    decreases actions.len(),
{
    if actions.len() == 0 {
        0
    } else {
        count_actions(actions.drop_last(), a) + if actions.last() == a {
            1nat
        } else {
            0nat
        }
    }
}

pub open spec fn live(b: bool) -> nat {
    if b {
        1
    } else {
        0
    }
}

/// No engine context leaks: along any run of a session, every analysis or
/// factorization context the engine handed out is either still owned or has
/// been released exactly once, and once the outcome is handed back every
/// acquisition has been matched by its release.
pub proof fn lemma_no_leak(shape: Shape, transpose: bool, events: Seq<Event>)
    requires
        valid_run(Session::initial(shape, transpose), events),
    ensures
        ({
            let (s, actions) = run(Session::initial(shape, transpose), events);
            &&& s.wf()
            &&& count_events(events, Event::Analyzed) == count_actions(actions, Action::FreeSymbolic)
                + live(s.symbolic_live)
            &&& count_events(events, Event::Factored) == count_actions(actions, Action::FreeNumeric)
                + live(s.numeric_live)
            &&& (actions.len() > 0 && actions.last() is Finish) ==> {
                &&& count_events(events, Event::Analyzed) == count_actions(
                    actions,
                    Action::FreeSymbolic,
                )
                &&& count_events(events, Event::Factored) == count_actions(
                    actions,
                    Action::FreeNumeric,
                )
            }
        }),
    decreases events.len(),
{
    let init = Session::initial(shape, transpose);
    if events.len() > 0 {
        let rest = events.drop_last();
        lemma_no_leak(shape, transpose, rest);
        let prev = run(init, rest);
        let cur = run(init, events);
        assert(cur.1.drop_last() == prev.1);
        assert(events.drop_last() == rest);
    }
}

} // verus!
