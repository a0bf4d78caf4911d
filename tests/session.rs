use klur::{Action, Event, Phase, Session, Shape, SolveError};

/// Drives a session with scripted engine outcomes, counting acquisitions
/// and releases the way an instrumented engine would.
fn drive(shape: Shape, transpose: bool, outcomes: &[Event]) -> (Vec<Action>, usize, usize) {
    let (mut s, mut action) = Session::begin(shape, transpose);
    let mut actions = vec![action];
    let mut acquired = 0;
    let mut released = 0;
    let mut next = outcomes.iter();
    while !matches!(action, Action::Finish(_)) {
        let event = match action {
            Action::FreeNumeric | Action::FreeSymbolic => {
                released += 1;
                Event::Released
            }
            _ => *next.next().expect("scripted outcome"),
        };
        if matches!(event, Event::Analyzed | Event::Factored) {
            acquired += 1;
        }
        assert!(s.accepts(event));
        action = s.step(event);
        actions.push(action);
    }
    assert_eq!(s.phase, Phase::Finished);
    assert!(!s.symbolic_live && !s.numeric_live);
    (actions, acquired, released)
}

fn shape() -> Shape {
    Shape { n: 3, nrhs: 2 }
}

#[test]
fn successful_solve_runs_every_phase() {
    let (actions, acquired, released) = drive(
        shape(),
        false,
        &[Event::ConfigReady, Event::Analyzed, Event::Factored, Event::Solved { code: 1 }],
    );
    assert_eq!(
        actions,
        vec![
            Action::InitConfig,
            Action::Analyze,
            Action::Factor,
            Action::Solve { nrhs: 2, transpose: false },
            Action::FreeNumeric,
            Action::FreeSymbolic,
            Action::Finish(Ok(())),
        ]
    );
    assert_eq!((acquired, released), (2, 2));
}

#[test]
fn transpose_flag_reaches_the_solve() {
    let (actions, _, _) = drive(
        shape(),
        true,
        &[Event::ConfigReady, Event::Analyzed, Event::Factored, Event::Solved { code: 1 }],
    );
    assert_eq!(actions[3], Action::Solve { nrhs: 2, transpose: true });
}

#[test]
fn config_failure_touches_nothing() {
    let (actions, acquired, released) =
        drive(shape(), false, &[Event::ConfigFailed { code: 0 }]);
    assert_eq!(
        actions,
        vec![Action::InitConfig, Action::Finish(Err(SolveError::EngineInit { code: 0 }))]
    );
    assert_eq!((acquired, released), (0, 0));
}

#[test]
fn analysis_failure_releases_nothing() {
    let (actions, acquired, released) =
        drive(shape(), false, &[Event::ConfigReady, Event::AnalysisFailed { code: -3 }]);
    assert_eq!(
        *actions.last().unwrap(),
        Action::Finish(Err(SolveError::Analysis { code: -3 }))
    );
    assert_eq!((acquired, released), (0, 0));
}

#[test]
fn singular_matrix_releases_analysis_before_reporting() {
    let (actions, acquired, released) = drive(
        shape(),
        false,
        &[Event::ConfigReady, Event::Analyzed, Event::FactorFailed { code: 1 }],
    );
    assert_eq!(
        actions,
        vec![
            Action::InitConfig,
            Action::Analyze,
            Action::Factor,
            Action::FreeSymbolic,
            Action::Finish(Err(SolveError::Factorization { code: 1 })),
        ]
    );
    assert_eq!((acquired, released), (1, 1));
}

#[test]
fn solve_failure_releases_numeric_then_symbolic() {
    let (actions, acquired, released) = drive(
        shape(),
        false,
        &[Event::ConfigReady, Event::Analyzed, Event::Factored, Event::Solved { code: 0 }],
    );
    assert_eq!(
        actions[4..].to_vec(),
        vec![
            Action::FreeNumeric,
            Action::FreeSymbolic,
            Action::Finish(Err(SolveError::Solve { code: 0 })),
        ]
    );
    assert_eq!((acquired, released), (2, 2));
}

#[test]
fn unexpected_events_are_not_accepted() {
    let (mut s, _) = Session::begin(shape(), false);
    assert!(!s.accepts(Event::Analyzed));
    assert!(!s.accepts(Event::Released));
    assert_eq!(s.step(Event::ConfigReady), Action::Analyze);
    assert!(!s.accepts(Event::Factored));
    assert!(s.accepts(Event::AnalysisFailed { code: -3 }));
}
