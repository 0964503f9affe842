use match_reports::{Action, EntryPoint, Fatal, Outcome, Plugin, Progress, Startup, Verdict};

/// Drives a start-up with the given outcomes and returns the actions that
/// were asked for, with the verdict if the start-up ended.
fn drive(entry: EntryPoint, outcomes: &[Outcome]) -> (Vec<Action>, Option<Verdict>) {
    let mut startup = Startup::begin(entry);
    let mut asked = Vec::new();
    for outcome in outcomes {
        asked.push(startup.pending());
        match startup.advance(*outcome) {
            Progress::Continue(next) => startup = next,
            Progress::Halt(verdict) => return (asked, Some(verdict)),
        }
    }
    asked.push(startup.pending());
    (asked, None)
}

#[test]
fn main_begins_with_the_store() {
    let startup = Startup::begin(EntryPoint::Main);
    assert_eq!(startup.pending(), Action::AttachPlugin(Plugin::Store));
}

#[test]
fn run_begins_with_the_data_dir() {
    let startup = Startup::begin(EntryPoint::Run);
    assert_eq!(startup.pending(), Action::ResolveDataDir);
}

#[test]
fn main_runs_to_an_ordinary_exit() {
    let (asked, verdict) = drive(EntryPoint::Main, &[Outcome::Succeeded; 4]);
    assert_eq!(
        asked,
        vec![
            Action::AttachPlugin(Plugin::Store),
            Action::AttachPlugin(Plugin::Fs),
            Action::AttachPlugin(Plugin::Shell),
            Action::EnterRunLoop,
        ]
    );
    assert_eq!(verdict, Some(Verdict::Exit));
}

#[test]
fn run_runs_to_an_ordinary_exit() {
    let (asked, verdict) = drive(EntryPoint::Run, &[Outcome::Succeeded; 3]);
    assert_eq!(
        asked,
        vec![
            Action::ResolveDataDir,
            Action::AttachPlugin(Plugin::Store),
            Action::EnterRunLoop,
        ]
    );
    assert_eq!(verdict, Some(Verdict::Exit));
}

#[test]
fn unresolved_data_dir_aborts_before_the_run_loop() {
    let (asked, verdict) = drive(EntryPoint::Run, &[Outcome::Failed]);
    assert_eq!(asked, vec![Action::ResolveDataDir]);
    assert!(!asked.contains(&Action::EnterRunLoop));
    assert_eq!(verdict, Some(Verdict::Abort(Fatal::NoAppDataDir)));
}

#[test]
fn rejected_store_aborts_before_the_run_loop() {
    let (asked, verdict) = drive(EntryPoint::Run, &[Outcome::Succeeded, Outcome::Failed]);
    assert_eq!(asked, vec![Action::ResolveDataDir, Action::AttachPlugin(Plugin::Store)]);
    assert_eq!(verdict, Some(Verdict::Abort(Fatal::RunFailed)));
}

#[test]
fn failed_run_loop_aborts() {
    let outcomes = [Outcome::Succeeded, Outcome::Succeeded, Outcome::Failed];
    let (asked, verdict) = drive(EntryPoint::Run, &outcomes);
    assert_eq!(asked.last(), Some(&Action::EnterRunLoop));
    assert_eq!(verdict, Some(Verdict::Abort(Fatal::RunFailed)));
}

#[test]
fn rejected_plugin_of_main_aborts_where_it_fails() {
    let outcomes = [Outcome::Succeeded, Outcome::Succeeded, Outcome::Failed];
    let (asked, verdict) = drive(EntryPoint::Main, &outcomes);
    assert_eq!(asked.len(), 3);
    assert_eq!(asked[2], Action::AttachPlugin(Plugin::Shell));
    assert_eq!(verdict, Some(Verdict::Abort(Fatal::RunFailed)));
}

#[test]
fn first_failure_decides() {
    let outcomes = [Outcome::Failed, Outcome::Succeeded, Outcome::Succeeded];
    let (asked, verdict) = drive(EntryPoint::Run, &outcomes);
    assert_eq!(asked.len(), 1);
    assert_eq!(verdict, Some(Verdict::Abort(Fatal::NoAppDataDir)));
}

#[test]
fn start_up_is_under_way_while_outcomes_are_missing() {
    let (asked, verdict) = drive(EntryPoint::Main, &[Outcome::Succeeded, Outcome::Succeeded]);
    assert_eq!(asked.len(), 3);
    assert_eq!(asked[2], Action::AttachPlugin(Plugin::Shell));
    assert_eq!(verdict, None);
}

#[test]
fn at_run_loop_has_the_run_loop_outstanding() {
    for entry in [EntryPoint::Main, EntryPoint::Run] {
        assert_eq!(Startup::at_run_loop(entry).pending(), Action::EnterRunLoop);
    }
}

#[test]
fn at_run_loop_ends_with_the_loop() {
    let startup = Startup::at_run_loop(EntryPoint::Run);
    assert!(matches!(startup.advance(Outcome::Succeeded), Progress::Halt(Verdict::Exit)));
    assert!(matches!(
        startup.advance(Outcome::Failed),
        Progress::Halt(Verdict::Abort(Fatal::RunFailed))
    ));
}

#[test]
fn advance_leaves_the_earlier_state_usable() {
    let startup = Startup::begin(EntryPoint::Run);
    let _ = startup.advance(Outcome::Succeeded);
    assert_eq!(startup.pending(), Action::ResolveDataDir);
}
