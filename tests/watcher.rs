use dir_mirror::{Command, DirWatcher, Event, Phase, StartupError, WakeResult};

fn watcher() -> DirWatcher {
    DirWatcher::new("src".to_string(), "dst".to_string(), true, true, true).unwrap()
}

#[test]
fn new_keeps_paths_and_waits() {
    let w = watcher();
    assert_eq!(w.source, "src");
    assert_eq!(w.destination, "dst");
    assert_eq!(w.phase, Phase::Waiting);
    assert_eq!(w.command(), Command::Wait);
}

#[test]
fn new_reports_each_startup_failure() {
    let s = || "s".to_string();
    assert_eq!(DirWatcher::new(s(), s(), false, false, false).unwrap_err(), StartupError::SourceNotDirectory);
    assert_eq!(DirWatcher::new(s(), s(), false, true, true).unwrap_err(), StartupError::SourceNotDirectory);
    assert_eq!(
        DirWatcher::new(s(), s(), true, false, true).unwrap_err(),
        StartupError::DestinationNotDirectory
    );
    assert_eq!(DirWatcher::new(s(), s(), true, true, false).unwrap_err(), StartupError::SubscriptionFailed);
}

#[test]
fn change_leads_to_rearm_then_one_pass() {
    let mut w = watcher();
    assert_eq!(w.step(Event::Woke(WakeResult::Changed)), Command::Rearm);
    assert_eq!(w.step(Event::Rearmed(true)), Command::Reconcile);
    assert_eq!(w.step(Event::PassFinished), Command::Wait);
    assert_eq!(w.phase, Phase::Waiting);
}

#[test]
fn failed_rearm_still_runs_the_pass() {
    let mut w = watcher();
    w.step(Event::Woke(WakeResult::Changed));
    assert_eq!(w.step(Event::Rearmed(false)), Command::Reconcile);
    assert_eq!(w.step(Event::PassFinished), Command::Wait);
}

#[test]
fn timeout_waits_again() {
    let mut w = watcher();
    assert_eq!(w.step(Event::Woke(WakeResult::TimedOut)), Command::Wait);
    assert_eq!(w.phase, Phase::Waiting);
}

#[test]
fn failed_wait_stops_for_good() {
    let mut w = watcher();
    assert_eq!(w.step(Event::Woke(WakeResult::Failed)), Command::Exit);
    assert_eq!(w.step(Event::Woke(WakeResult::Changed)), Command::Exit);
    assert_eq!(w.step(Event::PassFinished), Command::Exit);
    assert_eq!(w.phase, Phase::Stopped);
}

#[test]
fn unexpected_event_repeats_the_command() {
    let mut w = watcher();
    assert_eq!(w.step(Event::PassFinished), Command::Wait);
    w.step(Event::Woke(WakeResult::Changed));
    assert_eq!(w.step(Event::Woke(WakeResult::Changed)), Command::Rearm);
    assert_eq!(w.source, "src");
}
