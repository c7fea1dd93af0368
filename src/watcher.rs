//! The watch loop's decisions: from what the change-notification service
//! reported to what the caller does next.
use vstd::prelude::*;

verus! {

/// Why a watcher could not be set up.
#[derive(Clone, Copy, Debug, PartialEq, Eq, Structural)]
pub enum StartupError {
    /// The source path is missing or is not a directory.
    SourceNotDirectory,
    /// The destination path is missing or is not a directory.
    DestinationNotDirectory,
    /// The change-notification subscription on the source could not be made.
    SubscriptionFailed,
}

/// What a blocking wait on the subscription returned.
#[derive(Clone, Copy, Debug, PartialEq, Eq, Structural)]
pub enum WakeResult {
    /// The source directory's contents may have changed.
    Changed,
    /// The wait ended without a notification.
    TimedOut,
    /// The wait itself failed: the notification channel is broken.
    Failed,
}

/// What the caller reports back after carrying out a command.
#[derive(Clone, Copy, Debug, PartialEq, Eq, Structural)]
pub enum Event {
    /// A wait returned.
    Woke(WakeResult),
    /// A re-arm was attempted; whether it succeeded.
    Rearmed(bool),
    /// A reconciliation pass ran to its end, successful or not.
    PassFinished,
}

/// What the caller does next.
#[derive(Clone, Copy, Debug, PartialEq, Eq, Structural)]
pub enum Command {
    /// Block until the subscription fires.
    Wait,
    /// Tell the notification service to resume watching.
    Rearm,
    /// Run one reconciliation pass from the source into the destination.
    Reconcile,
    /// Leave the loop: the notification channel is broken.
    Exit,
}

/// Where the watch loop stands.
#[derive(Clone, Copy, Debug, PartialEq, Eq, Structural)]
pub enum Phase {
    Waiting,
    Rearming,
    Reconciling,
    Stopped,
}

/// The command that carries a phase out.
pub open spec fn command_for(phase: Phase) -> Command {
    match phase {
        Phase::Waiting => Command::Wait,
        Phase::Rearming => Command::Rearm,
        Phase::Reconciling => Command::Reconcile,
        Phase::Stopped => Command::Exit,
    }
}

/// The loop's transitions. A change leads to a re-arm, a re-arm (failed or
/// not) to one pass, a pass back to waiting; a failed wait stops the loop for
/// good. An event that the phase does not expect changes nothing.
pub open spec fn next_phase(phase: Phase, e: Event) -> Phase {
    match (phase, e) {
        (Phase::Waiting, Event::Woke(WakeResult::Changed)) => Phase::Rearming,
        (Phase::Waiting, Event::Woke(WakeResult::TimedOut)) => Phase::Waiting,
        (Phase::Waiting, Event::Woke(WakeResult::Failed)) => Phase::Stopped,
        (Phase::Rearming, Event::Rearmed(_)) => Phase::Reconciling,
        (Phase::Reconciling, Event::PassFinished) => Phase::Waiting,
        _ => phase,
    }
}

/// A change leads to a re-arm and then to exactly one pass, whether or not
/// the re-arm succeeded, and the loop then waits again; a failed wait ends
/// the loop for good.
pub proof fn lemma_change_leads_to_one_pass(rearmed: bool)
    ensures
        next_phase(Phase::Waiting, Event::Woke(WakeResult::Changed)) == Phase::Rearming,
        command_for(Phase::Rearming) == Command::Rearm,
        next_phase(Phase::Rearming, Event::Rearmed(rearmed)) == Phase::Reconciling,
        command_for(Phase::Reconciling) == Command::Reconcile,
        next_phase(Phase::Reconciling, Event::PassFinished) == Phase::Waiting,
        command_for(Phase::Waiting) == Command::Wait,
        next_phase(Phase::Waiting, Event::Woke(WakeResult::Failed)) == Phase::Stopped,
        forall|e: Event| next_phase(Phase::Stopped, e) == Phase::Stopped,
{
}

/// A watch session: the source it watches, the destination it mirrors into,
/// and where its loop stands. The notification handle stays with the caller.
#[derive(Clone, Debug)]
pub struct DirWatcher {
    pub source: String,
    pub destination: String,
    pub phase: Phase,
}

impl DirWatcher {
    /// Sets up a session from what the caller found: whether each path is a
    /// directory and whether the subscription on the source was made. The
    /// checks come in that order, and the first that fails is reported.
    pub fn new(
        source: String,
        destination: String,
        source_is_dir: bool,
        destination_is_dir: bool,
        subscribed: bool,
    ) -> (r: Result<DirWatcher, StartupError>)
        ensures
            !source_is_dir ==> r == Err::<DirWatcher, StartupError>(StartupError::SourceNotDirectory),
            source_is_dir && !destination_is_dir ==> r == Err::<DirWatcher, StartupError>(
                StartupError::DestinationNotDirectory,
            ),
            source_is_dir && destination_is_dir && !subscribed ==> r == Err::<DirWatcher, StartupError>(
                StartupError::SubscriptionFailed,
            ),
            source_is_dir && destination_is_dir && subscribed <==> r is Ok,
            r matches Ok(w) ==> w.source@ == source@ && w.destination@ == destination@ && w.phase
                == Phase::Waiting,
    {
        if !source_is_dir {
            Err(StartupError::SourceNotDirectory)
        } else if !destination_is_dir {
            Err(StartupError::DestinationNotDirectory)
        } else if !subscribed {
            Err(StartupError::SubscriptionFailed)
        } else {
            Ok(DirWatcher { source, destination, phase: Phase::Waiting })
        }
    }

    /// The command that the session's current phase asks for.
    pub fn command(&self) -> (r: Command)
        ensures
            r == command_for(self.phase),
    {
        match self.phase {
            Phase::Waiting => Command::Wait,
            Phase::Rearming => Command::Rearm,
            Phase::Reconciling => Command::Reconcile,
            Phase::Stopped => Command::Exit,
        }
    }

    /// Takes in what the last command led to and returns the next command.
    pub fn step(&mut self, e: Event) -> (r: Command)
        ensures
            final(self).phase == next_phase(old(self).phase, e),
            final(self).source == old(self).source,
            final(self).destination == old(self).destination,
            r == command_for(final(self).phase),
    {
        let next = match (self.phase, e) {
            (Phase::Waiting, Event::Woke(WakeResult::Changed)) => Phase::Rearming,
            (Phase::Waiting, Event::Woke(WakeResult::TimedOut)) => Phase::Waiting,
            (Phase::Waiting, Event::Woke(WakeResult::Failed)) => Phase::Stopped,
            (Phase::Rearming, Event::Rearmed(_)) => Phase::Reconciling,
            (Phase::Reconciling, Event::PassFinished) => Phase::Waiting,
            (p, _) => p,
        };
        self.phase = next;
        self.command()
    }
}

} // verus!
