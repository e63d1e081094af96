use vstd::prelude::*;

verus! {

/// Seconds between two background update checks: one day.
pub const CHECK_INTERVAL_SECS: u64 = 86400;

/// What the background thread is to do next.
#[derive(PartialEq, Eq, Structural, Clone, Copy, Debug)]
pub enum SchedulerAction {
    /// Sleep for this many seconds, then report that it woke.
    Sleep(u64),
    /// Run an update check, then report how it finished.
    Check { silent: bool },
    /// Leave the loop.
    Stop,
}

/// Where the background scheduler stands.
#[derive(PartialEq, Eq, Structural, Clone, Copy, Debug)]
pub enum SchedulerPhase {
    Sleeping,
    Checking,
    Stopped,
}

/// What the scheduler decides after a check: the next action, and a line to
/// log when the check failed.
#[derive(Clone, Debug, PartialEq, Eq)]
pub struct SchedulerStep {
    pub action: SchedulerAction,
    pub log: Option<String>,
}

/// The periodic update checker: sleep one interval, check silently, and again,
/// for as long as the process lives or until it is cancelled.
pub struct BackgroundScheduler {
    pub phase: SchedulerPhase,
    pub cancelled: bool,
}

impl BackgroundScheduler {
    /// Starts the cycle: the first action is one full interval of sleep.
    pub fn start() -> (r: (BackgroundScheduler, SchedulerAction))
        ensures
            r.0.phase == SchedulerPhase::Sleeping,
            !r.0.cancelled,
            r.1 == SchedulerAction::Sleep(CHECK_INTERVAL_SECS),
    {
        (
            BackgroundScheduler { phase: SchedulerPhase::Sleeping, cancelled: false },
            SchedulerAction::Sleep(CHECK_INTERVAL_SECS),
        )
    }

    /// Asks the loop to end; it stops at its next decision.
    pub fn cancel(&mut self)
        ensures
            final(self).cancelled,
            final(self).phase == old(self).phase,
    {
        self.cancelled = true;
    }

    /// The sleep ended: check silently, unless cancelled.
    pub fn on_woke(&mut self) -> (r: SchedulerAction)
        requires
            old(self).phase == SchedulerPhase::Sleeping,
        ensures
            final(self).cancelled == old(self).cancelled,
            old(self).cancelled ==> r == SchedulerAction::Stop && final(self).phase == SchedulerPhase::Stopped,
            !old(self).cancelled ==> r == (SchedulerAction::Check { silent: true })
                && final(self).phase == SchedulerPhase::Checking,
    {
        if self.cancelled {
            self.phase = SchedulerPhase::Stopped;
            SchedulerAction::Stop
        } else {
            self.phase = SchedulerPhase::Checking;
            SchedulerAction::Check { silent: true }
        }
    }

    /// The check finished. Whatever its outcome, the next sleep is one full
    /// interval (unless cancelled); a failure is only logged.
    pub fn on_check_finished(&mut self, outcome: Result<(), String>) -> (r: SchedulerStep)
        requires
            old(self).phase == SchedulerPhase::Checking,
        ensures
            final(self).cancelled == old(self).cancelled,
            old(self).cancelled ==> r.action == SchedulerAction::Stop && final(self).phase == SchedulerPhase::Stopped,
            !old(self).cancelled ==> r.action == SchedulerAction::Sleep(CHECK_INTERVAL_SECS)
                && final(self).phase == SchedulerPhase::Sleeping,
            match outcome {
                Ok(()) => r.log is None,
                Err(e) => r.log matches Some(line) && line@ == "Background update check failed: "@ + e@,
            },
    {
        let log = match outcome {
            Ok(()) => None,
            Err(e) => Some(String::from_str("Background update check failed: ").concat(e.as_str())),
        };
        if self.cancelled {
            self.phase = SchedulerPhase::Stopped;
            SchedulerStep { action: SchedulerAction::Stop, log }
        } else {
            self.phase = SchedulerPhase::Sleeping;
            SchedulerStep { action: SchedulerAction::Sleep(CHECK_INTERVAL_SECS), log }
        }
    }
}

} // verus!
