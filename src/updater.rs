use vstd::prelude::*;

verus! {

/// What the update service reports about a newer release.
#[derive(Clone, Debug, PartialEq, Eq)]
pub struct FoundUpdate {
    pub version: String,
    pub date: Option<String>,
    pub body: Option<String>,
}

/// Payload of the "update available" notification.
#[derive(Clone, Debug, PartialEq, Eq)]
pub struct UpdateInfo {
    pub version: String,
    pub current_version: String,
    pub date: Option<String>,
    pub body: Option<String>,
}

/// Payload of a download progress notification: the running total of bytes
/// received and, when the service reports it, the expected size.
#[derive(Clone, Debug, PartialEq, Eq)]
pub struct DownloadProgress {
    pub downloaded: u64,
    pub content_length: Option<u64>,
}

/// A one-way notification to the user interface.
#[derive(Clone, Debug, PartialEq, Eq)]
pub enum Notification {
    UpdateAvailable(UpdateInfo),
    UpdateNotAvailable,
    DownloadProgress(DownloadProgress),
    ReadyToInstall,
    Installed,
}

/// The event name under which a notification is delivered.
pub open spec fn event_name_of(n: Notification) -> Seq<char> {
    match n {
        Notification::UpdateAvailable(_) => "update-available"@,
        Notification::UpdateNotAvailable => "update-not-available"@,
        Notification::DownloadProgress(_) => "update-download-progress"@,
        Notification::ReadyToInstall => "update-ready-to-install"@,
        Notification::Installed => "update-installed"@,
    }
}

impl Notification {
    /// The event name under which this notification is delivered.
    pub fn event_name(&self) -> (r: &'static str)
        ensures
            r@ == event_name_of(*self),
    {
        match self {
            Notification::UpdateAvailable(_) => "update-available",
            Notification::UpdateNotAvailable => "update-not-available",
            Notification::DownloadProgress(_) => "update-download-progress",
            Notification::ReadyToInstall => "update-ready-to-install",
            Notification::Installed => "update-installed",
        }
    }
}

/// What a successful check reports: a silent check reports nothing; otherwise
/// the found update, with the running version beside it, or that none exists.
pub open spec fn check_report(silent: bool, current_version: String, found: Option<FoundUpdate>) -> Option<Notification> {
    if silent {
        None
    } else {
        match found {
            Some(u) => Some(
                Notification::UpdateAvailable(
                    UpdateInfo {
                        version: u.version,
                        current_version: current_version,
                        date: u.date,
                        body: u.body,
                    },
                ),
            ),
            None => Some(Notification::UpdateNotAvailable),
        }
    }
}

/// Decides what a successful update check emits, given whether it is silent,
/// the running version and what the service found.
pub fn report_check(silent: bool, current_version: String, found: Option<FoundUpdate>) -> (r: Option<Notification>)
    ensures
        r == check_report(silent, current_version, found),
{
    if silent {
        None
    } else {
        match found {
            Some(u) => Some(
                Notification::UpdateAvailable(
                    UpdateInfo {
                        version: u.version,
                        current_version: current_version,
                        date: u.date,
                        body: u.body,
                    },
                ),
            ),
            None => Some(Notification::UpdateNotAvailable),
        }
    }
}

/// A silent check never reports that no update exists; a check that is not
/// silent reports exactly one of "available" or "not available", according to
/// what the service found.
pub proof fn lemma_check_reports(silent: bool, current_version: String, found: Option<FoundUpdate>)
    ensures
        silent ==> check_report(silent, current_version, found) is None,
        !silent ==> check_report(silent, current_version, found) is Some,
        !silent ==> (check_report(silent, current_version, found)->Some_0 is UpdateAvailable
            <==> found is Some),
        !silent ==> (check_report(silent, current_version, found)->Some_0 is UpdateNotAvailable
            <==> found is None),
{
}

} // verus!
