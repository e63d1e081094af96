use vstd::prelude::*;
use crate::updater::{DownloadProgress, Notification};

verus! {

/// Where one download-and-install run stands.
#[derive(PartialEq, Eq, Structural, Clone, Copy, Debug)]
pub enum InstallPhase {
    /// Waiting for the fresh check against the update service.
    Checking,
    /// Receiving the artifact, chunk by chunk.
    Downloading,
    /// The artifact is complete; the service is installing it.
    Installing,
    /// The new version is installed.
    Installed,
    /// The run was aborted; nothing more is emitted.
    Failed,
}

/// Why a download-and-install run was aborted by this library.
#[derive(PartialEq, Eq, Structural, Clone, Copy, Debug)]
pub enum InstallError {
    /// The fresh check found no newer version.
    NoUpdateAvailable,
    /// The running total no longer fits the byte counter.
    ProgressOverflow,
    /// More bytes arrived than the service announced.
    ExceedsContentLength,
}

impl InstallError {
    /// A human-readable description.
    pub fn message(&self) -> (r: String)
        ensures
            r@ == install_error_text(*self),
    {
        match self {
            InstallError::NoUpdateAvailable => String::from_str("No update available"),
            InstallError::ProgressOverflow => String::from_str("Downloaded size does not fit a 64-bit counter"),
            InstallError::ExceedsContentLength => String::from_str("Downloaded more bytes than the announced size"),
        }
    }
}

pub open spec fn install_error_text(e: InstallError) -> Seq<char> {
    match e {
        InstallError::NoUpdateAvailable => "No update available"@,
        InstallError::ProgressOverflow => "Downloaded size does not fit a 64-bit counter"@,
        InstallError::ExceedsContentLength => "Downloaded more bytes than the announced size"@,
    }
}

/// The sum of a sequence of chunk sizes.
pub open spec fn total_of(chunks: Seq<nat>) -> nat
    decreases chunks.len(),
{
    if chunks.len() == 0 {
        0
    } else {
        total_of(chunks.drop_last()) + chunks.last()
    }
}

proof fn lemma_total_push(chunks: Seq<nat>, x: nat)
    ensures
        total_of(chunks.push(x)) == total_of(chunks) + x,
{
    assert(chunks.push(x).drop_last() =~= chunks);
}

/// One download-and-install run, driven by the events the update service
/// produces. Each method takes one event and returns what to emit.
pub struct InstallSession {
    pub phase: InstallPhase,
    /// Running total of the bytes received.
    pub downloaded: u64,
    /// The expected size, as reported with the latest chunk.
    pub content_length: Option<u64>,
    /// The sizes of the chunks received, in order.
    pub chunks: Ghost<Seq<nat>>,
    /// The notifications emitted so far, in order.
    pub emitted: Ghost<Seq<Notification>>,
}

impl InstallSession {
    /// The progress notification for the current running total.
    pub open spec fn progress_entry(&self) -> Notification {
        Notification::DownloadProgress(
            DownloadProgress { downloaded: self.downloaded, content_length: self.content_length },
        )
    }

    /// The invariant of a run: the running total is the sum of the chunks and
    /// stays within the announced size; the notifications emitted are one
    /// progress entry per chunk, then "ready", then "installed", as far as the
    /// run has come.
    pub open spec fn wf(&self) -> bool {
        let n = self.chunks@.len();
        let e = self.emitted@;
        &&& self.downloaded as nat == total_of(self.chunks@)
        &&& (self.content_length matches Some(t) ==> self.downloaded <= t)
        &&& e.len() <= n + 2
        &&& (forall|i: int| 0 <= i < n && i < e.len() ==> #[trigger] e[i] is DownloadProgress)
        &&& match self.phase {
            InstallPhase::Checking => n == 0 && e.len() == 0,
            InstallPhase::Downloading => e.len() == n && (n > 0 ==> e.last() == self.progress_entry()),
            InstallPhase::Installing => {
                &&& e.len() == n + 1
                &&& e.last() is ReadyToInstall
                &&& (n > 0 ==> e[n - 1] == self.progress_entry())
            },
            InstallPhase::Installed => {
                &&& e.len() == n + 2
                &&& e[n as int] is ReadyToInstall
                &&& e.last() is Installed
                &&& (n > 0 ==> e[n - 1] == self.progress_entry())
            },
            InstallPhase::Failed => !(e.len() == n + 2 && e.last() is Installed),
        }
    }

    /// A run that has not checked yet.
    pub fn new() -> (r: InstallSession)
        ensures
            r.wf(),
            r.phase == InstallPhase::Checking,
            r.downloaded == 0,
            r.emitted@.len() == 0,
    {
        InstallSession {
            phase: InstallPhase::Checking,
            downloaded: 0,
            content_length: None,
            chunks: Ghost(Seq::empty()),
            emitted: Ghost(Seq::empty()),
        }
    }

    /// The fresh check finished: with an update the download starts, without
    /// one the run fails and emits nothing.
    pub fn on_check(&mut self, update_found: bool) -> (r: Result<(), InstallError>)
        requires
            old(self).wf(),
            old(self).phase == InstallPhase::Checking,
        ensures
            final(self).wf(),
            final(self).emitted@ == old(self).emitted@,
            final(self).chunks@ == old(self).chunks@,
            final(self).downloaded == old(self).downloaded,
            !update_found ==> final(self).emitted@.len() == 0,
            update_found ==> r is Ok && final(self).phase == InstallPhase::Downloading,
            !update_found ==> r == Err::<(), InstallError>(InstallError::NoUpdateAvailable)
                && final(self).phase == InstallPhase::Failed,
    {
        if update_found {
            self.phase = InstallPhase::Downloading;
            Ok(())
        } else {
            self.phase = InstallPhase::Failed;
            Err(InstallError::NoUpdateAvailable)
        }
    }

    /// A chunk of `chunk_length` bytes arrived, with the expected size as the
    /// service reports it. Adds it to the running total and returns the
    /// progress notification; fails, and ends the run, where the total would
    /// not fit the counter or would pass the expected size.
    pub fn on_chunk(&mut self, chunk_length: u64, content_length: Option<u64>) -> (r: Result<Notification, InstallError>)
        requires
            old(self).wf(),
            old(self).phase == InstallPhase::Downloading,
        ensures
            final(self).wf(),
            old(self).downloaded + chunk_length > u64::MAX ==> r == Err::<Notification, InstallError>(InstallError::ProgressOverflow),
            old(self).downloaded + chunk_length <= u64::MAX && (content_length matches Some(t)
                && old(self).downloaded + chunk_length > t) ==> r == Err::<Notification, InstallError>(
                InstallError::ExceedsContentLength,
            ),
            r is Err ==> final(self).phase == InstallPhase::Failed && final(self).emitted@ == old(self).emitted@,
            r is Ok <==> (old(self).downloaded + chunk_length <= u64::MAX && !(content_length matches Some(t)
                && old(self).downloaded + chunk_length > t)),
            r is Ok ==> {
                &&& final(self).phase == InstallPhase::Downloading
                &&& final(self).chunks@ == old(self).chunks@.push(chunk_length as nat)
                &&& final(self).downloaded == old(self).downloaded + chunk_length
                &&& final(self).content_length == content_length
                &&& r == Ok::<Notification, InstallError>(final(self).progress_entry())
                &&& final(self).emitted@ == old(self).emitted@.push(final(self).progress_entry())
            },
    {
        if chunk_length > u64::MAX - self.downloaded {
            self.phase = InstallPhase::Failed;
            return Err(InstallError::ProgressOverflow);
        }
        let total: u64 = self.downloaded + chunk_length;
        match content_length {
            Some(t) => {
                if total > t {
                    self.phase = InstallPhase::Failed;
                    return Err(InstallError::ExceedsContentLength);
                }
            },
            None => {},
        }
        proof {
            lemma_total_push(self.chunks@, chunk_length as nat);
        }
        self.downloaded = total;
        self.content_length = content_length;
        self.chunks = Ghost(self.chunks@.push(chunk_length as nat));
        let ghost entry = self.progress_entry();
        self.emitted = Ghost(self.emitted@.push(entry));
        Ok(Notification::DownloadProgress(DownloadProgress { downloaded: total, content_length }))
    }

    /// The artifact is complete: returns the "ready to install" notification.
    pub fn on_download_finished(&mut self) -> (r: Notification)
        requires
            old(self).wf(),
            old(self).phase == InstallPhase::Downloading,
        ensures
            final(self).wf(),
            final(self).phase == InstallPhase::Installing,
            r == Notification::ReadyToInstall,
            final(self).emitted@ == old(self).emitted@.push(r),
            final(self).chunks@ == old(self).chunks@,
            final(self).downloaded == old(self).downloaded,
            final(self).content_length == old(self).content_length,
    {
        self.phase = InstallPhase::Installing;
        self.emitted = Ghost(self.emitted@.push(Notification::ReadyToInstall));
        Notification::ReadyToInstall
    }

    /// The service installed the artifact: returns the "installed"
    /// notification.
    pub fn on_installed(&mut self) -> (r: Notification)
        requires
            old(self).wf(),
            old(self).phase == InstallPhase::Installing,
        ensures
            final(self).wf(),
            final(self).phase == InstallPhase::Installed,
            r == Notification::Installed,
            final(self).emitted@ == old(self).emitted@.push(r),
            final(self).chunks@ == old(self).chunks@,
            final(self).downloaded == old(self).downloaded,
            final(self).content_length == old(self).content_length,
    {
        self.phase = InstallPhase::Installed;
        self.emitted = Ghost(self.emitted@.push(Notification::Installed));
        Notification::Installed
    }

    /// The service failed at any step before the run completed: the run ends
    /// and emits nothing more.
    pub fn on_failure(&mut self)
        requires
            old(self).wf(),
            old(self).phase != InstallPhase::Installed,
        ensures
            final(self).wf(),
            final(self).phase == InstallPhase::Failed,
            final(self).emitted@ == old(self).emitted@,
            final(self).chunks@ == old(self).chunks@,
            final(self).downloaded == old(self).downloaded,
    {
        self.phase = InstallPhase::Failed;
    }
}

/// In a completed run that received any bytes, the last progress
/// notification emitted carries the sum of all chunk sizes, and that sum does
/// not pass the announced size when there is one; after it come only "ready"
/// and "installed".
pub proof fn lemma_final_progress(s: InstallSession)
    requires
        s.wf(),
        s.phase == InstallPhase::Installed,
        s.chunks@.len() > 0,
    ensures
        ({
            let n = s.chunks@.len() as int;
            let e = s.emitted@;
            &&& e.len() == n + 2
            &&& e[n - 1] is DownloadProgress
            &&& e[n - 1]->DownloadProgress_0.downloaded as nat == total_of(s.chunks@)
            &&& (e[n - 1]->DownloadProgress_0.content_length matches Some(t)
                ==> total_of(s.chunks@) <= t)
            &&& e[n] is ReadyToInstall
            &&& e[n + 1] is Installed
        }),
{
}

/// The message a failed user-triggered check returns.
pub fn check_failure_message(reason: &str) -> (r: String)
    ensures
        r@ == "Failed to check for updates: "@ + reason@,
{
    String::from_str("Failed to check for updates: ").concat(reason)
}

/// The message a failed user-triggered install returns.
pub fn install_failure_message(reason: &str) -> (r: String)
    ensures
        r@ == "Failed to install update: "@ + reason@,
{
    String::from_str("Failed to install update: ").concat(reason)
}

} // verus!
