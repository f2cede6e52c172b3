//! Updates of the application.

use crate::locale::{localized, ui_text, UiLocale};
use vstd::prelude::*;

verus! {

/// An update that was found, as far as the user is told of it.
#[derive(Debug, PartialEq, Eq)]
pub struct FoundUpdate {
    pub version: String,
    pub notes: Option<String>,
}

/// Whether there is an update.
#[derive(Debug, PartialEq, Eq)]
pub struct UpdateInfo {
    pub available: bool,
    pub current_version: String,
    pub version: Option<String>,
    pub notes: Option<String>,
}

/// Tells whether there is an update.
pub fn update_info(current_version: String, found: Option<FoundUpdate>) -> (info: UpdateInfo)
    ensures
        info.current_version == current_version,
        match found {
            Some(update) => info.available && info.version == Some(update.version) && info.notes
                == update.notes,
            None => !info.available && info.version is None && info.notes is None,
        },
{
    match found {
        Some(update) => UpdateInfo {
            available: true,
            current_version,
            version: Some(update.version),
            notes: update.notes,
        },
        None => UpdateInfo { available: false, current_version, version: None, notes: None },
    }
}

/// What the user is told while an update is downloaded.
#[derive(Clone, Copy, Debug, PartialEq, Eq, Structural)]
pub enum UpdateDownloadEvent {
    Started { content_length: Option<u64> },
    Progress { downloaded: u64, content_length: Option<u64> },
    Finished,
}

/// How much of an update was downloaded.
#[derive(Clone, Copy, Debug, PartialEq, Eq, Structural)]
pub struct DownloadProgress {
    pub started: bool,
    pub downloaded: u64,
}

/// How much was downloaded after the given chunks. The count stops at the largest number that
/// fits.
pub open spec fn total_downloaded(chunks: Seq<u64>) -> nat
    decreases chunks.len(),
{
    if chunks.len() == 0 {
        0
    } else {
        total_downloaded(chunks.drop_last()) + chunks.last() as nat
    }
}

/// A number, or the largest one that fits where it does not.
pub open spec fn saturated(value: nat) -> u64 {
    if value <= u64::MAX {
        value as u64
    } else {
        u64::MAX
    }
}

impl DownloadProgress {
    /// The state of a download that has received the given chunks.
    pub open spec fn received(self, chunks: Seq<u64>) -> bool {
        &&& self.started == (chunks.len() > 0)
        &&& self.downloaded == saturated(total_downloaded(chunks))
    }

    /// A download that has not begun.
    pub fn new() -> (progress: DownloadProgress)
        ensures
            progress.received(Seq::empty()),
            progress == (DownloadProgress { started: false, downloaded: 0 }),
    {
        DownloadProgress { started: false, downloaded: 0 }
    }

    /// Counts a chunk and tells the user: with the first one also that the download has begun.
    pub fn chunk(&mut self, chunk_length: u64, content_length: Option<u64>) -> (events: Vec<
        UpdateDownloadEvent,
    >)
        ensures
            final(self).started,
            final(self).downloaded == saturated((old(self).downloaded + chunk_length) as nat),
            events@ == if old(self).started {
                seq![
                    UpdateDownloadEvent::Progress {
                        downloaded: final(self).downloaded,
                        content_length,
                    },
                ]
            } else {
                seq![
                    UpdateDownloadEvent::Started { content_length },
                    UpdateDownloadEvent::Progress {
                        downloaded: final(self).downloaded,
                        content_length,
                    },
                ]
            },
    {
        let mut events: Vec<UpdateDownloadEvent> = Vec::new();
        if !self.started {
            events.push(UpdateDownloadEvent::Started { content_length });
            self.started = true;
        }
        self.downloaded = self.downloaded.saturating_add(chunk_length);
        events.push(
            UpdateDownloadEvent::Progress { downloaded: self.downloaded, content_length },
        );
        events
    }
}

/// The progress that is shown is the sum of the chunks, and the start is announced once, before
/// the first of them.
pub proof fn progress_is_the_sum_of_the_chunks(
    before: DownloadProgress,
    after: DownloadProgress,
    chunks: Seq<u64>,
    chunk_length: u64,
)
    requires
        before.received(chunks),
        after.started,
        after.downloaded == saturated((before.downloaded + chunk_length) as nat),
    ensures
        after.received(chunks.push(chunk_length)),
{
    assert(chunks.push(chunk_length).drop_last() == chunks);
}

/// What is said where the search for an update failed.
pub fn update_error(locale: UiLocale) -> (text: String)
    ensures
        text@ == localized(
            locale,
            "無法檢查更新；請確認網路可連線至 GitHub Releases，稍後再試一次"@,
            "Unable to check for updates. Confirm that GitHub Releases is reachable and try again later."@,
        ),
{
    ui_text(
        locale,
        "無法檢查更新；請確認網路可連線至 GitHub Releases，稍後再試一次",
        "Unable to check for updates. Confirm that GitHub Releases is reachable and try again later.",
    ).to_owned()
}

/// What is said where an update could not be installed.
pub fn update_install_error(locale: UiLocale) -> (text: String)
    ensures
        text@ == localized(
            locale,
            "更新下載或簽章驗證失敗；目前版本未變更，請稍後再試一次"@,
            "The update download or signature verification failed. The current version was not changed; try again later."@,
        ),
{
    ui_text(
        locale,
        "更新下載或簽章驗證失敗；目前版本未變更，請稍後再試一次",
        "The update download or signature verification failed. The current version was not changed; try again later.",
    ).to_owned()
}

/// What is said where there is nothing to install.
pub fn no_update(locale: UiLocale) -> (text: String)
    ensures
        text@ == localized(
            locale,
            "目前沒有可安裝的更新"@,
            "No update is currently available to install"@,
        ),
{
    ui_text(
        locale,
        "目前沒有可安裝的更新",
        "No update is currently available to install",
    ).to_owned()
}

} // verus!
