//! Laws of updates.

use crate::update::{update_info, DownloadProgress, FoundUpdate, UpdateDownloadEvent, UpdateInfo};
use vstd::prelude::*;

verus! {

/// The user learns of an update what was found of it, and where none was found that there is none.
pub proof fn found_update_is_told(
    current_version: String,
    found: FoundUpdate,
    told: UpdateInfo,
    none: UpdateInfo,
)
    requires
        call_ensures(update_info, (current_version, Some(found)), told),
        call_ensures(update_info, (current_version, None::<FoundUpdate>), none),
    ensures
        told.available && told.version == Some(found.version) && told.notes == found.notes,
        !none.available && none.version is None && none.notes is None,
        told.current_version == current_version,
        none.current_version == current_version,
{
}

/// Each chunk is added to what was downloaded, as far as numbers go, and told as the last event,
/// with the length of the whole. The first one, and no other, is preceded by the start.
pub proof fn every_chunk_counts(
    progress: &mut DownloadProgress,
    chunk_length: u64,
    content_length: Option<u64>,
    events: Vec<UpdateDownloadEvent>,
)
    requires
        call_ensures(
            DownloadProgress::chunk,
            (progress, chunk_length, content_length),
            events,
        ),
    ensures
        final(progress).started,
        old(progress).downloaded + chunk_length <= u64::MAX ==> final(progress).downloaded == old(
            progress).downloaded + chunk_length,
        old(progress).downloaded + chunk_length > u64::MAX ==> final(progress).downloaded
            == u64::MAX,
        events@.last() == (UpdateDownloadEvent::Progress {
            downloaded: final(progress).downloaded,
            content_length,
        }),
        old(progress).started ==> events@.len() == 1,
        !old(progress).started ==> events@.len() == 2 && events@[0] == (
        UpdateDownloadEvent::Started { content_length }),
{
}

/// A download begins with nothing.
pub proof fn download_begins_with_nothing(progress: DownloadProgress)
    requires
        call_ensures(DownloadProgress::new, (), progress),
    ensures
        !progress.started,
        progress.downloaded == 0,
{
}

} // verus!
