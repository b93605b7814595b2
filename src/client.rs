use vstd::prelude::*;

use crate::digest::digest_text;
use crate::models::File;
use crate::text::{copy_opt, opt_text};
use crate::types::FileState;

verus! {

/// Download-side bookkeeping of one path.
pub struct FileInfo {
    pub sync_version: i32,
    pub hash: Option<String>,
    pub dirty: bool,
    pub disable_sync: Option<bool>,
}

/// What a [`FileInfo`] holds, as plain values.
pub struct FileInfoView {
    pub sync_version: i32,
    pub hash: Option<Seq<char>>,
    pub dirty: bool,
    pub disable_sync: Option<bool>,
}

impl View for FileInfo {
    type V = FileInfoView;

    open spec fn view(&self) -> FileInfoView {
        FileInfoView {
            sync_version: self.sync_version,
            hash: opt_text(self.hash),
            dirty: self.dirty,
            disable_sync: self.disable_sync,
        }
    }
}

impl FileInfo {
    /// Entry of a path first seen in the server's listing: dirty, so that the
    /// local copy is checked.
    pub fn new(sync_version: i32, hash: Option<String>) -> (r: FileInfo)
        ensures
            r@ == (FileInfoView {
                sync_version,
                hash: opt_text(hash),
                dirty: true,
                disable_sync: None,
            }),
    {
        FileInfo { sync_version, hash, dirty: true, disable_sync: None }
    }
}

/// What the download pass does for one record.
#[derive(PartialEq, Eq, Structural, Clone, Copy, Debug)]
pub enum DownloadStep {
    /// Leave the path and its entry alone.
    Skip,
    /// Fetch the blob by the record's digest and write it to the path.
    Download,
    /// Hash the local copy; fetch the blob again if the digests differ.
    Verify,
    /// Delete the local copy.
    Remove,
    /// Only bring the entry up to date.
    Refresh,
}

/// Whether the entry syncing is switched off.
pub open spec fn sync_disabled(info: FileInfoView) -> bool {
    info.disable_sync == Some(true)
}

/// The step for a record, given its entry and whether the path exists locally.
pub open spec fn step_for(info: FileInfoView, rec: File, local_present: bool, force_check: bool) -> DownloadStep {
    if rec.state == FileState::Ignored || sync_disabled(info) {
        DownloadStep::Skip
    } else if local_present {
        if rec.state == FileState::Exists && (info.dirty || rec.sync_version > info.sync_version
            || force_check) {
            DownloadStep::Verify
        } else if rec.state == FileState::Deleted {
            DownloadStep::Remove
        } else {
            DownloadStep::Refresh
        }
    } else if rec.state == FileState::Exists {
        DownloadStep::Download
    } else {
        DownloadStep::Refresh
    }
}

/// The digest under which a record's blob is fetched; empty when it has none.
pub open spec fn fetch_digest(rec: File) -> Seq<char> {
    match rec.hash {
        Some(h) => h@,
        None => Seq::empty(),
    }
}

/// The entry after a record has been handled.
pub open spec fn refreshed(info: FileInfoView, rec: File) -> FileInfoView {
    FileInfoView { sync_version: rec.sync_version, hash: opt_text(rec.hash), dirty: false, ..info }
}

/// Whether the path exists locally after a step that succeeded.
pub open spec fn present_after(step: DownloadStep, local_present: bool) -> bool {
    match step {
        DownloadStep::Download => true,
        DownloadStep::Verify => true,
        DownloadStep::Remove => false,
        _ => local_present,
    }
}

/// The step for a record, given its entry and whether the path exists locally.
pub fn download_step(info: &FileInfo, rec: &File, local_present: bool, force_check: bool) -> (r:
    DownloadStep)
    ensures
        r == step_for(info@, *rec, local_present, force_check),
{
    let disabled = match info.disable_sync {
        Some(d) => d,
        None => false,
    };
    if rec.state == FileState::Ignored || disabled {
        DownloadStep::Skip
    } else if local_present {
        if rec.state == FileState::Exists && (info.dirty || rec.sync_version > info.sync_version
            || force_check) {
            DownloadStep::Verify
        } else if rec.state == FileState::Deleted {
            DownloadStep::Remove
        } else {
            DownloadStep::Refresh
        }
    } else if rec.state == FileState::Exists {
        DownloadStep::Download
    } else {
        DownloadStep::Refresh
    }
}

/// The digest under which a record's blob is fetched.
pub fn digest_to_fetch(rec: &File) -> (r: String)
    ensures
        r@ == fetch_digest(*rec),
{
    match &rec.hash {
        Some(h) => h.clone(),
        None => String::new(),
    }
}

/// After a [`DownloadStep::Verify`]: whether the local copy, whose digest is
/// `local_hash`, must be fetched again.
pub fn needs_refetch(rec: &File, local_hash: &String) -> (r: bool)
    ensures
        r == (fetch_digest(*rec) != local_hash@),
{
    let d = digest_to_fetch(rec);
    !(d == *local_hash)
}

/// No two entries share a path.
pub open spec fn info_paths_unique(files: Seq<(String, FileInfo)>) -> bool {
    forall|a: int, b: int| 0 <= a < b < files.len() ==> files[a].0@ != files[b].0@
}

/// Download-side state of a directory: where it syncs from, and one entry per
/// path seen in the listing.
pub struct Config {
    pub modpack_id: String,
    pub server_url: String,
    pub files: Vec<(String, FileInfo)>,
}

impl Config {
    pub open spec fn wf(&self) -> bool {
        info_paths_unique(self.files@)
    }

    /// Index of the entry for the record's path, which is added (as
    /// [`FileInfo::new`] with the record's version and no digest) when absent;
    /// none for an ignored record, which gets no entry.
    pub fn track(&mut self, rec: &File) -> (r: Option<usize>)
        requires
            old(self).wf(),
        ensures
            final(self).wf(),
            final(self).modpack_id == old(self).modpack_id,
            final(self).server_url == old(self).server_url,
            rec.state == FileState::Ignored <==> r is None,
            r is None ==> final(self).files@ == old(self).files@,
            r matches Some(idx) ==> idx < final(self).files@.len() && final(self).files@[idx as int].0@
                == rec.path@,
            r is Some && (exists|i: int|
                0 <= i < old(self).files@.len() && old(self).files@[i].0@ == rec.path@)
                ==> final(self).files@ == old(self).files@,
            r is Some && (forall|i: int|
                0 <= i < old(self).files@.len() ==> old(self).files@[i].0@ != rec.path@)
                ==> final(self).files@ == old(self).files@.push(
                final(self).files@[r->Some_0 as int],
            ) && final(self).files@[r->Some_0 as int].1@ == (FileInfoView {
                sync_version: rec.sync_version,
                hash: None,
                dirty: true,
                disable_sync: None,
            }),
    {
        if rec.state == FileState::Ignored {
            return None;
        }
        let mut i: usize = 0;
        while i < self.files.len()
            invariant
                i <= self.files@.len(),
                self.wf(),
                self.files@ == old(self).files@,
                self.modpack_id == old(self).modpack_id,
                self.server_url == old(self).server_url,
                rec.state != FileState::Ignored,
                forall|j: int| 0 <= j < i ==> self.files@[j].0@ != rec.path@,
            decreases self.files@.len() - i,
        {
            if self.files[i].0 == rec.path {
                return Some(i);
            }
            i = i + 1;
        }
        self.files.push((rec.path.clone(), FileInfo::new(rec.sync_version, None)));
        Some(i)
    }

    /// Brings the entry at `idx` up to date with the record once its step has
    /// succeeded: the record's version and digest, and not dirty.
    pub fn refresh(&mut self, idx: usize, rec: &File)
        requires
            idx < old(self).files@.len(),
        ensures
            final(self).modpack_id == old(self).modpack_id,
            final(self).server_url == old(self).server_url,
            final(self).files@.len() == old(self).files@.len(),
            forall|j: int|
                0 <= j < old(self).files@.len() && j != idx ==> #[trigger] final(self).files@[j]
                    == old(self).files@[j],
            final(self).files@[idx as int].0 == old(self).files@[idx as int].0,
            final(self).files@[idx as int].1@ == refreshed(old(self).files@[idx as int].1@, *rec),
            old(self).wf() ==> final(self).wf(),
    {
        let path = self.files[idx].0.clone();
        let disable_sync = self.files[idx].1.disable_sync;
        let info = FileInfo {
            sync_version: rec.sync_version,
            hash: copy_opt(&rec.hash),
            dirty: false,
            disable_sync,
        };
        self.files[idx] = (path, info);
    }
}

/// Convergence: once a record has been handled and its step has succeeded, a
/// second pass over the same record, without forced checks, transfers and
/// deletes nothing.
pub proof fn lemma_second_pass_transfers_nothing(
    info: FileInfoView,
    rec: File,
    local_present: bool,
    force_check: bool,
)
    ensures
        ({
            let step = step_for(info, rec, local_present, force_check);
            let next = if step == DownloadStep::Skip {
                info
            } else {
                refreshed(info, rec)
            };
            let again = step_for(next, rec, present_after(step, local_present), false);
            again == DownloadStep::Skip || again == DownloadStep::Refresh
        }),
{
}

/// The local copy of a path after a step that succeeded, given what was there
/// (`local`) and what a fetch of the record's blob returns (`fetched`).
pub open spec fn local_after(step: DownloadStep, rec: File, local: Option<Seq<u8>>, fetched: Seq<u8>) -> Option<Seq<u8>> {
    match step {
        DownloadStep::Download => Some(fetched),
        DownloadStep::Verify => if fetch_digest(rec) != digest_text(local->Some_0) {
            Some(fetched)
        } else {
            local
        },
        DownloadStep::Remove => None,
        _ => local,
    }
}

/// Convergence: for an entry that is new (dirty) or checked by force, once
/// its step has succeeded against a server whose blob holds bytes with the
/// record's digest, the local copy of an existing record hashes to that
/// digest, and a deleted record has no local copy.
pub proof fn lemma_pass_reproduces_server_content(
    info: FileInfoView,
    rec: File,
    local: Option<Seq<u8>>,
    fetched: Seq<u8>,
    force_check: bool,
)
    requires
        !sync_disabled(info),
        rec.state != FileState::Ignored,
        info.dirty || force_check,
        digest_text(fetched) == fetch_digest(rec),
    ensures
        ({
            let after = local_after(step_for(info, rec, local is Some, force_check), rec, local, fetched);
            &&& rec.state == FileState::Exists ==> after is Some && digest_text(after->Some_0)
                == fetch_digest(rec)
            &&& rec.state == FileState::Deleted ==> after is None
        }),
{
}

} // verus!
