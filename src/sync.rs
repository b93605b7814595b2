use vstd::prelude::*;

use crate::api::FileSyncBody;
use crate::models::File;
use crate::text::{copy_opt, holds_text, opt_text};
use crate::types::FileState;

verus! {

/// Options of an upload run.
pub struct SyncCommand {
    /// Game directory to sync; the current directory when absent.
    pub target_directory: Option<String>,
    /// Push every entry, not only the changed ones.
    pub force_sync: bool,
    /// Upload the bytes of every existing entry that is pushed.
    pub force_upload: bool,
    /// Start from the server's listing instead of the local state.
    pub download_state: bool,
}

/// Settings of an upload run, read from the directory being synced.
pub struct UploadConfig {
    pub modpack_id: String,
    pub server_url: String,
    pub api_key: String,
    pub include_globs: Vec<String>,
    pub excludes: Vec<String>,
}

/// How a path's local state has diverged from the last successful push.
#[derive(PartialEq, Eq, Structural, Clone, Copy, Debug)]
pub enum FileDirtyness {
    Clean,
    Created,
    Updated,
    Deleted,
}

/// Upload-side bookkeeping of one path.
pub struct SyncFile {
    pub hash: Option<String>,
    pub state: FileState,
    pub dirty: FileDirtyness,
}

/// What a [`SyncFile`] holds, as plain values.
pub struct SyncFileView {
    pub hash: Option<Seq<char>>,
    pub state: FileState,
    pub dirty: FileDirtyness,
}

impl View for SyncFile {
    type V = SyncFileView;

    open spec fn view(&self) -> SyncFileView {
        SyncFileView { hash: opt_text(self.hash), state: self.state, dirty: self.dirty }
    }
}

impl SyncFile {
    /// Entry of a path seen for the first time.
    pub fn created(hash: Option<String>) -> (r: SyncFile)
        ensures
            r@ == (SyncFileView {
                hash: opt_text(hash),
                state: FileState::Exists,
                dirty: FileDirtyness::Created,
            }),
    {
        SyncFile { hash, state: FileState::Exists, dirty: FileDirtyness::Created }
    }

    /// Turns the entry into a tombstone.
    pub fn make_deleted(&mut self)
        ensures
            final(self)@ == (SyncFileView {
                state: FileState::Deleted,
                dirty: FileDirtyness::Deleted,
                ..old(self)@
            }),
    {
        self.state = FileState::Deleted;
        self.dirty = FileDirtyness::Deleted;
    }

    /// Records new content for the path.
    pub fn make_updated(&mut self, hash: String)
        ensures
            final(self)@ == (SyncFileView {
                hash: Some(hash@),
                dirty: FileDirtyness::Updated,
                ..old(self)@
            }),
    {
        self.hash = Some(hash);
        self.dirty = FileDirtyness::Updated;
    }

    /// Brings a tombstone back: the path exists again, with new content.
    pub fn restore(&mut self, hash: String)
        ensures
            final(self)@ == (SyncFileView {
                hash: Some(hash@),
                state: FileState::Exists,
                dirty: FileDirtyness::Updated,
            }),
    {
        self.hash = Some(hash);
        self.state = FileState::Exists;
        self.dirty = FileDirtyness::Updated;
    }

    /// Records that the server has accepted the entry.
    pub fn mark_synced(&mut self)
        ensures
            final(self)@ == (SyncFileView { dirty: FileDirtyness::Clean, ..old(self)@ }),
    {
        self.dirty = FileDirtyness::Clean;
    }

    /// A copy of the entry.
    pub fn duplicate(&self) -> (r: SyncFile)
        ensures
            r@ == self@,
    {
        SyncFile { hash: copy_opt(&self.hash), state: self.state, dirty: self.dirty }
    }
}

/// A path found by the scanner, with the digest of its bytes.
pub struct ScannedFile {
    pub path: String,
    pub hash: String,
}

/// No two scanned files share a path.
pub open spec fn distinct_scan(scan: Seq<ScannedFile>) -> bool {
    forall|a: int, b: int| 0 <= a < b < scan.len() ==> scan[a].path@ != scan[b].path@
}

/// The digest that a scan found for path `p`, if the scan saw it.
pub open spec fn scan_lookup(scan: Seq<ScannedFile>, p: Seq<char>) -> Option<Seq<char>> {
    if exists|k: int| 0 <= k < scan.len() && scan[k].path@ == p {
        Some(scan[choose|k: int| 0 <= k < scan.len() && scan[k].path@ == p].hash@)
    } else {
        None
    }
}

/// A scan that saw path `p` at position `k` found `scan[k]`'s digest for it.
pub proof fn lemma_scan_lookup_at(scan: Seq<ScannedFile>, k: int)
    requires
        distinct_scan(scan),
        0 <= k < scan.len(),
    ensures
        scan_lookup(scan, scan[k].path@) == Some(scan[k].hash@),
{
    let p = scan[k].path@;
    assert(exists|j: int| 0 <= j < scan.len() && scan[j].path@ == p);
    let c = choose|j: int| 0 <= j < scan.len() && scan[j].path@ == p;
    if c != k {
        if c < k {
            assert(scan[c].path@ != scan[k].path@);
        } else {
            assert(scan[k].path@ != scan[c].path@);
        }
    }
}

/// Position of path `p` in a scan.
fn find_scanned(scan: &Vec<ScannedFile>, p: &String) -> (r: Option<usize>)
    ensures
        match r {
            Some(k) => k < scan@.len() && scan@[k as int].path@ == p@,
            None => forall|k: int| 0 <= k < scan@.len() ==> scan@[k].path@ != p@,
        },
{
    let mut k: usize = 0;
    while k < scan.len()
        invariant
            k <= scan@.len(),
            forall|j: int| 0 <= j < k ==> scan@[j].path@ != p@,
        decreases scan@.len() - k,
    {
        if scan[k].path == *p {
            return Some(k);
        }
        k = k + 1;
    }
    None
}

/// Position of the entry kept for path `p` among the first `n` entries.
fn find_entry(files: &Vec<(String, SyncFile)>, n: usize, p: &String) -> (r: Option<usize>)
    requires
        n <= files@.len(),
    ensures
        match r {
            Some(i) => i < n && files@[i as int].0@ == p@,
            None => forall|i: int| 0 <= i < n ==> files@[i].0@ != p@,
        },
{
    let mut i: usize = 0;
    while i < n
        invariant
            n <= files@.len(),
            i <= n,
            forall|j: int| 0 <= j < i ==> files@[j].0@ != p@,
        decreases n - i,
    {
        if files[i].0 == *p {
            return Some(i);
        }
        i = i + 1;
    }
    None
}

/// No two entries share a path.
pub open spec fn paths_unique(files: Seq<(String, SyncFile)>) -> bool {
    forall|a: int, b: int| 0 <= a < b < files.len() ==> files[a].0@ != files[b].0@
}

/// Some entry is kept for path `p`.
pub open spec fn tracks(files: Seq<(String, SyncFile)>, p: Seq<char>) -> bool {
    exists|i: int| 0 <= i < files.len() && files[i].0@ == p
}

/// The entry of a known path after a scan that found digest `seen` for it, or
/// did not see it (`None`). A tombstone whose path is seen again exists once
/// more, with the new digest, and is pushed as updated.
pub open spec fn rescanned(f: SyncFileView, seen: Option<Seq<char>>) -> SyncFileView {
    match seen {
        Some(h) => if f.state == FileState::Deleted {
            SyncFileView { hash: Some(h), state: FileState::Exists, dirty: FileDirtyness::Updated }
        } else if f.hash == Some(h) {
            f
        } else {
            SyncFileView { hash: Some(h), dirty: FileDirtyness::Updated, ..f }
        },
        None => if f.state == FileState::Exists {
            SyncFileView { state: FileState::Deleted, dirty: FileDirtyness::Deleted, ..f }
        } else {
            f
        },
    }
}

/// `new` is what the entries `old` become after a scan: known paths keep their
/// place and are rescanned, and each path seen for the first time is added
/// after them as created.
pub open spec fn scan_applied(
    old: Seq<(String, SyncFile)>,
    scan: Seq<ScannedFile>,
    new: Seq<(String, SyncFile)>,
) -> bool {
    &&& paths_unique(new)
    &&& old.len() <= new.len()
    &&& forall|i: int|
        #![trigger new[i]]
        0 <= i < old.len() ==> new[i].0@ == old[i].0@ && new[i].1@ == rescanned(
            old[i].1@,
            scan_lookup(scan, old[i].0@),
        )
    &&& forall|i: int|
        #![trigger new[i]]
        old.len() <= i < new.len() ==> !tracks(old, new[i].0@) && scan_lookup(scan, new[i].0@)
            is Some && new[i].1@ == (SyncFileView {
            hash: scan_lookup(scan, new[i].0@),
            state: FileState::Exists,
            dirty: FileDirtyness::Created,
        })
    &&& forall|k: int| 0 <= k < scan.len() ==> tracks(new, #[trigger] scan[k].path@)
}

/// Every entry of `new` is that of `old`, marked clean.
pub open spec fn all_synced(old: Seq<(String, SyncFile)>, new: Seq<(String, SyncFile)>) -> bool {
    &&& new.len() == old.len()
    &&& forall|i: int|
        #![trigger new[i]]
        0 <= i < old.len() ==> new[i].0@ == old[i].0@ && new[i].1@ == (SyncFileView {
            dirty: FileDirtyness::Clean,
            ..old[i].1@
        })
}

/// One request of the push phase: the filesync body for a path, and whether
/// its bytes are uploaded after it.
pub struct PushAction {
    pub body: FileSyncBody,
    pub upload: bool,
}

/// What a [`PushAction`] holds, as plain values.
pub struct PushView {
    pub path: Seq<char>,
    pub state: FileState,
    pub hash: Option<Seq<char>>,
    pub upload: bool,
}

impl View for PushAction {
    type V = PushView;

    open spec fn view(&self) -> PushView {
        PushView {
            path: self.body.path@,
            state: self.body.state,
            hash: opt_text(self.body.hash),
            upload: self.upload,
        }
    }
}

/// The push request for an entry: sent when the entry is dirty or every entry
/// is forced; the bytes follow when the path exists and is new or changed, or
/// uploads are forced.
pub open spec fn push_of(e: (String, SyncFile), force_sync: bool, force_upload: bool) -> Option<
    PushView,
> {
    if e.1.dirty != FileDirtyness::Clean || force_sync {
        Some(
            PushView {
                path: e.0@,
                state: e.1.state,
                hash: opt_text(e.1.hash),
                upload: e.1.state == FileState::Exists && (force_upload || e.1.dirty
                    == FileDirtyness::Created || e.1.dirty == FileDirtyness::Updated),
            },
        )
    } else {
        None
    }
}

/// The push requests for a list of entries, in their order.
pub open spec fn push_plan(files: Seq<(String, SyncFile)>, force_sync: bool, force_upload: bool) -> Seq<
    PushView,
> {
    files.filter_map(|e: (String, SyncFile)| push_of(e, force_sync, force_upload))
}

/// The last record for path `p` in a listing, if any.
pub open spec fn latest_record(listing: Seq<File>, p: Seq<char>) -> Option<File>
    decreases listing.len(),
{
    if listing.len() == 0 {
        None
    } else if listing.last().path@ == p {
        Some(listing.last())
    } else {
        latest_record(listing.drop_last(), p)
    }
}

/// The entry that seeding from the server makes of a record.
pub open spec fn seeded(r: File) -> SyncFileView {
    SyncFileView { hash: opt_text(r.hash), state: r.state, dirty: FileDirtyness::Updated }
}

/// Upload-side state of a directory: one entry per path ever seen.
pub struct SyncState {
    pub state_version: u32,
    pub upload_version: u32,
    pub files: Vec<(String, SyncFile)>,
}

impl SyncState {
    pub open spec fn wf(&self) -> bool {
        paths_unique(self.files@)
    }

    /// An empty state.
    pub fn new() -> (r: SyncState)
        ensures
            r.wf(),
            r.state_version == 0,
            r.upload_version == 0,
            r.files@.len() == 0,
    {
        SyncState { state_version: 0, upload_version: 0, files: Vec::new() }
    }

    /// A fresh baseline taken from the server's listing: one entry per listed
    /// path, with the server's digest and state, marked updated. Where a path
    /// is listed twice the later record counts.
    pub fn from_server(listing: &Vec<File>) -> (r: SyncState)
        ensures
            r.wf(),
            r.state_version == 0,
            r.upload_version == 0,
            forall|k: int| 0 <= k < listing@.len() ==> tracks(r.files@, #[trigger] listing@[k].path@),
            forall|i: int|
                #![trigger r.files@[i]]
                0 <= i < r.files@.len() ==> latest_record(listing@, r.files@[i].0@) is Some
                    && r.files@[i].1@ == seeded(latest_record(listing@, r.files@[i].0@)->Some_0),
    {
        let mut files: Vec<(String, SyncFile)> = Vec::new();
        let mut k: usize = 0;
        while k < listing.len()
            invariant
                k <= listing@.len(),
                paths_unique(files@),
                forall|m: int| 0 <= m < k ==> tracks(files@, #[trigger] listing@[m].path@),
                forall|i: int|
                    #![trigger files@[i]]
                    0 <= i < files@.len() ==> latest_record(
                        listing@.subrange(0, k as int),
                        files@[i].0@,
                    ) is Some && files@[i].1@ == seeded(
                        latest_record(listing@.subrange(0, k as int), files@[i].0@)->Some_0,
                    ),
            decreases listing@.len() - k,
        {
            let ghost prev = listing@.subrange(0, k as int);
            let ghost cur = listing@.subrange(0, k as int + 1);
            let ghost old_files = files@;
            assert(cur.drop_last() =~= prev);
            assert(cur.last() == listing@[k as int]);
            let rec = &listing[k];
            let entry = SyncFile {
                hash: copy_opt(&rec.hash),
                state: rec.state,
                dirty: FileDirtyness::Updated,
            };
            match find_entry(&files, files.len(), &rec.path) {
                Some(j) => {
                    files[j] = (rec.path.clone(), entry);
                    assert forall|i: int|
                        #![trigger files@[i]]
                        0 <= i < files@.len() implies latest_record(cur, files@[i].0@) is Some
                            && files@[i].1@ == seeded(latest_record(cur, files@[i].0@)->Some_0) by {
                        if i != j {
                            assert(files@[i] == old_files[i]);
                        }
                    }
                    assert forall|m: int| 0 <= m < k + 1 implies tracks(
                        files@,
                        #[trigger] listing@[m].path@,
                    ) by {
                        if m == k {
                            assert(files@[j as int].0@ == listing@[m].path@);
                        } else {
                            let w = choose|w: int|
                                0 <= w < old_files.len() && old_files[w].0@ == listing@[m].path@;
                            assert(files@[w].0@ == old_files[w].0@);
                        }
                    }
                },
                None => {
                    files.push((rec.path.clone(), entry));
                    assert forall|i: int|
                        #![trigger files@[i]]
                        0 <= i < files@.len() implies latest_record(cur, files@[i].0@) is Some
                            && files@[i].1@ == seeded(latest_record(cur, files@[i].0@)->Some_0) by {
                        if i < old_files.len() {
                            assert(files@[i] == old_files[i]);
                        }
                    }
                    assert forall|m: int| 0 <= m < k + 1 implies tracks(
                        files@,
                        #[trigger] listing@[m].path@,
                    ) by {
                        if m == k {
                            assert(files@[old_files.len() as int].0@ == listing@[m].path@);
                        } else {
                            let w = choose|w: int|
                                0 <= w < old_files.len() && old_files[w].0@ == listing@[m].path@;
                            assert(files@[w] == old_files[w]);
                        }
                    }
                },
            }
            k = k + 1;
        }
        assert(listing@.subrange(0, listing@.len() as int) =~= listing@);
        SyncState { state_version: 0, upload_version: 0, files }
    }

    /// The requests of the push phase, in the order of the entries.
    pub fn plan_push(&self, force_sync: bool, force_upload: bool) -> (r: Vec<PushAction>)
        ensures
            r@.map_values(|a: PushAction| a@) == push_plan(self.files@, force_sync, force_upload),
    {
        let mut r: Vec<PushAction> = Vec::new();
        let mut i: usize = 0;
        while i < self.files.len()
            invariant
                i <= self.files@.len(),
                r@.map_values(|a: PushAction| a@) == push_plan(
                    self.files@.subrange(0, i as int),
                    force_sync,
                    force_upload,
                ),
            decreases self.files@.len() - i,
        {
            let ghost done = r@;
            let e = &self.files[i].1;
            let ghost pre = self.files@.subrange(0, i as int);
            let ghost cur = self.files@.subrange(0, i as int + 1);
            assert(cur.drop_last() =~= pre);
            assert(cur.last() == self.files@[i as int]);
            if e.dirty != FileDirtyness::Clean || force_sync {
                let upload = e.state == FileState::Exists && (force_upload || e.dirty
                    == FileDirtyness::Created || e.dirty == FileDirtyness::Updated);
                let body = FileSyncBody {
                    path: self.files[i].0.clone(),
                    state: e.state,
                    hash: copy_opt(&e.hash),
                };
                r.push(PushAction { body, upload });
                assert(r@.map_values(|a: PushAction| a@) =~= done.map_values(|a: PushAction| a@).push(
                    r@.last()@,
                ));
            }
            i = i + 1;
        }
        assert(self.files@.subrange(0, self.files@.len() as int) =~= self.files@);
        r
    }

    /// Closes a run whose push phase succeeded: every entry is clean and the
    /// upload counter moves on.
    pub fn finish_push(&mut self)
        requires
            old(self).upload_version < u32::MAX,
        ensures
            all_synced(old(self).files@, final(self).files@),
            final(self).upload_version == old(self).upload_version + 1,
            final(self).state_version == old(self).state_version,
            old(self).wf() ==> final(self).wf(),
    {
        let ghost before = self.files@;
        let mut next: Vec<(String, SyncFile)> = Vec::new();
        let mut i: usize = 0;
        while i < self.files.len()
            invariant
                self.files@ == before,
                i <= before.len(),
                next@.len() == i,
                forall|j: int|
                    #![trigger next@[j]]
                    0 <= j < i ==> next@[j].0@ == before[j].0@ && next@[j].1@ == (SyncFileView {
                        dirty: FileDirtyness::Clean,
                        ..before[j].1@
                    }),
            decreases before.len() - i,
        {
            let mut entry = self.files[i].1.duplicate();
            entry.mark_synced();
            next.push((self.files[i].0.clone(), entry));
            i = i + 1;
        }
        self.files = next;
        self.upload_version = self.upload_version + 1;
    }

    /// Diffs a scan against the entries: a path seen for the first time is
    /// added as created; a known path whose digest differs, or a tombstone
    /// whose path is seen again, is marked updated with the new digest (and
    /// exists again); a known path that exists but was not seen becomes a
    /// tombstone; anything else is left as it was.
    pub fn apply_scan(&mut self, scanned: &Vec<ScannedFile>)
        requires
            old(self).wf(),
            distinct_scan(scanned@),
        ensures
            final(self).wf(),
            scan_applied(old(self).files@, scanned@, final(self).files@),
            final(self).state_version == old(self).state_version,
            final(self).upload_version == old(self).upload_version,
    {
        let ghost before = self.files@;
        let n = self.files.len();
        let mut next: Vec<(String, SyncFile)> = Vec::new();
        let mut i: usize = 0;
        while i < n
            invariant
                n == before.len(),
                self.files@ == before,
                distinct_scan(scanned@),
                paths_unique(before),
                i <= n,
                next@.len() == i,
                forall|j: int|
                    #![trigger next@[j]]
                    0 <= j < i ==> next@[j].0@ == before[j].0@ && next@[j].1@ == rescanned(
                        before[j].1@,
                        scan_lookup(scanned@, before[j].0@),
                    ),
            decreases n - i,
        {
            let path = self.files[i].0.clone();
            let mut entry = self.files[i].1.duplicate();
            match find_scanned(scanned, &path) {
                Some(k) => {
                    proof {
                        lemma_scan_lookup_at(scanned@, k as int);
                    }
                    if entry.state == FileState::Deleted {
                        entry.restore(scanned[k].hash.clone());
                    } else if !holds_text(&entry.hash, &scanned[k].hash) {
                        entry.make_updated(scanned[k].hash.clone());
                    }
                },
                None => {
                    if entry.state == FileState::Exists {
                        entry.make_deleted();
                    }
                },
            }
            next.push((path, entry));
            i = i + 1;
        }
        let mut k: usize = 0;
        while k < scanned.len()
            invariant
                n == before.len(),
                distinct_scan(scanned@),
                paths_unique(before),
                k <= scanned@.len(),
                n <= next@.len(),
                forall|j: int|
                    #![trigger next@[j]]
                    0 <= j < n ==> next@[j].0@ == before[j].0@ && next@[j].1@ == rescanned(
                        before[j].1@,
                        scan_lookup(scanned@, before[j].0@),
                    ),
                forall|j: int|
                    #![trigger next@[j]]
                    n <= j < next@.len() ==> exists|m: int|
                        0 <= m < k && scanned@[m].path@ == next@[j].0@ && !tracks(before, next@[j].0@)
                            && next@[j].1@ == (SyncFileView {
                            hash: Some(scanned@[m].hash@),
                            state: FileState::Exists,
                            dirty: FileDirtyness::Created,
                        }),
                paths_unique(next@),
                forall|m: int| 0 <= m < k ==> tracks(next@, #[trigger] scanned@[m].path@),
            decreases scanned@.len() - k,
        {
            let ghost p = scanned@[k as int].path@;
            match find_entry(&next, n, &scanned[k].path) {
                Some(j) => {
                    assert(next@[j as int].0@ == p);
                },
                None => {
                    assert(!tracks(before, p)) by {
                        if tracks(before, p) {
                            let w = choose|w: int| 0 <= w < before.len() && before[w].0@ == p;
                            assert(next@[w].0@ == before[w].0@);
                        }
                    }
                    assert forall|j: int| 0 <= j < next@.len() implies next@[j].0@ != p by {
                        if n <= j {
                            let m = choose|m: int|
                                0 <= m < k && scanned@[m].path@ == next@[j].0@ && !tracks(
                                    before,
                                    next@[j].0@,
                                ) && next@[j].1@ == (SyncFileView {
                                    hash: Some(scanned@[m].hash@),
                                    state: FileState::Exists,
                                    dirty: FileDirtyness::Created,
                                });
                            assert(scanned@[m].path@ != scanned@[k as int].path@);
                        }
                    }
                    let ghost old_next = next@;
                    let entry = SyncFile::created(Some(scanned[k].hash.clone()));
                    next.push((scanned[k].path.clone(), entry));
                    assert forall|j: int|
                        #![trigger next@[j]]
                        n <= j < next@.len() implies exists|m: int|
                            0 <= m < k + 1 && scanned@[m].path@ == next@[j].0@ && !tracks(
                                before,
                                next@[j].0@,
                            ) && next@[j].1@ == (SyncFileView {
                            hash: Some(scanned@[m].hash@),
                            state: FileState::Exists,
                            dirty: FileDirtyness::Created,
                        }) by {
                        if j == next@.len() - 1 {
                            assert(scanned@[k as int].path@ == next@[j].0@);
                        } else {
                            assert(next@[j] == old_next[j]);
                        }
                    }
                    assert forall|m: int| 0 <= m < k + 1 implies tracks(
                        next@,
                        #[trigger] scanned@[m].path@,
                    ) by {
                        if m == k {
                            assert(next@[next@.len() - 1].0@ == p);
                        } else {
                            let w = choose|w: int|
                                0 <= w < old_next.len() && old_next[w].0@ == scanned@[m].path@;
                            assert(next@[w] == old_next[w]);
                        }
                    }
                },
            }
            k = k + 1;
        }
        assert forall|j: int|
            #![trigger next@[j]]
            n <= j < next@.len() implies !tracks(before, next@[j].0@) && scan_lookup(
                scanned@,
                next@[j].0@,
            ) is Some && next@[j].1@ == (SyncFileView {
                hash: scan_lookup(scanned@, next@[j].0@),
                state: FileState::Exists,
                dirty: FileDirtyness::Created,
            }) by {
            let m = choose|m: int|
                0 <= m < k && scanned@[m].path@ == next@[j].0@ && !tracks(before, next@[j].0@)
                    && next@[j].1@ == (SyncFileView {
                    hash: Some(scanned@[m].hash@),
                    state: FileState::Exists,
                    dirty: FileDirtyness::Created,
                });
            lemma_scan_lookup_at(scanned@, m);
        }
        self.files = next;
    }
}

} // verus!

verus! {

/// With every entry clean and no forcing, nothing is pushed.
proof fn lemma_clean_plan_is_empty(files: Seq<(String, SyncFile)>, force_upload: bool)
    requires
        forall|i: int| 0 <= i < files.len() ==> #[trigger] files[i].1.dirty == FileDirtyness::Clean,
    ensures
        push_plan(files, false, force_upload) == Seq::<PushView>::empty(),
    decreases files.len(),
{
    if files.len() > 0 {
        lemma_clean_plan_is_empty(files.drop_last(), force_upload);
        assert(files.last().1.dirty == FileDirtyness::Clean);
    }
    assert(push_plan(files, false, force_upload) =~= Seq::<PushView>::empty());
}

/// With every entry clean but the one at `d`, and no forcing, that entry's
/// request is the only one.
proof fn lemma_single_dirty_plan(files: Seq<(String, SyncFile)>, d: int, force_upload: bool)
    requires
        0 <= d < files.len(),
        files[d].1.dirty != FileDirtyness::Clean,
        forall|i: int|
            0 <= i < files.len() && i != d ==> #[trigger] files[i].1.dirty == FileDirtyness::Clean,
    ensures
        push_plan(files, false, force_upload) == seq![
            push_of(files[d], false, force_upload)->Some_0,
        ],
    decreases files.len(),
{
    if d == files.len() - 1 {
        lemma_clean_plan_is_empty(files.drop_last(), force_upload);
    } else {
        lemma_single_dirty_plan(files.drop_last(), d, force_upload);
        assert(files.last().1.dirty == FileDirtyness::Clean);
    }
    assert(push_plan(files, false, force_upload) =~= seq![
        push_of(files[d], false, force_upload)->Some_0,
    ]);
}

/// Idempotence: after a completed run, a second run over the same scan pushes
/// nothing.
pub proof fn lemma_rerun_pushes_nothing(
    before: Seq<(String, SyncFile)>,
    scan: Seq<ScannedFile>,
    scanned: Seq<(String, SyncFile)>,
    synced: Seq<(String, SyncFile)>,
    rescanned_files: Seq<(String, SyncFile)>,
    force_upload: bool,
)
    requires
        paths_unique(before),
        distinct_scan(scan),
        scan_applied(before, scan, scanned),
        all_synced(scanned, synced),
        scan_applied(synced, scan, rescanned_files),
    ensures
        push_plan(rescanned_files, false, force_upload) == Seq::<PushView>::empty(),
{
    if rescanned_files.len() > synced.len() {
        let j = synced.len() as int;
        let p = rescanned_files[j].0@;
        assert(scan_lookup(scan, p) is Some);
        let k = choose|k: int| 0 <= k < scan.len() && scan[k].path@ == p;
        assert(tracks(scanned, scan[k].path@));
        let w = choose|w: int| 0 <= w < scanned.len() && scanned[w].0@ == p;
        assert(synced[w].0@ == p);
        assert(false);
    }
    assert forall|i: int| 0 <= i < rescanned_files.len() implies #[trigger] rescanned_files[i].1.dirty
        == FileDirtyness::Clean by {
        let p = synced[i].0@;
        assert(scanned[i].0@ == p);
        if i < before.len() {
            assert(before[i].0@ == p);
        } else {
            assert(scanned[i].1@.hash == scan_lookup(scan, p));
        }
        assert(rescanned_files[i].1@ == rescanned(synced[i].1@, scan_lookup(scan, p)));
    }
    lemma_clean_plan_is_empty(rescanned_files, force_upload);
}

/// A scan without the file at `m` finds, for every other path, what the full
/// scan found.
proof fn lemma_scan_lookup_without(scan: Seq<ScannedFile>, m: int, q: Seq<char>)
    requires
        distinct_scan(scan),
        0 <= m < scan.len(),
        q != scan[m].path@,
    ensures
        distinct_scan(scan.remove(m)),
        scan_lookup(scan.remove(m), q) == scan_lookup(scan, q),
{
    let rest = scan.remove(m);
    assert forall|a: int, b: int| 0 <= a < b < rest.len() implies rest[a].path@ != rest[b].path@ by {
        let a0 = if a < m { a } else { a + 1 };
        let b0 = if b < m { b } else { b + 1 };
        assert(rest[a] == scan[a0] && rest[b] == scan[b0]);
    }
    if exists|k: int| 0 <= k < rest.len() && rest[k].path@ == q {
        let k = choose|k: int| 0 <= k < rest.len() && rest[k].path@ == q;
        let k0 = if k < m { k } else { k + 1 };
        assert(rest[k] == scan[k0]);
        lemma_scan_lookup_at(rest, k);
        lemma_scan_lookup_at(scan, k0);
    } else {
        assert forall|k0: int| 0 <= k0 < scan.len() implies scan[k0].path@ != q by {
            if k0 != m && scan[k0].path@ == q {
                let k = if k0 < m { k0 } else { k0 - 1 };
                assert(rest[k] == scan[k0]);
            }
        }
    }
}

/// A scan without the file at `m` does not see that file's path.
proof fn lemma_scan_without_misses(scan: Seq<ScannedFile>, m: int)
    requires
        distinct_scan(scan),
        0 <= m < scan.len(),
    ensures
        scan_lookup(scan.remove(m), scan[m].path@) is None,
{
    let rest = scan.remove(m);
    if exists|k: int| 0 <= k < rest.len() && rest[k].path@ == scan[m].path@ {
        let k = choose|k: int| 0 <= k < rest.len() && rest[k].path@ == scan[m].path@;
        let k0 = if k < m { k } else { k + 1 };
        assert(rest[k] == scan[k0]);
        assert(scan[k0].path@ != scan[m].path@);
    }
}

/// After a completed run over a scan, the entry of every path that scan saw,
/// other than the one at `d`, is clean again after rescanning without the
/// file at `m`, whose path is that of `d`.
proof fn lemma_other_entry_stays_clean(
    before: Seq<(String, SyncFile)>,
    scan: Seq<ScannedFile>,
    scanned: Seq<(String, SyncFile)>,
    synced: Seq<(String, SyncFile)>,
    m: int,
    d: int,
    i: int,
    rescanned_files: Seq<(String, SyncFile)>,
)
    requires
        distinct_scan(scan),
        scan_applied(before, scan, scanned),
        all_synced(scanned, synced),
        0 <= m < scan.len(),
        0 <= d < synced.len(),
        synced[d].0@ == scan[m].path@,
        scan_applied(synced, scan.remove(m), rescanned_files),
        0 <= i < synced.len(),
        i != d,
    ensures
        rescanned_files[i].1.dirty == FileDirtyness::Clean,
{
    let p = scan[m].path@;
    let q = synced[i].0@;
    assert(scanned[i].0@ == q);
    assert(scanned[d].0@ == p);
    if i < d {
        assert(scanned[i].0@ != scanned[d].0@);
    } else {
        assert(scanned[d].0@ != scanned[i].0@);
    }
    lemma_scan_lookup_without(scan, m, q);
    if i < before.len() {
        assert(before[i].0@ == q);
    } else {
        assert(scanned[i].1@.hash == scan_lookup(scan, q));
    }
    assert(rescanned_files[i].1@ == rescanned(synced[i].1@, scan_lookup(scan.remove(m), q)));
}

/// Rescanning the state of a completed run without one of its files adds no
/// entry.
proof fn lemma_rescan_adds_nothing(
    before: Seq<(String, SyncFile)>,
    scan: Seq<ScannedFile>,
    scanned: Seq<(String, SyncFile)>,
    synced: Seq<(String, SyncFile)>,
    m: int,
    rescanned_files: Seq<(String, SyncFile)>,
)
    requires
        scan_applied(before, scan, scanned),
        all_synced(scanned, synced),
        0 <= m < scan.len(),
        scan_applied(synced, scan.remove(m), rescanned_files),
    ensures
        rescanned_files.len() == synced.len(),
{
    let rest = scan.remove(m);
    if rescanned_files.len() > synced.len() {
        let j = synced.len() as int;
        let q = rescanned_files[j].0@;
        assert(scan_lookup(rest, q) is Some);
        let k = choose|k: int| 0 <= k < rest.len() && rest[k].path@ == q;
        let k0 = if k < m { k } else { k + 1 };
        assert(rest[k] == scan[k0]);
        assert(tracks(scanned, scan[k0].path@));
        let w = choose|w: int| 0 <= w < scanned.len() && scanned[w].0@ == q;
        assert(synced[w].0@ == q);
        assert(false);
    }
}

/// Tombstones: after a completed run over a scan, when the file at `m` of
/// that scan is deleted and nothing else changes, the next run pushes exactly
/// one request, which marks that path deleted with its last digest and
/// uploads nothing. `d` is the position of the path's entry, which the
/// completed run left existing.
pub proof fn lemma_deleted_file_single_push(
    before: Seq<(String, SyncFile)>,
    scan: Seq<ScannedFile>,
    scanned: Seq<(String, SyncFile)>,
    synced: Seq<(String, SyncFile)>,
    m: int,
    d: int,
    rescanned_files: Seq<(String, SyncFile)>,
    force_upload: bool,
)
    requires
        paths_unique(before),
        distinct_scan(scan),
        scan_applied(before, scan, scanned),
        all_synced(scanned, synced),
        0 <= m < scan.len(),
        0 <= d < synced.len(),
        synced[d].0@ == scan[m].path@,
        synced[d].1.state == FileState::Exists,
        scan_applied(synced, scan.remove(m), rescanned_files),
    ensures
        push_plan(rescanned_files, false, force_upload) == seq![
            PushView {
                path: scan[m].path@,
                state: FileState::Deleted,
                hash: Some(scan[m].hash@),
                upload: false,
            },
        ],
{
    lemma_scan_lookup_at(scan, m);
    lemma_scan_without_misses(scan, m);
    lemma_rescan_adds_nothing(before, scan, scanned, synced, m, rescanned_files);
    assert(scanned[d].1@.hash == Some(scan[m].hash@)) by {
        if d < before.len() {
            assert(before[d].0@ == scan[m].path@);
        }
    }
    assert forall|i: int| 0 <= i < rescanned_files.len() && i != d implies #[trigger] rescanned_files[i].1.dirty
        == FileDirtyness::Clean by {
        lemma_other_entry_stays_clean(before, scan, scanned, synced, m, d, i, rescanned_files);
    }
    assert(rescanned_files[d].1@ == rescanned(synced[d].1@, None));
    lemma_single_dirty_plan(rescanned_files, d, force_upload);
}

} // verus!
