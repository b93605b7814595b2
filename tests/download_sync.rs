use modsync::api::{FileId, ModpackId};
use modsync::client::{digest_to_fetch, download_step, needs_refetch, Config, DownloadStep, FileInfo};
use modsync::models::File;
use modsync::types::FileState;

fn record(path: &str, state: FileState, version: i32, hash: Option<&str>) -> File {
    File {
        id: FileId(format!("id-{path}")),
        modpack: ModpackId("m".to_string()),
        created_at: 0,
        updated_at: 0,
        path: path.to_string(),
        state,
        sync_version: version,
        hash: hash.map(|h| h.to_string()),
        uploaded: true,
    }
}

fn config() -> Config {
    Config { modpack_id: "m".to_string(), server_url: "http://localhost:7040".to_string(), files: Vec::new() }
}

#[test]
fn new_file_info_is_dirty() {
    let info = FileInfo::new(4, None);
    assert_eq!(info.sync_version, 4);
    assert!(info.hash.is_none());
    assert!(info.dirty);
    assert_eq!(info.disable_sync, None);
}

#[test]
fn steps_for_each_case() {
    let fresh = FileInfo::new(1, None);
    let exists = record("a", FileState::Exists, 1, Some("ha"));
    assert_eq!(download_step(&fresh, &exists, false, false), DownloadStep::Download);
    assert_eq!(download_step(&fresh, &exists, true, false), DownloadStep::Verify);
    let clean = FileInfo { sync_version: 1, hash: Some("ha".to_string()), dirty: false, disable_sync: None };
    assert_eq!(download_step(&clean, &exists, true, false), DownloadStep::Refresh);
    assert_eq!(download_step(&clean, &exists, true, true), DownloadStep::Verify);
    let newer = record("a", FileState::Exists, 2, Some("hb"));
    assert_eq!(download_step(&clean, &newer, true, false), DownloadStep::Verify);
    let deleted = record("a", FileState::Deleted, 1, Some("ha"));
    assert_eq!(download_step(&clean, &deleted, true, false), DownloadStep::Remove);
    assert_eq!(download_step(&clean, &deleted, false, false), DownloadStep::Refresh);
    let ignored = record("a", FileState::Ignored, 1, None);
    assert_eq!(download_step(&fresh, &ignored, false, false), DownloadStep::Skip);
    let disabled = FileInfo { sync_version: 0, hash: None, dirty: true, disable_sync: Some(true) };
    assert_eq!(download_step(&disabled, &exists, false, true), DownloadStep::Skip);
    let enabled = FileInfo { disable_sync: Some(false), ..FileInfo::new(0, None) };
    assert_eq!(download_step(&enabled, &exists, false, false), DownloadStep::Download);
}

#[test]
fn refetch_only_when_digests_differ() {
    let rec = record("a", FileState::Exists, 1, Some("ha"));
    assert!(!needs_refetch(&rec, &"ha".to_string()));
    assert!(needs_refetch(&rec, &"hb".to_string()));
    let none = record("a", FileState::Exists, 1, None);
    assert_eq!(digest_to_fetch(&none), "");
    assert_eq!(digest_to_fetch(&rec), "ha");
}

#[test]
fn track_adds_once_and_refresh_updates() {
    let mut c = config();
    let rec = record("mods/a.jar", FileState::Exists, 5, Some("ha"));
    let i = c.track(&rec).unwrap();
    assert_eq!(c.files.len(), 1);
    assert_eq!(c.files[i].1.sync_version, 5);
    assert!(c.files[i].1.dirty);
    assert!(c.files[i].1.hash.is_none());
    let j = c.track(&rec).unwrap();
    assert_eq!(i, j);
    assert_eq!(c.track(&record("x", FileState::Ignored, 1, None)), None);
    assert_eq!(c.files.len(), 1);
    c.refresh(i, &rec);
    assert_eq!(c.files[i].1.sync_version, 5);
    assert!(!c.files[i].1.dirty);
    assert_eq!(c.files[i].1.hash.as_deref(), Some("ha"));
}

#[test]
fn repeat_pass_transfers_nothing() {
    let listing = vec![
        record("a", FileState::Exists, 2, Some("ha")),
        record("b", FileState::Deleted, 1, Some("hb")),
        record("c", FileState::Ignored, 1, None),
    ];
    let mut c = config();
    let mut present = vec![false, true, false];
    let mut transfers = 0;
    for (k, rec) in listing.iter().enumerate() {
        let Some(i) = c.track(rec) else { continue };
        let step = download_step(&c.files[i].1, rec, present[k], false);
        match step {
            DownloadStep::Download | DownloadStep::Verify => { transfers += 1; present[k] = true; }
            DownloadStep::Remove => { transfers += 1; present[k] = false; }
            _ => {}
        }
        if step != DownloadStep::Skip {
            c.refresh(i, rec);
        }
    }
    assert_eq!(transfers, 2);
    for (k, rec) in listing.iter().enumerate() {
        let Some(i) = c.track(rec) else { continue };
        let step = download_step(&c.files[i].1, rec, present[k], false);
        assert!(step == DownloadStep::Refresh || step == DownloadStep::Skip);
    }
    assert_eq!(c.files.len(), 2);
}
