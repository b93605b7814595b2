use modsync::api::{FileId, ModpackId};
use modsync::models::File;
use modsync::sync::{FileDirtyness, ScannedFile, SyncFile, SyncState};
use modsync::types::FileState;

fn scanned(path: &str, hash: &str) -> ScannedFile {
    ScannedFile { path: path.to_string(), hash: hash.to_string() }
}

fn entry<'a>(state: &'a SyncState, path: &str) -> &'a SyncFile {
    &state.files.iter().find(|(p, _)| p == path).expect("entry").1
}

fn run(state: &mut SyncState, scan: &[ScannedFile], force_sync: bool, force_upload: bool) -> Vec<(String, FileState, Option<String>, bool)> {
    state.apply_scan(&scan.iter().map(|s| scanned(&s.path, &s.hash)).collect());
    let plan = state.plan_push(force_sync, force_upload);
    state.finish_push();
    plan.into_iter()
        .map(|a| (a.body.path, a.body.state, a.body.hash, a.upload))
        .collect()
}

#[test]
fn sync_file_transitions() {
    let mut f = SyncFile::created(Some("h1".to_string()));
    assert_eq!(f.state, FileState::Exists);
    assert_eq!(f.dirty, FileDirtyness::Created);
    f.make_updated("h2".to_string());
    assert_eq!(f.hash.as_deref(), Some("h2"));
    assert_eq!(f.dirty, FileDirtyness::Updated);
    f.mark_synced();
    assert_eq!(f.dirty, FileDirtyness::Clean);
    f.make_deleted();
    assert_eq!(f.state, FileState::Deleted);
    assert_eq!(f.dirty, FileDirtyness::Deleted);
    assert_eq!(f.hash.as_deref(), Some("h2"));
}

#[test]
fn new_state_is_empty() {
    let s = SyncState::new();
    assert_eq!(s.state_version, 0);
    assert_eq!(s.upload_version, 0);
    assert!(s.files.is_empty());
}

#[test]
fn first_run_creates_and_uploads_everything() {
    let mut s = SyncState::new();
    let plan = run(&mut s, &[scanned("mods/a.jar", "ha"), scanned("mods/b.jar", "hb")], false, false);
    assert_eq!(
        plan,
        vec![
            ("mods/a.jar".to_string(), FileState::Exists, Some("ha".to_string()), true),
            ("mods/b.jar".to_string(), FileState::Exists, Some("hb".to_string()), true),
        ]
    );
    assert_eq!(s.upload_version, 1);
    assert!(s.files.iter().all(|(_, f)| f.dirty == FileDirtyness::Clean));
}

#[test]
fn second_run_without_changes_pushes_nothing() {
    let mut s = SyncState::new();
    let scan = [scanned("mods/a.jar", "ha"), scanned("config/x.toml", "hx")];
    run(&mut s, &scan, false, false);
    let again = run(&mut s, &scan, false, false);
    assert!(again.is_empty());
    assert_eq!(s.upload_version, 2);
}

#[test]
fn changed_file_is_updated_and_uploaded() {
    let mut s = SyncState::new();
    run(&mut s, &[scanned("mods/a.jar", "ha")], false, false);
    s.apply_scan(&vec![scanned("mods/a.jar", "ha2")]);
    assert_eq!(entry(&s, "mods/a.jar").dirty, FileDirtyness::Updated);
    assert_eq!(entry(&s, "mods/a.jar").hash.as_deref(), Some("ha2"));
    let plan = s.plan_push(false, false);
    assert_eq!(plan.len(), 1);
    assert!(plan[0].upload);
    assert_eq!(plan[0].body.hash.as_deref(), Some("ha2"));
}

#[test]
fn deleted_file_becomes_one_tombstone_push() {
    let mut s = SyncState::new();
    run(&mut s, &[scanned("mods/a.jar", "ha"), scanned("mods/b.jar", "hb")], false, false);
    let plan = run(&mut s, &[scanned("mods/b.jar", "hb")], false, false);
    assert_eq!(
        plan,
        vec![("mods/a.jar".to_string(), FileState::Deleted, Some("ha".to_string()), false)]
    );
    assert_eq!(s.files.len(), 2);
    assert_eq!(entry(&s, "mods/a.jar").state, FileState::Deleted);
    let third = run(&mut s, &[scanned("mods/b.jar", "hb")], false, false);
    assert!(third.is_empty());
}

#[test]
fn force_sync_pushes_all_and_force_upload_uploads_existing() {
    let mut s = SyncState::new();
    run(&mut s, &[scanned("a", "ha"), scanned("b", "hb")], false, false);
    run(&mut s, &[scanned("b", "hb")], false, false);
    let forced = run(&mut s, &[scanned("b", "hb")], true, false);
    assert_eq!(forced.len(), 2);
    assert!(forced.iter().all(|a| !a.3));
    let uploads = run(&mut s, &[scanned("b", "hb")], true, true);
    assert_eq!(
        uploads,
        vec![
            ("a".to_string(), FileState::Deleted, Some("ha".to_string()), false),
            ("b".to_string(), FileState::Exists, Some("hb".to_string()), true),
        ]
    );
}

#[test]
fn entry_without_digest_takes_the_scanned_one() {
    let mut s = SyncState::new();
    s.files.push((
        "a".to_string(),
        SyncFile { hash: None, state: FileState::Exists, dirty: FileDirtyness::Clean },
    ));
    s.apply_scan(&vec![scanned("a", "ha")]);
    assert_eq!(entry(&s, "a").hash.as_deref(), Some("ha"));
    assert_eq!(entry(&s, "a").dirty, FileDirtyness::Updated);
}

fn record(path: &str, state: FileState, hash: Option<&str>) -> File {
    File {
        id: FileId(format!("id-{path}")),
        modpack: ModpackId("m".to_string()),
        created_at: 0,
        updated_at: 0,
        path: path.to_string(),
        state,
        sync_version: 3,
        hash: hash.map(|h| h.to_string()),
        uploaded: true,
    }
}

#[test]
fn seeding_from_server_marks_every_entry_updated() {
    let listing = vec![
        record("a", FileState::Exists, Some("ha")),
        record("b", FileState::Deleted, Some("hb")),
        record("a", FileState::Exists, Some("ha2")),
    ];
    let s = SyncState::from_server(&listing);
    assert_eq!(s.files.len(), 2);
    assert_eq!(entry(&s, "a").hash.as_deref(), Some("ha2"));
    assert_eq!(entry(&s, "b").state, FileState::Deleted);
    assert!(s.files.iter().all(|(_, f)| f.dirty == FileDirtyness::Updated));
    let plan = s.plan_push(false, false);
    assert_eq!(plan.len(), 2);
    assert!(plan.iter().find(|a| a.body.path == "a").unwrap().upload);
    assert!(!plan.iter().find(|a| a.body.path == "b").unwrap().upload);
}

#[test]
fn empty_scan_of_empty_state_pushes_nothing() {
    let mut s = SyncState::new();
    let plan = run(&mut s, &[], false, true);
    assert!(plan.is_empty());
    assert!(s.files.is_empty());
    let forced = run(&mut s, &[], true, true);
    assert!(forced.is_empty());
    assert!(SyncState::from_server(&Vec::new()).files.is_empty());
}

#[test]
fn tombstone_seen_again_exists_and_is_uploaded() {
    let mut s = SyncState::new();
    run(&mut s, &[scanned("a", "ha")], false, false);
    run(&mut s, &[], false, false);
    assert_eq!(entry(&s, "a").state, FileState::Deleted);
    let plan = run(&mut s, &[scanned("a", "ha")], false, false);
    assert_eq!(plan, vec![("a".to_string(), FileState::Exists, Some("ha".to_string()), true)]);
    assert_eq!(entry(&s, "a").state, FileState::Exists);
    assert!(run(&mut s, &[scanned("a", "ha")], false, false).is_empty());
}
