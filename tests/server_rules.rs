use modsync::api::{FileId, FileSyncBody, ModpackCreateBody, ModpackId, UploadAction};
use modsync::models::File;
use modsync::server::{authenticate, parse_port, ApiError, ConfigError, GenericResponse, ServerConfig, ServerConfigEnv, ServerConfigFile};
use modsync::store::{plan_blob_download, plan_create, plan_file_sync, plan_upload, FileWrite};
use modsync::types::FileState;

fn body(name: &str) -> ModpackCreateBody {
    ModpackCreateBody {
        name: name.to_string(),
        game: "minecraft".to_string(),
        game_version: "1.20.1".to_string(),
        modloader: "fabric".to_string(),
        modloader_version: "0.15".to_string(),
    }
}

fn record(path: &str) -> File {
    File {
        id: FileId(format!("id-{path}")),
        modpack: ModpackId("m".to_string()),
        created_at: 0,
        updated_at: 0,
        path: path.to_string(),
        state: FileState::Exists,
        sync_version: 7,
        hash: Some("old".to_string()),
        uploaded: false,
    }
}

#[test]
fn creating_test_twice_is_refused_the_second_time() {
    let mut names: Vec<String> = Vec::new();
    let first = plan_create(&names, &body("Test"), "id-1".to_string());
    assert_eq!(first.expect("first creation succeeds"), ModpackId("id-1".to_string()));
    names.push("Test".to_string());
    let second = plan_create(&names, &body("Test"), "id-2".to_string());
    assert!(matches!(second, Err(ApiError::AlreadyExists)));
}

#[test]
fn plan_create_uses_the_given_id() {
    let r = plan_create(&vec!["Other".to_string()], &body("Test"), "abc".to_string());
    assert_eq!(r.unwrap(), ModpackId("abc".to_string()));
    let r = plan_create(&vec!["Other".to_string(), "Test".to_string()], &body("Test"), "abc".to_string());
    assert!(matches!(r, Err(ApiError::AlreadyExists)));
}

#[test]
fn file_sync_updates_or_inserts() {
    let b = FileSyncBody { path: "mods/a.jar".to_string(), state: FileState::Deleted, hash: Some("h".to_string()) };
    assert!(matches!(plan_file_sync(false, None, &b, "new".to_string()), Err(ApiError::NotFound)));
    let existing = record("mods/a.jar");
    match plan_file_sync(true, Some(&existing), &b, "new".to_string()).unwrap() {
        FileWrite::Update { id, path, state, hash } => {
            assert_eq!(id, existing.id);
            assert_eq!(path, "mods/a.jar");
            assert_eq!(state, FileState::Deleted);
            assert_eq!(hash.as_deref(), Some("h"));
        }
        FileWrite::Insert { .. } => panic!("expected an update"),
    }
    match plan_file_sync(true, None, &b, "new".to_string()).unwrap() {
        FileWrite::Insert { id, path, state, hash } => {
            assert_eq!(id, FileId("new".to_string()));
            assert_eq!(path, "mods/a.jar");
            assert_eq!(state, FileState::Deleted);
            assert_eq!(hash.as_deref(), Some("h"));
        }
        FileWrite::Update { .. } => panic!("expected an insert"),
    }
}

#[test]
fn identical_uploads_write_one_blob() {
    let a = record("mods/a.jar");
    let b = record("mods/copy-of-a.jar");
    let digest = modsync::digest::content_digest(b"jar bytes");
    let first = plan_upload(Some(&a), true, digest.clone(), false, false).unwrap();
    assert!(first.write_blob);
    assert_eq!(first.action, UploadAction::Uploaded);
    assert_eq!(first.file_id, a.id);
    assert_eq!(first.record.id, a.id);
    assert_eq!(first.record.path, "mods/a.jar");
    assert_eq!(first.record.state, FileState::Exists);
    assert!(first.record.uploaded);
    assert_eq!(first.record.hash.as_deref(), Some(digest.as_str()));
    assert_eq!(first.record.sync_version, 8);
    let second = plan_upload(Some(&b), true, digest.clone(), true, true).unwrap();
    assert!(!second.write_blob);
    assert_eq!(second.action, UploadAction::Exists);
    assert_eq!(second.digest, digest);
    assert_eq!(second.file_id, b.id);
    assert!(second.record.uploaded);
    assert_eq!(second.record.hash, first.record.hash);
}

#[test]
fn known_digest_with_missing_blob_is_written_again() {
    let a = record("a");
    let p = plan_upload(Some(&a), true, "d".to_string(), true, false).unwrap();
    assert!(p.write_blob);
    let p = plan_upload(Some(&a), true, "d".to_string(), false, true).unwrap();
    assert!(p.write_blob);
}

#[test]
fn upload_errors() {
    assert!(matches!(plan_upload(None, true, "d".to_string(), false, false), Err(ApiError::NotFound)));
    let a = record("a");
    assert!(matches!(plan_upload(Some(&a), false, "d".to_string(), false, false), Err(ApiError::BadRequest)));
}

#[test]
fn blob_download_needs_an_uploaded_record() {
    assert!(plan_blob_download(1).is_ok());
    assert!(matches!(plan_blob_download(0), Err(ApiError::NotFound)));
}

#[test]
fn bearer_token_must_match() {
    let key = "s3cr3t".to_string();
    let ok = authenticate(&key, Some(&"s3cr3t".to_string())).unwrap();
    assert_eq!(ok.0, "s3cr3t");
    assert!(matches!(authenticate(&key, Some(&"nope".to_string())), Err(ApiError::Unauthorized)));
    assert!(matches!(authenticate(&key, None), Err(ApiError::Unauthorized)));
}

#[test]
fn error_answers() {
    let (s, b) = ApiError::AlreadyExists.response_parts();
    assert_eq!((s, b.error.as_str()), (400, "ALREADY_EXISTS"));
    let (s, b) = ApiError::NotFound.response_parts();
    assert_eq!((s, b.error.as_str()), (404, "NOT_FOUND"));
    let (s, b) = ApiError::Unauthorized.response_parts();
    assert_eq!((s, b.error.as_str()), (401, "UNAUTHORIZED"));
    let (s, b) = ApiError::SqlxDatabase("x".to_string()).response_parts();
    assert_eq!((s, b.error.as_str()), (500, "DATABASE_ERROR"));
    let (s, b) = ApiError::BadRequest.response_parts();
    assert_eq!((s, b.error.as_str()), (400, "BAD_REQUEST"));
    let (s, b) = ApiError::IoError("x".to_string()).response_parts();
    assert_eq!((s, b.error.as_str()), (500, "IO_ERROR"));
    let (s, b) = ApiError::MultipartError("x".to_string()).response_parts();
    assert_eq!((s, b.error.as_str()), (500, "MULTIPART_ERROR"));
    assert!(GenericResponse::new().success);
}

#[test]
fn port_texts() {
    assert_eq!(parse_port("7040"), Some(7040));
    assert_eq!(parse_port("+80"), Some(80));
    assert_eq!(parse_port("0065535"), Some(65535));
    assert_eq!(parse_port("65536"), None);
    assert_eq!(parse_port("99999999999"), None);
    assert_eq!(parse_port(""), None);
    assert_eq!(parse_port("+"), None);
    assert_eq!(parse_port("-1"), None);
    assert_eq!(parse_port("12a"), None);
    for p in ["0", "1", "443", "8080", "+7040", "65535"] {
        assert_eq!(parse_port(p), p.parse::<u16>().ok());
    }
}

fn env() -> ServerConfigEnv {
    ServerConfigEnv { database_url: None, master_key: None, port: None, uploads_directory: None }
}

#[test]
fn config_from_environment_then_file_then_defaults() {
    let file = ServerConfigFile {
        database_url: Some("postgres://file".to_string()),
        master_key: Some("filekey".to_string()),
        port: None,
        uploads_directory: None,
        file_size_limit: None,
    };
    let mut e = env();
    e.master_key = Some("envkey".to_string());
    let c = ServerConfig::resolve(&e, &Some(file)).unwrap();
    assert_eq!(c.database_url, "postgres://file");
    assert_eq!(c.master_key, "envkey");
    assert_eq!(c.port, 7040);
    assert_eq!(c.uploads_directory, "uploads");
    assert_eq!(c.file_size_limit, 262144000);
}

#[test]
fn config_errors() {
    assert!(matches!(ServerConfig::resolve(&env(), &None), Err(ConfigError::MissingDatabaseUrl)));
    let mut e = env();
    e.database_url = Some("db".to_string());
    assert!(matches!(ServerConfig::resolve(&e, &None), Err(ConfigError::MissingMasterKey)));
    e.master_key = Some("k".to_string());
    e.port = Some("http".to_string());
    assert!(matches!(ServerConfig::resolve(&e, &None), Err(ConfigError::InvalidPort)));
    e.port = Some("9000".to_string());
    e.uploads_directory = Some("/srv/blobs".to_string());
    let file = ServerConfigFile { database_url: None, master_key: None, port: Some("1".to_string()), uploads_directory: None, file_size_limit: Some(10) };
    let c = ServerConfig::resolve(&e, &Some(file)).unwrap();
    assert_eq!(c.port, 9000);
    assert_eq!(c.uploads_directory, "/srv/blobs");
    assert_eq!(c.file_size_limit, 10);
}

#[test]
fn racing_uploads_of_identical_bytes_name_the_same_blob() {
    let data = b"shared jar";
    let a = record("mods/a.jar");
    let b = record("mods/b.jar");
    let first = plan_upload(Some(&a), true, modsync::digest::content_digest(data), false, false).unwrap();
    let second = plan_upload(Some(&b), true, modsync::digest::content_digest(data), false, false).unwrap();
    assert!(first.write_blob && second.write_blob);
    assert_eq!(first.digest, second.digest);
}

#[test]
fn uploaded_digest_is_the_digest_of_the_bytes() {
    let data = b"abc";
    let a = record("mods/a.jar");
    let p = plan_upload(Some(&a), true, modsync::digest::content_digest(data), false, false).unwrap();
    assert_eq!(p.digest, "ba7816bf8f01cfea414140de5dae2223b00361a396177a9cb410ff61f20015ad");
    assert_ne!(Some(p.digest.clone()), a.hash);
}
