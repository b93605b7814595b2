use modsync::digest::{content_digest, to_hex};
use modsync::types::{DownloadSource, FileState, ModState, StrConversion};

#[test]
fn file_state_text_round_trip() {
    for s in [FileState::Exists, FileState::Deleted, FileState::Ignored] {
        assert_eq!(FileState::from_str(s.as_str()), s);
    }
    assert_eq!(FileState::Exists.as_str(), "Exists");
    assert_eq!(FileState::from_str("Deleted"), FileState::Deleted);
}

#[test]
fn unknown_text_falls_back() {
    assert_eq!(FileState::from_str("exists"), FileState::Ignored);
    assert_eq!(FileState::from_str(""), FileState::Ignored);
    assert_eq!(ModState::from_str("Whatever"), ModState::Ignored);
    assert_eq!(DownloadSource::from_str("modrinth"), DownloadSource::ModsyncDl);
}

#[test]
fn mod_state_and_source_text() {
    for s in [ModState::Created, ModState::Updated, ModState::Deleted, ModState::Ignored] {
        assert_eq!(ModState::from_str(s.as_str()), s);
    }
    assert_eq!(ModState::Updated.as_str(), "Updated");
    assert_eq!(DownloadSource::from_str("Modrinth"), DownloadSource::Modrinth);
    assert_eq!(DownloadSource::ModsyncDl.as_str(), "ModsyncDl");
    assert!(ModState::Created < ModState::Ignored);
}

#[test]
fn hex_of_bytes() {
    assert_eq!(to_hex(&[0x00, 0x0f, 0xa5, 0xff]), "000fa5ff");
    assert_eq!(to_hex(&[]), "");
}

#[test]
fn digest_of_empty_content() {
    assert_eq!(
        content_digest(b""),
        "e3b0c44298fc1c149afbf4c8996fb92427ae41e4649b934ca495991b7852b855"
    );
}

#[test]
fn digest_of_abc() {
    let d = content_digest(b"abc");
    assert_eq!(d, "ba7816bf8f01cfea414140de5dae2223b00361a396177a9cb410ff61f20015ad");
    assert_eq!(d.len(), 64);
}

#[test]
fn identical_bytes_give_identical_digest() {
    let a = content_digest(b"same mod bytes");
    let b = content_digest(b"same mod bytes");
    assert_eq!(a, b);
    assert_ne!(a, content_digest(b"other mod bytes"));
}
