use vstd::prelude::*;

use crate::models::{File, Modpack};
use crate::types::FileState;

verus! {

/// Identifier of a modpack.
#[derive(Debug, Clone, PartialEq, Eq, Hash, PartialOrd, Ord)]
pub struct ModpackId(pub String);

/// Identifier of a file record.
#[derive(Debug, Clone, PartialEq, Eq, Hash, PartialOrd, Ord)]
pub struct FileId(pub String);

/// Identifier of an upload.
#[derive(Debug, Clone, PartialEq, Eq, Hash, PartialOrd, Ord)]
pub struct UploadId(pub String);

/// Answer to the version probe.
pub struct HelloResponse {
    pub version: String,
    pub version_number: u32,
}

/// A modpack and the complete list of its file records.
pub struct ModpackResponse {
    pub modpack: Modpack,
    pub files: Vec<File>,
}

/// Body of a filesync request: the client's view of one path.
pub struct FileSyncBody {
    pub path: String,
    pub state: FileState,
    pub hash: Option<String>,
}

/// Acknowledgement of a filesync request.
pub struct FileSyncResponse {}

/// Body of a modpack creation request.
pub struct ModpackCreateBody {
    pub name: String,
    pub game: String,
    pub game_version: String,
    pub modloader: String,
    pub modloader_version: String,
}

/// Answer to a modpack creation request.
pub struct ModpackCreateResponse {
    pub modpack_id: ModpackId,
}

/// What the blob store did with uploaded bytes.
#[derive(PartialEq, Eq, Structural, Clone, Copy, Debug)]
pub enum UploadAction {
    /// The bytes were written under their digest.
    Uploaded,
    /// A blob with the same digest was already stored; nothing was written.
    Exists,
}

/// Answer to an upload request.
pub struct FileUploadResponse {
    pub action: UploadAction,
    pub file_id: FileId,
}

} // verus!
