use vstd::prelude::*;

use crate::api::{FileId, ModpackId};
use crate::types::FileState;

verus! {

/// Metadata of a modpack.
pub struct Modpack {
    pub id: ModpackId,
    pub name: String,
    pub modloader: Option<String>,
    pub modloader_version: Option<String>,
    pub game_version: Option<String>,
    pub sync_version: i32,
}

/// The authoritative record of one tracked path of a modpack.
///
/// `created_at` and `updated_at` are microseconds since the Unix epoch (UTC).
pub struct File {
    pub id: FileId,
    pub modpack: ModpackId,
    pub created_at: i64,
    pub updated_at: i64,
    pub path: String,
    pub state: FileState,
    pub sync_version: i32,
    pub hash: Option<String>,
    pub uploaded: bool,
}

} // verus!
