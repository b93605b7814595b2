use vstd::prelude::*;

use crate::text::same_text;

verus! {

/// Conversion between an enumeration and the text that names it on the wire
/// and in the database.
pub trait StrConversion: Sized {
    spec fn spec_from_str(value: Seq<char>) -> Self;

    spec fn spec_as_str(&self) -> Seq<char>;

    fn from_str(value: &str) -> (r: Self)
        ensures
            r == Self::spec_from_str(value@),
    ;

    fn as_str(&self) -> (r: &'static str)
        ensures
            r@ == self.spec_as_str(),
    ;
}

/// Existence state of a tracked path.
#[derive(PartialEq, Eq, Structural, Clone, Copy, Debug)]
pub enum FileState {
    Exists,
    Deleted,
    Ignored,
}

impl StrConversion for FileState {
    open spec fn spec_from_str(value: Seq<char>) -> FileState {
        if value == "Exists"@ {
            FileState::Exists
        } else if value == "Deleted"@ {
            FileState::Deleted
        } else {
            FileState::Ignored
        }
    }

    open spec fn spec_as_str(&self) -> Seq<char> {
        match self {
            FileState::Exists => "Exists"@,
            FileState::Deleted => "Deleted"@,
            FileState::Ignored => "Ignored"@,
        }
    }

    fn from_str(value: &str) -> (r: FileState) {
        if same_text(value, "Exists") {
            FileState::Exists
        } else if same_text(value, "Deleted") {
            FileState::Deleted
        } else {
            FileState::Ignored
        }
    }

    fn as_str(&self) -> (r: &'static str) {
        match self {
            FileState::Exists => "Exists",
            FileState::Deleted => "Deleted",
            FileState::Ignored => "Ignored",
        }
    }
}

/// Where a mod's bytes are fetched from.
#[derive(PartialEq, Eq, Structural, PartialOrd, Ord, Clone, Copy, Debug)]
pub enum DownloadSource {
    ModsyncDl,
    Modrinth,
}

impl StrConversion for DownloadSource {
    open spec fn spec_from_str(value: Seq<char>) -> DownloadSource {
        if value == "Modrinth"@ {
            DownloadSource::Modrinth
        } else {
            DownloadSource::ModsyncDl
        }
    }

    open spec fn spec_as_str(&self) -> Seq<char> {
        match self {
            DownloadSource::ModsyncDl => "ModsyncDl"@,
            DownloadSource::Modrinth => "Modrinth"@,
        }
    }

    fn from_str(value: &str) -> (r: DownloadSource) {
        if same_text(value, "Modrinth") {
            DownloadSource::Modrinth
        } else {
            DownloadSource::ModsyncDl
        }
    }

    fn as_str(&self) -> (r: &'static str) {
        match self {
            DownloadSource::ModsyncDl => "ModsyncDl",
            DownloadSource::Modrinth => "Modrinth",
        }
    }
}

/// Change state of a mod.
#[derive(PartialEq, Eq, Structural, PartialOrd, Ord, Clone, Copy, Debug)]
pub enum ModState {
    Created,
    Updated,
    Deleted,
    Ignored,
}

impl StrConversion for ModState {
    open spec fn spec_from_str(value: Seq<char>) -> ModState {
        if value == "Created"@ {
            ModState::Created
        } else if value == "Updated"@ {
            ModState::Updated
        } else if value == "Deleted"@ {
            ModState::Deleted
        } else {
            ModState::Ignored
        }
    }

    open spec fn spec_as_str(&self) -> Seq<char> {
        match self {
            ModState::Created => "Created"@,
            ModState::Updated => "Updated"@,
            ModState::Deleted => "Deleted"@,
            ModState::Ignored => "Ignored"@,
        }
    }

    fn from_str(value: &str) -> (r: ModState) {
        if same_text(value, "Created") {
            ModState::Created
        } else if same_text(value, "Updated") {
            ModState::Updated
        } else if same_text(value, "Deleted") {
            ModState::Deleted
        } else {
            ModState::Ignored
        }
    }

    fn as_str(&self) -> (r: &'static str) {
        match self {
            ModState::Created => "Created",
            ModState::Updated => "Updated",
            ModState::Deleted => "Deleted",
            ModState::Ignored => "Ignored",
        }
    }
}

} // verus!
