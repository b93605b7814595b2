use vstd::prelude::*;
use vstd::string::*;

use crate::api::{FileId, ModpackId};
use crate::models;
use crate::types::FileState;

verus! {

/// Options of the server command.
pub struct ServeCommand {}

/// Failure of a server request.
#[derive(Debug)]
pub enum ApiError {
    SqlxDatabase(String),
    MultipartError(String),
    IoError(String),
    AlreadyExists,
    Unauthorized,
    NotFound,
    BadRequest,
}

/// Body of an error answer.
pub struct ErrorResponse {
    pub error: String,
}

/// HTTP status and error code that answer an error.
pub open spec fn error_answer(e: ApiError) -> (u16, Seq<char>) {
    match e {
        ApiError::SqlxDatabase(_) => (500, "DATABASE_ERROR"@),
        ApiError::MultipartError(_) => (500, "MULTIPART_ERROR"@),
        ApiError::IoError(_) => (500, "IO_ERROR"@),
        ApiError::AlreadyExists => (400, "ALREADY_EXISTS"@),
        ApiError::Unauthorized => (401, "UNAUTHORIZED"@),
        ApiError::NotFound => (404, "NOT_FOUND"@),
        ApiError::BadRequest => (400, "BAD_REQUEST"@),
    }
}

impl ApiError {
    /// The HTTP status and error body that answer the error.
    pub fn response_parts(&self) -> (r: (u16, ErrorResponse))
        ensures
            r.0 == error_answer(*self).0,
            r.1.error@ == error_answer(*self).1,
    {
        let (status, code) = match self {
            ApiError::SqlxDatabase(_) => (500u16, "DATABASE_ERROR"),
            ApiError::MultipartError(_) => (500u16, "MULTIPART_ERROR"),
            ApiError::IoError(_) => (500u16, "IO_ERROR"),
            ApiError::AlreadyExists => (400u16, "ALREADY_EXISTS"),
            ApiError::Unauthorized => (401u16, "UNAUTHORIZED"),
            ApiError::NotFound => (404u16, "NOT_FOUND"),
            ApiError::BadRequest => (400u16, "BAD_REQUEST"),
        };
        (status, ErrorResponse { error: String::from_str(code) })
    }
}

/// Generic success answer.
pub struct GenericResponse {
    pub success: bool,
}

impl GenericResponse {
    pub fn new() -> (r: GenericResponse)
        ensures
            r.success,
    {
        GenericResponse { success: true }
    }
}

/// Proof that a request carried the server's key.
pub struct AuthenticatedKey(pub String);

/// Checks the bearer token of a request against the server's key.
pub fn authenticate(master_key: &String, bearer: Option<&String>) -> (r: Result<
    AuthenticatedKey,
    ApiError,
>)
    ensures
        match bearer {
            Some(t) if t@ == master_key@ => r is Ok && r->Ok_0.0@ == master_key@,
            _ => r == Err::<AuthenticatedKey, ApiError>(ApiError::Unauthorized),
        },
{
    match bearer {
        Some(t) => {
            if *t == *master_key {
                Ok(AuthenticatedKey(master_key.clone()))
            } else {
                Err(ApiError::Unauthorized)
            }
        },
        None => Err(ApiError::Unauthorized),
    }
}

/// Query of an upload request.
pub struct FileUploadQuery {
    pub file_path: String,
}

/// Server settings as a configuration file may give them.
pub struct ServerConfigFile {
    pub database_url: Option<String>,
    pub master_key: Option<String>,
    pub port: Option<String>,
    pub uploads_directory: Option<String>,
    pub file_size_limit: Option<usize>,
}

/// Server settings as the environment may give them.
pub struct ServerConfigEnv {
    pub database_url: Option<String>,
    pub master_key: Option<String>,
    pub port: Option<String>,
    pub uploads_directory: Option<String>,
}

/// Resolved server settings.
pub struct ServerConfig {
    pub database_url: String,
    pub master_key: String,
    pub port: u16,
    pub uploads_directory: String,
    pub file_size_limit: usize,
}

/// Why server settings could not be resolved.
#[derive(PartialEq, Eq, Structural, Clone, Copy, Debug)]
pub enum ConfigError {
    MissingDatabaseUrl,
    MissingMasterKey,
    InvalidPort,
}

/// Port used when none is configured.
pub const DEFAULT_PORT: u16 = 7040;

/// Uploads directory used when none is configured.
pub open spec fn default_uploads_directory() -> Seq<char> {
    "uploads"@
}

/// Request body limit in bytes used when none is configured.
pub const DEFAULT_FILE_SIZE_LIMIT: usize = 262144000;

pub open spec fn is_digit(c: char) -> bool {
    '0' <= c <= '9'
}

/// Value of a string of decimal digits.
pub open spec fn digits_value(s: Seq<char>) -> nat
    decreases s.len(),
{
    if s.len() == 0 {
        0
    } else {
        digits_value(s.drop_last()) * 10 + (s.last() as int - '0' as int) as nat
    }
}

/// The digits of an unsigned number's text: a leading `+` is allowed.
pub open spec fn unsigned_digits(s: Seq<char>) -> Seq<char> {
    if s.len() > 0 && s[0] == '+' {
        s.skip(1)
    } else {
        s
    }
}

/// The port that a text names, as `u16`'s parser reads it: an optional `+`,
/// then one or more decimal digits whose value fits.
pub open spec fn port_of(s: Seq<char>) -> Option<u16> {
    let d = unsigned_digits(s);
    if d.len() > 0 && (forall|i: int| 0 <= i < d.len() ==> is_digit(#[trigger] d[i]))
        && digits_value(d) <= u16::MAX {
        Some(digits_value(d) as u16)
    } else {
        None
    }
}

/// A longer string of digits is worth at least as much as its prefix.
proof fn lemma_digits_value_prefix(s: Seq<char>, k: int)
    requires
        0 <= k <= s.len(),
        forall|i: int| 0 <= i < s.len() ==> is_digit(#[trigger] s[i]),
    ensures
        digits_value(s.subrange(0, k)) <= digits_value(s),
    decreases s.len(),
{
    if k < s.len() {
        lemma_digits_value_prefix(s.drop_last(), k);
        assert(s.drop_last().subrange(0, k) =~= s.subrange(0, k));
    } else {
        assert(s.subrange(0, k) =~= s);
    }
}

/// Reads a port number.
pub fn parse_port(s: &str) -> (r: Option<u16>)
    ensures
        r == port_of(s@),
{
    let n = s.unicode_len();
    let mut start: usize = 0;
    if n > 0 && s.get_char(0) == '+' {
        start = 1;
    }
    let ghost d = unsigned_digits(s@);
    assert(d =~= s@.subrange(start as int, n as int));
    if start == n {
        return None;
    }
    let mut v: u32 = 0;
    let mut i: usize = start;
    while i < n
        invariant
            start <= i <= n,
            n == s@.len(),
            d =~= s@.subrange(start as int, n as int),
            d == unsigned_digits(s@),
            v as nat == digits_value(d.subrange(0, i - start)),
            v <= 65535,
            forall|j: int| 0 <= j < i - start ==> is_digit(#[trigger] d[j]),
        decreases n - i,
    {
        let c = s.get_char(i);
        if !('0' <= c && c <= '9') {
            assert(!is_digit(d[i - start]));
            assert(!(forall|j: int| 0 <= j < d.len() ==> is_digit(#[trigger] d[j])));
            return None;
        }
        let ghost pre = d.subrange(0, i - start);
        let ghost cur = d.subrange(0, i - start + 1);
        assert(cur.drop_last() =~= pre);
        assert(cur.last() == c);
        v = v * 10 + (c as u32 - '0' as u32);
        assert(v as nat == digits_value(cur));
        if v > 65535 {
            proof {
                if forall|j: int| 0 <= j < d.len() ==> is_digit(#[trigger] d[j]) {
                    lemma_digits_value_prefix(d, i - start + 1);
                }
            }
            return None;
        }
        i = i + 1;
    }
    assert(d.subrange(0, n - start) =~= d);
    Some(v as u16)
}

/// The first of two optional texts that is there.
fn first_given(primary: &Option<String>, fallback: &Option<String>) -> (r: Option<String>)
    ensures
        r == if primary is Some {
            *primary
        } else {
            *fallback
        },
{
    match primary {
        Some(v) => Some(v.clone()),
        None => match fallback {
            Some(v) => Some(v.clone()),
            None => None,
        },
    }
}

/// A setting from the environment, else from the file.
pub open spec fn setting(env: Option<String>, file: Option<String>) -> Option<String> {
    if env is Some {
        env
    } else {
        file
    }
}

/// The file's value of a setting, when there is a file.
pub open spec fn file_setting(file: Option<ServerConfigFile>, pick: spec_fn(ServerConfigFile) -> Option<String>) -> Option<String> {
    match file {
        Some(f) => pick(f),
        None => None,
    }
}

impl ServerConfig {
    /// Resolves the settings: each comes from the environment, else from the
    /// file, else from its default; the database URL and the master key have
    /// none, and the port must be a valid `u16`. The body limit is read from
    /// the file only.
    pub fn resolve(env: &ServerConfigEnv, file: &Option<ServerConfigFile>) -> (r: Result<
        ServerConfig,
        ConfigError,
    >)
        ensures
            ({
                let db = setting(env.database_url, file_setting(*file, |f: ServerConfigFile| f.database_url));
                let key = setting(env.master_key, file_setting(*file, |f: ServerConfigFile| f.master_key));
                let port = setting(env.port, file_setting(*file, |f: ServerConfigFile| f.port));
                let uploads = setting(
                    env.uploads_directory,
                    file_setting(*file, |f: ServerConfigFile| f.uploads_directory),
                );
                let port_value = match port {
                    Some(p) => port_of(p@),
                    None => Some(DEFAULT_PORT),
                };
                let limit = match file {
                    Some(f) => match f.file_size_limit {
                        Some(l) => l,
                        None => DEFAULT_FILE_SIZE_LIMIT,
                    },
                    None => DEFAULT_FILE_SIZE_LIMIT,
                };
                if db is None {
                    r == Err::<ServerConfig, ConfigError>(ConfigError::MissingDatabaseUrl)
                } else if key is None {
                    r == Err::<ServerConfig, ConfigError>(ConfigError::MissingMasterKey)
                } else if port_value is None {
                    r == Err::<ServerConfig, ConfigError>(ConfigError::InvalidPort)
                } else {
                    &&& r is Ok
                    &&& r->Ok_0.database_url == db->Some_0
                    &&& r->Ok_0.master_key == key->Some_0
                    &&& r->Ok_0.port == port_value->Some_0
                    &&& r->Ok_0.uploads_directory@ == match uploads {
                        Some(u) => u@,
                        None => default_uploads_directory(),
                    }
                    &&& r->Ok_0.file_size_limit == limit
                }
            }),
    {
        let none: Option<String> = None;
        let (f_db, f_key, f_port, f_uploads, limit) = match file {
            Some(f) => (
                first_given(&f.database_url, &none),
                first_given(&f.master_key, &none),
                first_given(&f.port, &none),
                first_given(&f.uploads_directory, &none),
                match f.file_size_limit {
                    Some(l) => l,
                    None => DEFAULT_FILE_SIZE_LIMIT,
                },
            ),
            None => (None, None, None, None, DEFAULT_FILE_SIZE_LIMIT),
        };
        let database_url = match first_given(&env.database_url, &f_db) {
            Some(v) => v,
            None => {
                return Err(ConfigError::MissingDatabaseUrl);
            },
        };
        let master_key = match first_given(&env.master_key, &f_key) {
            Some(v) => v,
            None => {
                return Err(ConfigError::MissingMasterKey);
            },
        };
        let port = match first_given(&env.port, &f_port) {
            Some(p) => match parse_port(p.as_str()) {
                Some(v) => v,
                None => {
                    return Err(ConfigError::InvalidPort);
                },
            },
            None => DEFAULT_PORT,
        };
        let uploads_directory = match first_given(&env.uploads_directory, &f_uploads) {
            Some(u) => u,
            None => {
                proof {
                    reveal_strlit("uploads");
                }
                String::from_str("uploads")
            },
        };
        Ok(ServerConfig { database_url, master_key, port, uploads_directory, file_size_limit: limit })
    }
}

/// A modpack row of the database.
pub struct Modpack {
    pub id: ModpackId,
    pub name: String,
    pub modloader: Option<String>,
    pub modloader_version: Option<String>,
    pub game_version: Option<String>,
    pub sync_version: i32,
}

impl From<Modpack> for models::Modpack {
    fn from(x: Modpack) -> (r: models::Modpack) {
        models::Modpack {
            id: x.id,
            name: x.name,
            modloader: x.modloader,
            modloader_version: x.modloader_version,
            game_version: x.game_version,
            sync_version: x.sync_version,
        }
    }
}

impl vstd::std_specs::convert::FromSpecImpl<Modpack> for models::Modpack {
    open spec fn obeys_from_spec() -> bool {
        true
    }

    open spec fn from_spec(x: Modpack) -> models::Modpack {
        models::Modpack {
            id: x.id,
            name: x.name,
            modloader: x.modloader,
            modloader_version: x.modloader_version,
            game_version: x.game_version,
            sync_version: x.sync_version,
        }
    }
}

/// A file row of the database; times are microseconds since the Unix epoch
/// (UTC).
pub struct File {
    pub id: FileId,
    pub modpack: ModpackId,
    pub created_at: i64,
    pub updated_at: i64,
    pub path: String,
    pub state: FileState,
    pub sync_version: i32,
    pub hash: Option<String>,
    pub uploaded: bool,
}

impl From<File> for models::File {
    fn from(x: File) -> (r: models::File) {
        models::File {
            id: x.id,
            modpack: x.modpack,
            created_at: x.created_at,
            updated_at: x.updated_at,
            path: x.path,
            state: x.state,
            sync_version: x.sync_version,
            hash: x.hash,
            uploaded: x.uploaded,
        }
    }
}

impl vstd::std_specs::convert::FromSpecImpl<File> for models::File {
    open spec fn obeys_from_spec() -> bool {
        true
    }

    open spec fn from_spec(x: File) -> models::File {
        models::File {
            id: x.id,
            modpack: x.modpack,
            created_at: x.created_at,
            updated_at: x.updated_at,
            path: x.path,
            state: x.state,
            sync_version: x.sync_version,
            hash: x.hash,
            uploaded: x.uploaded,
        }
    }
}

} // verus!
