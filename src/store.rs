use vstd::prelude::*;

use crate::api::{FileId, FileSyncBody, ModpackCreateBody, ModpackId, UploadAction};
use crate::digest::digest_text;
use crate::models::File;
use crate::server::ApiError;
use crate::text::{copy_opt, opt_text};
use crate::types::FileState;

verus! {

/// Whether some name of `names` is `name`.
pub open spec fn name_taken(names: Seq<String>, name: Seq<char>) -> bool {
    exists|i: int| 0 <= i < names.len() && names[i]@ == name
}

/// Creation of a modpack named `body.name`, given the names of the stored
/// modpacks that match it: refused when one does, else the modpack gets the
/// fresh id `new_id`.
pub fn plan_create(existing_names: &Vec<String>, body: &ModpackCreateBody, new_id: String) -> (r:
    Result<ModpackId, ApiError>)
    ensures
        name_taken(existing_names@, body.name@) <==> r == Err::<ModpackId, ApiError>(
            ApiError::AlreadyExists,
        ),
        !name_taken(existing_names@, body.name@) ==> r is Ok && r->Ok_0.0@ == new_id@,
{
    let mut i: usize = 0;
    while i < existing_names.len()
        invariant
            i <= existing_names@.len(),
            forall|j: int| 0 <= j < i ==> existing_names@[j]@ != body.name@,
        decreases existing_names@.len() - i,
    {
        if existing_names[i] == body.name {
            return Err(ApiError::AlreadyExists);
        }
        i = i + 1;
    }
    Ok(ModpackId(new_id))
}

/// A write to the file records that a filesync request makes.
pub enum FileWrite {
    /// Overwrite path, state and digest of the record `id`; its version and
    /// upload flag stay.
    Update { id: FileId, path: String, state: FileState, hash: Option<String> },
    /// Insert a record `id` with version 0, not uploaded.
    Insert { id: FileId, path: String, state: FileState, hash: Option<String> },
}

/// The filesync write for `body`: an error when the modpack does not exist,
/// an update of the record already kept for the path, or an insert of a
/// record with the fresh id `new_id`.
pub fn plan_file_sync(
    modpack_found: bool,
    existing: Option<&File>,
    body: &FileSyncBody,
    new_id: String,
) -> (r: Result<FileWrite, ApiError>)
    ensures
        !modpack_found <==> r == Err::<FileWrite, ApiError>(ApiError::NotFound),
        modpack_found ==> match r {
            Ok(FileWrite::Update { id, path, state, hash }) => existing is Some && id
                == existing->Some_0.id && path@ == body.path@ && state == body.state && opt_text(
                hash,
            ) == opt_text(body.hash),
            Ok(FileWrite::Insert { id, path, state, hash }) => existing is None && id.0@ == new_id@
                && path@ == body.path@ && state == body.state && opt_text(hash) == opt_text(
                body.hash,
            ),
            Err(_) => false,
        },
{
    if !modpack_found {
        return Err(ApiError::NotFound);
    }
    match existing {
        Some(f) => Ok(
            FileWrite::Update {
                id: FileId(f.id.0.clone()),
                path: body.path.clone(),
                state: body.state,
                hash: copy_opt(&body.hash),
            },
        ),
        None => Ok(
            FileWrite::Insert {
                id: FileId(new_id),
                path: body.path.clone(),
                state: body.state,
                hash: copy_opt(&body.hash),
            },
        ),
    }
}

/// What the blob store does with uploaded bytes.
pub struct UploadPlan {
    /// Whether the bytes are written under their digest.
    pub write_blob: bool,
    /// The digest the server computed of the bytes.
    pub digest: String,
    /// The record that is marked uploaded with that digest.
    pub file_id: FileId,
    /// That record as it is stored after the upload.
    pub record: File,
    pub action: UploadAction,
}

/// Whether an upload skips the physical write: some record is already
/// uploaded with the digest and its blob is on disk.
pub open spec fn upload_skips_write(digest_uploaded: bool, blob_present: bool) -> bool {
    digest_uploaded && blob_present
}

/// The upload of content with digest `digest` for the record kept for the
/// target path (`record`). `data_present` says whether the request carried
/// any content; `digest_uploaded` whether some record is uploaded with that
/// digest; `blob_present` whether the blob named by it is on disk.
pub fn plan_upload(
    record: Option<&File>,
    data_present: bool,
    digest: String,
    digest_uploaded: bool,
    blob_present: bool,
) -> (r: Result<UploadPlan, ApiError>)
    requires
        record matches Some(f) ==> f.sync_version < i32::MAX,
    ensures
        record is None <==> r == Err::<UploadPlan, ApiError>(ApiError::NotFound),
        record is Some && !data_present <==> r == Err::<UploadPlan, ApiError>(
            ApiError::BadRequest,
        ),
        record is Some && data_present ==> r is Ok && ({
            let p = r->Ok_0;
            &&& p.file_id == record->Some_0.id
            &&& p.digest@ == digest@
            &&& p.record.id == record->Some_0.id
            &&& p.record.modpack == record->Some_0.modpack
            &&& p.record.path == record->Some_0.path
            &&& p.record.state == record->Some_0.state
            &&& p.record.created_at == record->Some_0.created_at
            &&& p.record.updated_at == record->Some_0.updated_at
            &&& p.record.hash is Some && p.record.hash->Some_0@ == digest@
            &&& p.record.uploaded
            &&& p.record.sync_version == record->Some_0.sync_version + 1
            &&& p.write_blob == !upload_skips_write(digest_uploaded, blob_present)
            &&& p.action == if p.write_blob {
                UploadAction::Uploaded
            } else {
                UploadAction::Exists
            }
        }),
{
    let f = match record {
        Some(f) => f,
        None => {
            return Err(ApiError::NotFound);
        },
    };
    if !data_present {
        return Err(ApiError::BadRequest);
    }
    let write_blob = !(digest_uploaded && blob_present);
    let action = if write_blob {
        UploadAction::Uploaded
    } else {
        UploadAction::Exists
    };
    let updated = File {
        id: FileId(f.id.0.clone()),
        modpack: ModpackId(f.modpack.0.clone()),
        created_at: f.created_at,
        updated_at: f.updated_at,
        path: f.path.clone(),
        state: f.state,
        sync_version: f.sync_version + 1,
        hash: Some(digest.clone()),
        uploaded: true,
    };
    Ok(UploadPlan { write_blob, digest, file_id: FileId(f.id.0.clone()), record: updated, action })
}

/// Whether a blob may be served for a digest, given how many records are
/// uploaded with it: only when one is.
pub fn plan_blob_download(uploaded_matches: usize) -> (r: Result<(), ApiError>)
    ensures
        uploaded_matches > 0 <==> r is Ok,
        uploaded_matches == 0 ==> r == Err::<(), ApiError>(ApiError::NotFound),
{
    if uploaded_matches > 0 {
        Ok(())
    } else {
        Err(ApiError::NotFound)
    }
}

} // verus!

verus! {

/// What the authoritative store keeps of one file record.
pub struct RecordModel {
    pub state: FileState,
    pub hash: Option<Seq<char>>,
    pub sync_version: int,
    pub uploaded: bool,
}

/// The authoritative store: records keyed by (modpack id, path), and the
/// blobs on disk keyed by name.
pub struct StoreModel {
    pub records: Map<(Seq<char>, Seq<char>), RecordModel>,
    pub blobs: Map<Seq<char>, Seq<u8>>,
}

/// Some record is uploaded with digest `d`.
pub open spec fn digest_uploaded(st: StoreModel, d: Seq<char>) -> bool {
    exists|k: (Seq<char>, Seq<char>)|
        #[trigger] st.records.contains_key(k) && st.records[k].uploaded && st.records[k].hash == Some(
            d,
        )
}

/// Every blob is named by the digest of its bytes.
pub open spec fn blobs_intact(st: StoreModel) -> bool {
    forall|d: Seq<char>| #[trigger] st.blobs.contains_key(d) ==> digest_text(st.blobs[d]) == d
}

/// Whether uploading `data` to store `st` writes a blob.
pub open spec fn upload_writes(st: StoreModel, data: Seq<u8>) -> bool {
    !upload_skips_write(
        digest_uploaded(st, digest_text(data)),
        st.blobs.contains_key(digest_text(data)),
    )
}

/// The record of `key` after an upload of content with digest `d`.
pub open spec fn uploaded_record(rec: RecordModel, d: Seq<char>) -> RecordModel {
    RecordModel { hash: Some(d), uploaded: true, sync_version: rec.sync_version + 1, ..rec }
}

/// The store after `data` was uploaded for the record `key`, as
/// [`plan_upload`] decides it on `st`.
pub open spec fn after_upload(st: StoreModel, key: (Seq<char>, Seq<char>), data: Seq<u8>) -> StoreModel {
    let d = digest_text(data);
    StoreModel {
        records: st.records.insert(key, uploaded_record(st.records[key], d)),
        blobs: if upload_writes(st, data) {
            st.blobs.insert(d, data)
        } else {
            st.blobs
        },
    }
}

/// The store after a filesync of `key` with `state` and `hash`, as
/// [`plan_file_sync`] writes it: an existing record keeps its version and
/// upload flag, a new one starts at version 0, not uploaded.
pub open spec fn after_file_sync(
    st: StoreModel,
    key: (Seq<char>, Seq<char>),
    state: FileState,
    hash: Option<Seq<char>>,
) -> StoreModel {
    let rec = if st.records.contains_key(key) {
        RecordModel { state, hash, ..st.records[key] }
    } else {
        RecordModel { state, hash, sync_version: 0, uploaded: false }
    };
    StoreModel { records: st.records.insert(key, rec), ..st }
}

/// What the store model keeps of a record.
pub open spec fn record_model(f: File) -> RecordModel {
    RecordModel {
        state: f.state,
        hash: opt_text(f.hash),
        sync_version: f.sync_version as int,
        uploaded: f.uploaded,
    }
}

/// The model's upload step is the one [`plan_upload`] plans: given a plan that
/// meets its contract for the record kept at `key` and the store's answers,
/// writing the plan's record and, when it says so, the blob under its digest
/// gives [`after_upload`].
pub proof fn lemma_upload_plan_is_model_step(
    st: StoreModel,
    key: (Seq<char>, Seq<char>),
    data: Seq<u8>,
    rec: File,
    plan: UploadPlan,
)
    requires
        st.records.contains_key(key),
        st.records[key] == record_model(rec),
        rec.sync_version < i32::MAX,
        plan.digest@ == digest_text(data),
        plan.write_blob == !upload_skips_write(
            digest_uploaded(st, digest_text(data)),
            st.blobs.contains_key(digest_text(data)),
        ),
        plan.record.state == rec.state,
        plan.record.hash is Some && plan.record.hash->Some_0@ == plan.digest@,
        plan.record.uploaded,
        plan.record.sync_version == rec.sync_version + 1,
    ensures
        after_upload(st, key, data) == (StoreModel {
            records: st.records.insert(key, record_model(plan.record)),
            blobs: if plan.write_blob {
                st.blobs.insert(plan.digest@, data)
            } else {
                st.blobs
            },
        }),
{
    assert(record_model(plan.record) == uploaded_record(st.records[key], digest_text(data)));
}

/// Dedup: uploading identical bytes for two distinct records writes the blob
/// at most once (and not at all when it is already stored and known), and
/// both records end up uploaded with the same digest.
pub proof fn lemma_identical_uploads_write_once(
    st: StoreModel,
    k1: (Seq<char>, Seq<char>),
    k2: (Seq<char>, Seq<char>),
    data: Seq<u8>,
)
    requires
        st.records.contains_key(k1),
        st.records.contains_key(k2),
        k1 != k2,
    ensures
        ({
            let d = digest_text(data);
            let s1 = after_upload(st, k1, data);
            let s2 = after_upload(s1, k2, data);
            &&& upload_writes(st, data) <==> !upload_skips_write(
                digest_uploaded(st, d),
                st.blobs.contains_key(d),
            )
            &&& !upload_writes(s1, data)
            &&& s2.records[k1].uploaded && s2.records[k1].hash == Some(d)
            &&& s2.records[k2].uploaded && s2.records[k2].hash == Some(d)
        }),
{
    let d = digest_text(data);
    let s1 = after_upload(st, k1, data);
    assert(s1.records.contains_key(k1) && s1.records[k1].uploaded && s1.records[k1].hash == Some(d));
    assert(digest_uploaded(s1, d));
    assert(s1.blobs.contains_key(d));
}

/// Concurrent-upload safety: two uploads of identical bytes that both decided
/// on the same store (both passed the existence check) and both wrote leave
/// every blob named by the digest of its bytes, the shared one holding those
/// bytes.
pub proof fn lemma_racing_uploads_keep_blobs_intact(
    st: StoreModel,
    k1: (Seq<char>, Seq<char>),
    k2: (Seq<char>, Seq<char>),
    data: Seq<u8>,
)
    requires
        blobs_intact(st),
    ensures
        ({
            let d = digest_text(data);
            let blobs = if upload_writes(st, data) {
                st.blobs.insert(d, data).insert(d, data)
            } else {
                st.blobs
            };
            let raced = StoreModel {
                records: st.records.insert(k1, uploaded_record(st.records[k1], d)).insert(
                    k2,
                    uploaded_record(st.records[k2], d),
                ),
                blobs,
            };
            &&& blobs_intact(raced)
            &&& upload_writes(st, data) ==> raced.blobs[d] == data
        }),
{
}

/// Hash integrity: after an upload to a store whose blobs are named by their
/// digests, the record's digest names a stored blob whose bytes have that
/// digest, so what a download of it serves hashes to the record's digest.
pub proof fn lemma_uploaded_record_serves_matching_bytes(
    st: StoreModel,
    key: (Seq<char>, Seq<char>),
    data: Seq<u8>,
)
    requires
        blobs_intact(st),
        st.records.contains_key(key),
    ensures
        ({
            let s1 = after_upload(st, key, data);
            let h = s1.records[key].hash->Some_0;
            &&& blobs_intact(s1)
            &&& s1.records[key].hash == Some(digest_text(data))
            &&& s1.blobs.contains_key(h)
            &&& digest_text(s1.blobs[h]) == h
        }),
{
    let d = digest_text(data);
    if !upload_writes(st, data) {
        assert(st.blobs.contains_key(d));
    }
}

/// The filesync upsert is idempotent and never moves a record's version.
pub proof fn lemma_file_sync_idempotent(
    st: StoreModel,
    key: (Seq<char>, Seq<char>),
    state: FileState,
    hash: Option<Seq<char>>,
)
    ensures
        ({
            let s1 = after_file_sync(st, key, state, hash);
            &&& after_file_sync(s1, key, state, hash) == s1
            &&& st.records.contains_key(key) ==> s1.records[key].sync_version
                == st.records[key].sync_version
        }),
{
    let s1 = after_file_sync(st, key, state, hash);
    assert(after_file_sync(s1, key, state, hash).records =~= s1.records);
}

} // verus!
