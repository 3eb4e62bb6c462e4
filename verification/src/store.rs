//! The model store: a per-user directory holding one file per constituent
//! model file. Presence of the files is the entire on-disk state; readiness
//! of a model is recomputed from it on demand and never cached.

use vstd::prelude::*;
use vstd::string::*;
use crate::catalog::{ModelInfo, ModelFile, get_model_by_id, get_default_model, spec_models,
    spec_find};
use crate::paths::join_path;

verus! {

/// Why a store operation could not be carried out.
#[derive(Debug, Clone, Copy, PartialEq, Eq, Structural)]
pub enum StoreError {
    /// No catalog entry carries the requested id.
    ModelNotFound,
    /// The user's home directory could not be determined.
    HomeUnavailable,
}

/// Relies on directories::BaseDirs: `new` is `Some` exactly when a home
/// directory for the current user can be determined, and `home_dir` is
/// that directory. The result depends on the machine, so nothing is
/// promised of it.
#[verifier::external_body]
fn home_dir() -> (r: Option<String>) {
    directories::BaseDirs::new().map(|b| b.home_dir().to_string_lossy().to_string())
}

/// Relies on std::path::Path::exists: true when the path points at an
/// entity that exists on disk right now. The result depends on the disk,
/// so nothing is promised of it.
#[verifier::external_body]
pub(crate) fn path_exists(p: &String) -> (r: bool) {
    std::path::Path::new(p.as_str()).exists()
}

/// The per-user model store directory: `.u2net` under the user's home
/// directory. `Err` exactly when no home directory can be determined.
///
/// Resolution deliberately does not create the directory: creation is
/// filesystem I/O and is owed by the caller that consumes the path (a
/// directory that does not exist yet simply reads here as "no files
/// present", which is the truth).
pub fn get_models_dir() -> (r: Result<String, StoreError>)
    ensures
        r matches Ok(d) ==> (exists|h: Seq<char>| d@ == h + "/.u2net"@),
        r matches Err(e) ==> e == StoreError::HomeUnavailable,
{
    match home_dir() {
        Some(h) => {
            let ghost h0 = h@;
            let mut d = h;
            d.append("/.u2net");
            proof {
                assert(d@ == h0 + "/.u2net"@);
            }
            Ok(d)
        },
        None => Err(StoreError::HomeUnavailable),
    }
}

/// Every presence bit is set: the model's files are all in the store.
pub open spec fn spec_all_present(present: Seq<bool>) -> bool {
    forall|i: int| 0 <= i < present.len() ==> present[i]
}

/// A model is ready only with every constituent file in place: deleting
/// any one file makes it not ready.
pub proof fn lemma_readiness_needs_every_file(present: Seq<bool>, i: int)
    requires
        0 <= i < present.len(),
        !present[i],
    ensures
        !spec_all_present(present),
{
}

/// Whether every constituent file is present, from one presence bit per
/// file.
pub fn all_files_present(present: &Vec<bool>) -> (r: bool)
    ensures
        r == spec_all_present(present@),
{
    let mut i: usize = 0;
    while i < present.len()
        invariant
            i <= present.len(),
            forall|j: int| 0 <= j < i ==> present@[j],
        decreases present.len() - i,
    {
        if !present[i] {
            return false;
        }
        i = i + 1;
    }
    true
}

/// One presence bit per constituent file: whether `dir/name` exists on
/// disk at the moment of the probe. The bits depend on the disk; only
/// their number is promised.
pub fn probe_files(dir: &str, files: &Vec<ModelFile>) -> (r: Vec<bool>)
    ensures
        r@.len() == files@.len(),
{
    let mut r: Vec<bool> = Vec::new();
    let mut i: usize = 0;
    while i < files.len()
        invariant
            i <= files.len(),
            r@.len() == i,
        decreases files.len() - i,
    {
        let p = join_path(dir, files[i].name.as_str());
        r.push(path_exists(&p));
        i = i + 1;
    }
    r
}

/// Whether every file of the model with id `model_id` is in the store.
/// `Err(ModelNotFound)` exactly when no catalog entry carries the id; the
/// answer itself reflects the disk at the moment of the call.
pub fn is_model_downloaded(model_id: &str) -> (r: Result<bool, StoreError>)
    ensures
        spec_find(spec_models(), model_id@) is None <==> r == Err::<bool, StoreError>(
            StoreError::ModelNotFound,
        ),
        r matches Err(e) ==> (e == StoreError::ModelNotFound || e == StoreError::HomeUnavailable),
{
    match get_model_by_id(model_id) {
        None => Err(StoreError::ModelNotFound),
        Some(m) => {
            match get_models_dir() {
                Err(_) => Err(StoreError::HomeUnavailable),
                Ok(dir) => {
                    let present = probe_files(dir.as_str(), &m.files);
                    Ok(all_files_present(&present))
                },
            }
        },
    }
}

/// The readiness record of one model: its descriptor, whether every file
/// is present, and the absolute path of each constituent file.
pub struct ModelStatus {
    pub model: ModelInfo,
    pub downloaded: bool,
    pub file_paths: Vec<String>,
}

/// Every path in `paths` is `d/<name>` for the file of `files` at the same
/// position.
pub open spec fn spec_paths_joined(d: Seq<char>, files: Seq<crate::catalog::ModelFileView>,
    paths: Seq<String>) -> bool {
    paths.len() == files.len() && forall|i: int|
        0 <= i < paths.len() ==> #[trigger] paths[i]@ == d + "/"@ + files[i].name
}

/// The paths all lie under one directory, one per file, in file order.
pub open spec fn spec_paths_under_one_dir(files: Seq<crate::catalog::ModelFileView>,
    paths: Seq<String>) -> bool {
    exists|d: Seq<char>| spec_paths_joined(d, files, paths)
}

/// The full readiness record for the model with id `model_id`:
/// `Err(ModelNotFound)` exactly when the id is unknown; on success the
/// record carries the looked-up descriptor and one store path per
/// constituent file, in file order, all under one directory.
pub fn get_model_status(model_id: &str) -> (r: Result<ModelStatus, StoreError>)
    ensures
        spec_find(spec_models(), model_id@) is None <==> r == Err::<ModelStatus, StoreError>(
            StoreError::ModelNotFound,
        ),
        r matches Err(e) ==> (e == StoreError::ModelNotFound || e == StoreError::HomeUnavailable),
        r matches Ok(s) ==> Some(s.model@) == spec_find(spec_models(), model_id@)
            && spec_paths_under_one_dir(s.model@.files, s.file_paths@),
{
    match get_model_by_id(model_id) {
        None => Err(StoreError::ModelNotFound),
        Some(m) => {
            match get_models_dir() {
                Err(_) => Err(StoreError::HomeUnavailable),
                Ok(dir) => {
                    let present = probe_files(dir.as_str(), &m.files);
                    let downloaded = all_files_present(&present);
                    let mut file_paths: Vec<String> = Vec::new();
                    let mut i: usize = 0;
                    while i < m.files.len()
                        invariant
                            i <= m.files@.len(),
                            file_paths@.len() == i,
                            forall|j: int|
                                0 <= j < i ==> #[trigger] file_paths@[j]@ == dir@ + "/"@
                                    + m.files@[j].name@,
                        decreases m.files@.len() - i,
                    {
                        file_paths.push(join_path(dir.as_str(), m.files[i].name.as_str()));
                        i = i + 1;
                    }
                    let status = ModelStatus { model: m, downloaded, file_paths };
                    proof {
                        assert(spec_paths_joined(dir@, status.model@.files, status.file_paths@));
                        assert(spec_paths_under_one_dir(status.model@.files, status.file_paths@));
                    }
                    Ok(status)
                },
            }
        },
    }
}

/// First-time setup holds when the default model is not yet in the store.
pub open spec fn spec_first_time(present: Seq<bool>) -> bool {
    !spec_all_present(present)
}

/// First-time setup holds exactly when some constituent file of the
/// default model is still absent, and stops holding once all are present.
pub proof fn lemma_first_time_iff_absent(present: Seq<bool>)
    ensures
        spec_first_time(present) <==> (exists|i: int| 0 <= i < present.len() && !present[i]),
{
}

/// Whether the application runs for the first time: true exactly when the
/// default model is not yet downloaded. The default model always resolves,
/// so the only failure left is an undeterminable home directory.
pub fn check_first_time_setup() -> (r: Result<bool, StoreError>)
    ensures
        r matches Err(e) ==> e == StoreError::HomeUnavailable,
{
    let m = get_default_model();
    proof {
        assert(spec_find(spec_models(), m.id@) is Some);
    }
    match is_model_downloaded(m.id.as_str()) {
        Ok(downloaded) => Ok(!downloaded),
        Err(e) => Err(e),
    }
}

} // verus!
