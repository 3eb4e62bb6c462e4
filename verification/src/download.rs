//! Progress accounting for streamed downloads, and the plan of which of a
//! model's files still have to be fetched.
//!
//! A download streams a file chunk by chunk; after each chunk the cumulative
//! byte count is reported together with the total announced by the server
//! (0 when the server announced none). The functions here are the decision
//! core of that loop: the network work itself stands outside the library.

use vstd::prelude::*;
use crate::catalog::{ModelInfoView, get_model_by_id, spec_models, spec_find};
use crate::paths::join_path;
use crate::store::{StoreError, get_models_dir, probe_files};

verus! {

/// One progress report: cumulative bytes written so far, and the total
/// announced by the server (0 when unknown).
pub struct DownloadProgress {
    pub downloaded: u64,
    pub total: u64,
}

/// Running progress state of one file download.
pub struct DownloadTracker {
    pub downloaded: u64,
    pub total: u64,
}

impl DownloadTracker {
    /// A fresh tracker for a file whose announced total is `total` bytes.
    pub fn new(total: u64) -> (r: DownloadTracker)
        ensures
            r.downloaded == 0,
            r.total == total,
    {
        DownloadTracker { downloaded: 0, total }
    }

    /// Account one received chunk of `len` bytes and produce the progress
    /// report owed after it. The cumulative count never decreases.
    pub fn record_chunk(&mut self, len: u64) -> (p: DownloadProgress)
        requires
            old(self).downloaded + len <= u64::MAX,
        ensures
            final(self).downloaded == old(self).downloaded + len,
            final(self).total == old(self).total,
            old(self).downloaded <= final(self).downloaded,
            p.downloaded == final(self).downloaded,
            p.total == final(self).total,
    {
        self.downloaded = self.downloaded + len;
        DownloadProgress { downloaded: self.downloaded, total: self.total }
    }
}

/// The number of bytes in a sequence of chunks.
pub open spec fn total_len(lens: Seq<u64>) -> int
    decreases lens.len(),
{
    if lens.len() == 0 {
        0
    } else {
        total_len(lens.drop_last()) + lens.last()
    }
}

/// The cumulative count a tracker holds after the first `k` chunks of
/// `lens` have been recorded, starting from zero.
pub open spec fn progress_after(lens: Seq<u64>, k: int) -> int {
    total_len(lens.take(k))
}

/// Progress reports for one download are monotonically non-decreasing in
/// their cumulative byte count.
pub proof fn lemma_progress_monotone(lens: Seq<u64>, j: int, k: int)
    requires
        0 <= j <= k <= lens.len(),
    ensures
        progress_after(lens, j) <= progress_after(lens, k),
    decreases k - j,
{
    if j < k {
        lemma_progress_monotone(lens, j, k - 1);
        assert(lens.take(k).drop_last() =~= lens.take(k - 1));
    }
}

/// After every chunk of the stream has been recorded, the cumulative count
/// equals the length of the whole byte source.
pub proof fn lemma_final_progress(lens: Seq<u64>)
    ensures
        progress_after(lens, lens.len() as int) == total_len(lens),
{
    assert(lens.take(lens.len() as int) =~= lens);
}

/// Whether an HTTP response status lets a download proceed: exactly the
/// 2xx success family does; every other status is terminal for the file.
pub fn status_allows_download(status: u16) -> (r: bool)
    ensures
        r == (200 <= status && status < 300),
{
    200 <= status && status < 300
}

/// The total a download reports against: the length the server announced,
/// or 0 when it announced none — an indeterminate total, not an empty
/// file.
pub fn announced_total(content_length: Option<u64>) -> (r: u64)
    ensures
        content_length matches Some(n) ==> r == n,
        content_length is None ==> r == 0,
{
    match content_length {
        Some(n) => n,
        None => 0,
    }
}

/// The derived percentage shown beside a progress report: an indeterminate
/// total (0) reads as 0, and a count beyond the announced total is clamped
/// to 100.
pub fn percent(downloaded: u64, total: u64) -> (r: u64)
    ensures
        total == 0 ==> r == 0,
        total > 0 && downloaded <= total ==> r == downloaded as int * 100 / total as int,
        total > 0 && downloaded > total ==> r == 100,
{
    if total == 0 {
        0
    } else if downloaded > total {
        100
    } else {
        let wide: u128 = (downloaded as u128) * 100 / (total as u128);
        proof {
            assert(downloaded as int * 100 / total as int <= 100) by (nonlinear_arith)
                requires
                    0 < total,
                    downloaded <= total,
            ;
        }
        wide as u64
    }
}

/// The indices of the files that still have to be fetched: exactly the
/// positions whose presence bit is false, in catalog order.
pub open spec fn pending_indices(present: Seq<bool>) -> Seq<int>
    decreases present.len(),
{
    if present.len() == 0 {
        Seq::empty()
    } else if present.last() {
        pending_indices(present.drop_last())
    } else {
        pending_indices(present.drop_last()).push(present.len() - 1)
    }
}

/// Given one presence bit per file of a model, the positions of the files a
/// download of the model still has to fetch; files already present are
/// skipped entirely.
pub fn files_to_download(present: &Vec<bool>) -> (r: Vec<usize>)
    ensures
        r@.map_values(|i: usize| i as int) == pending_indices(present@),
{
    let mut r: Vec<usize> = Vec::new();
    let mut i: usize = 0;
    while i < present.len()
        invariant
            i <= present.len(),
            r@.map_values(|j: usize| j as int) == pending_indices(present@.take(i as int)),
        decreases present.len() - i,
    {
        proof {
            assert(present@.take(i + 1).drop_last() =~= present@.take(i as int));
            assert(present@.take(i + 1).last() == present@[i as int]);
        }
        if !present[i] {
            let ghost before = r@;
            r.push(i);
            proof {
                assert(r@.map_values(|j: usize| j as int)
                    =~= before.map_values(|j: usize| j as int).push(i as int));
            }
        }
        i = i + 1;
    }
    proof {
        assert(present@.take(present@.len() as int) =~= present@);
    }
    r
}

/// Every pending index is a position within the presence list.
pub proof fn lemma_pending_in_range(present: Seq<bool>)
    ensures
        forall|j: int|
            0 <= j < pending_indices(present).len()
                ==> 0 <= #[trigger] pending_indices(present)[j] < present.len(),
    decreases present.len(),
{
    if present.len() > 0 {
        let prefix = present.drop_last();
        lemma_pending_in_range(prefix);
        assert forall|j: int| 0 <= j < pending_indices(present).len()
            implies 0 <= #[trigger] pending_indices(present)[j] < present.len() by {
            if !present.last() && j == pending_indices(present).len() - 1 {
                assert(pending_indices(present)[j] == present.len() - 1);
            } else {
                assert(pending_indices(present)[j] == pending_indices(prefix)[j]);
            }
        }
    }
}

/// A file already present is never fetched again: its index is not in the
/// pending list.
pub proof fn lemma_present_file_skipped(present: Seq<bool>, i: int)
    requires
        0 <= i < present.len(),
        present[i],
    ensures
        !pending_indices(present).contains(i),
    decreases present.len(),
{
    let prefix = present.drop_last();
    if i == present.len() - 1 {
        lemma_pending_in_range(prefix);
        assert(pending_indices(present) == pending_indices(prefix));
    } else {
        lemma_present_file_skipped(prefix, i);
        if !present.last() {
            assert forall|j: int| 0 <= j < pending_indices(present).len()
                implies #[trigger] pending_indices(present)[j] != i by {
                if j < pending_indices(present).len() - 1 {
                    assert(pending_indices(present)[j] == pending_indices(prefix)[j]);
                    assert(!pending_indices(prefix).contains(i));
                }
            }
        }
    }
}

/// One file a download of a model still has to fetch: its name, where it
/// comes from, and where in the store it lands.
pub struct DownloadTask {
    pub file_name: String,
    pub url: String,
    pub dest_path: String,
}

/// Task k stands for the file at position `pending_indices(present)[k]` of
/// the model: same name and URL, landing at `d/<name>`.
pub open spec fn spec_tasks_match(m: ModelInfoView, d: Seq<char>, present: Seq<bool>, tasks: Seq<
    DownloadTask>) -> bool {
    present.len() == m.files.len() && tasks.len() == pending_indices(present).len() && forall|
        k: int,
    |
        0 <= k < tasks.len() ==> 0 <= pending_indices(present)[k] < m.files.len() && (
        #[trigger] tasks[k]).file_name@ == m.files[pending_indices(present)[k]].name
            && tasks[k].url@ == m.files[pending_indices(present)[k]].url && tasks[k].dest_path@
            == d + "/"@ + m.files[pending_indices(present)[k]].name
}

/// The tasks are exactly the model's files that some presence probe found
/// absent, in catalog order, all landing under one directory.
pub open spec fn spec_download_plan_ok(m: ModelInfoView, tasks: Seq<DownloadTask>) -> bool {
    exists|d: Seq<char>, present: Seq<bool>| spec_tasks_match(m, d, present, tasks)
}

/// Plan the download of a whole model: one task per constituent file that
/// is not in the store yet, in catalog order; files already present are
/// skipped entirely. `Err(ModelNotFound)` exactly when the id is unknown.
pub fn plan_download(model_id: &str) -> (r: Result<Vec<DownloadTask>, StoreError>)
    ensures
        spec_find(spec_models(), model_id@) is None <==> r == Err::<Vec<DownloadTask>, StoreError>(
            StoreError::ModelNotFound,
        ),
        r matches Err(e) ==> (e == StoreError::ModelNotFound || e == StoreError::HomeUnavailable),
        r matches Ok(tasks) ==> spec_find(spec_models(), model_id@) matches Some(m)
            && spec_download_plan_ok(m, tasks@),
{
    let m = match get_model_by_id(model_id) {
        None => {
            return Err(StoreError::ModelNotFound);
        },
        Some(m) => m,
    };
    let dir = match get_models_dir() {
        Err(_) => {
            return Err(StoreError::HomeUnavailable);
        },
        Ok(d) => d,
    };
    let present = probe_files(dir.as_str(), &m.files);
    let pending = files_to_download(&present);
    proof {
        lemma_pending_in_range(present@);
    }
    let mut tasks: Vec<DownloadTask> = Vec::new();
    let mut k: usize = 0;
    while k < pending.len()
        invariant
            Some(m@) == spec_find(spec_models(), model_id@),
            present@.len() == m@.files.len(),
            pending@.map_values(|i: usize| i as int) == pending_indices(present@),
            forall|k2: int|
                0 <= k2 < pending_indices(present@).len() ==> 0 <= #[trigger] pending_indices(
                    present@,
                )[k2] < m@.files.len(),
            k <= pending@.len(),
            tasks@.len() == k,
            forall|k2: int|
                0 <= k2 < k ==> (#[trigger] tasks@[k2]).file_name@
                    == m@.files[pending_indices(present@)[k2]].name && tasks@[k2].url@
                    == m@.files[pending_indices(present@)[k2]].url && tasks@[k2].dest_path@
                    == dir@ + "/"@ + m@.files[pending_indices(present@)[k2]].name,
        decreases pending@.len() - k,
    {
        let i = pending[k];
        proof {
            assert(pending@.map_values(|j: usize| j as int)[k as int] == i as int);
            assert(pending_indices(present@)[k as int] == i as int);
        }
        let file = &m.files[i];
        tasks.push(DownloadTask {
            file_name: file.name.clone(),
            url: file.url.clone(),
            dest_path: join_path(dir.as_str(), file.name.as_str()),
        });
        k = k + 1;
    }
    proof {
        assert(spec_tasks_match(m@, dir@, present@, tasks@));
        assert(spec_download_plan_ok(m@, tasks@));
    }
    Ok(tasks)
}

/// A file not yet present is always among the ones fetched.
pub proof fn lemma_absent_file_fetched(present: Seq<bool>, i: int)
    requires
        0 <= i < present.len(),
        !present[i],
    ensures
        pending_indices(present).contains(i),
    decreases present.len(),
{
    if i == present.len() - 1 {
        assert(pending_indices(present).last() == i);
    } else {
        lemma_absent_file_fetched(present.drop_last(), i);
        let j = choose|j: int|
            0 <= j < pending_indices(present.drop_last()).len()
                && pending_indices(present.drop_last())[j] == i;
        assert(pending_indices(present)[j] == i);
    }
}

} // verus!
