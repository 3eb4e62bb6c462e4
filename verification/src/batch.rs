//! The batch orchestrator's decision core.
//!
//! A batch names a model and a list of input images. Planning resolves the
//! model, its store path and every item's output path and progress event
//! up front; each item is then processed on its own, and its success or
//! failure is recorded without touching its siblings — partial failure is
//! the default batch semantics.

use vstd::prelude::*;
use vstd::string::*;
use crate::catalog::{ModelInfoView, get_model_by_id, spec_models, spec_find,
    lemma_models_have_files, lemma_find_is_entry};
use crate::paths::{derive_output_path, file_name_part, join_path, spec_output_path,
    spec_file_name, view_opt};
use crate::store::{get_models_dir, path_exists};

verus! {

/// Why a batch could not start at all. These abort the whole batch before
/// any per-item work begins, unlike per-item failures, which are recorded
/// in that item's result alone.
#[derive(Debug, Clone, Copy, PartialEq, Eq, Structural)]
pub enum BatchError {
    /// No catalog entry carries the requested id.
    ModelNotFound,
    /// The user's home directory could not be determined.
    HomeUnavailable,
    /// The model's primary file is not in the store yet.
    ModelFileMissing,
    /// Some input path has no file-name part.
    InvalidInputPath,
}

/// The outcome of one input image: its paths, whether it succeeded, and
/// the error that was recorded for it if it did not.
pub struct ProcessResult {
    pub input_path: String,
    pub output_path: String,
    pub success: bool,
    pub error: Option<String>,
}

/// One planned batch item: where its input and output live, and the
/// progress event owed before it is processed.
pub struct BatchItem {
    pub input_path: String,
    pub output_path: String,
    pub file_name: String,
    pub current: usize,
    pub total: usize,
}

/// A whole planned batch: the model file the inference session loads, and
/// one item per input, in input order.
pub struct BatchPlan {
    pub model_path: String,
    pub items: Vec<BatchItem>,
}

/// `p` is `d/<name of the model's primary file>` for some directory `d`.
pub open spec fn spec_model_path_of(m: ModelInfoView, p: Seq<char>) -> bool {
    exists|d: Seq<char>| p == d + "/"@ + m.files[0].name
}

/// Some input path has no file-name part, so no output path can be
/// derived for it.
pub open spec fn spec_has_invalid_input(paths: Seq<String>) -> bool {
    exists|i: int| 0 <= i < paths.len() && spec_file_name(#[trigger] paths[i]@).len() == 0
}

/// Every planned item matches its input: same path, the derived output
/// path, the input's file name, and the progress pair (i + 1, total).
pub open spec fn spec_plan_items(paths: Seq<String>, dir: Option<Seq<char>>, items: Seq<BatchItem>)
    -> bool {
    items.len() == paths.len() && forall|i: int|
        0 <= i < items.len() ==> (#[trigger] items[i]).input_path@ == paths[i]@
            && items[i].output_path@ == spec_output_path(paths[i]@, dir) && items[i].file_name@
            == spec_file_name(paths[i]@) && items[i].current == i + 1 && items[i].total
            == paths.len()
}

/// Plan a whole batch. `Err(ModelNotFound)` exactly when the id is
/// unknown; `Err(InvalidInputPath)` only when some input has no file-name
/// part; on success the plan carries the model's primary file path and
/// one fully derived item per input, in input order.
pub fn plan_batch(model_id: &str, input_paths: &Vec<String>, output_dir: Option<&str>) -> (r:
    Result<BatchPlan, BatchError>)
    ensures
        spec_find(spec_models(), model_id@) is None <==> r == Err::<BatchPlan, BatchError>(
            BatchError::ModelNotFound,
        ),
        r == Err::<BatchPlan, BatchError>(BatchError::InvalidInputPath)
            ==> spec_has_invalid_input(input_paths@),
        r matches Ok(plan) ==> !spec_has_invalid_input(input_paths@),
        r matches Ok(plan) ==> spec_find(spec_models(), model_id@) matches Some(m)
            && spec_model_path_of(m, plan.model_path@) && spec_plan_items(
            input_paths@,
            view_opt(output_dir),
            plan.items@,
        ),
{
    let m = match get_model_by_id(model_id) {
        None => {
            return Err(BatchError::ModelNotFound);
        },
        Some(m) => m,
    };
    let dir = match get_models_dir() {
        Err(_) => {
            return Err(BatchError::HomeUnavailable);
        },
        Ok(d) => d,
    };
    proof {
        lemma_models_have_files();
        lemma_find_is_entry(spec_models(), model_id@);
    }
    let model_path = join_path(dir.as_str(), m.files[0].name.as_str());
    if !path_exists(&model_path) {
        return Err(BatchError::ModelFileMissing);
    }
    proof {
        assert(spec_model_path_of(m@, model_path@));
    }
    let total = input_paths.len();
    let mut items: Vec<BatchItem> = Vec::new();
    let mut i: usize = 0;
    while i < total
        invariant
            Some(m@) == spec_find(spec_models(), model_id@),
            spec_model_path_of(m@, model_path@),
            i <= total,
            total == input_paths@.len(),
            items@.len() == i,
            forall|j: int|
                0 <= j < i ==> spec_file_name(#[trigger] input_paths@[j]@).len() > 0,
            forall|j: int|
                0 <= j < i ==> (#[trigger] items@[j]).input_path@ == input_paths@[j]@
                    && items@[j].output_path@ == spec_output_path(
                    input_paths@[j]@,
                    view_opt(output_dir),
                ) && items@[j].file_name@ == spec_file_name(input_paths@[j]@) && items@[j].current
                    == j + 1 && items@[j].total == total,
        decreases total - i,
    {
        let input = &input_paths[i];
        let out = match derive_output_path(input.as_str(), output_dir) {
            None => {
                proof {
                    assert(spec_file_name(input_paths@[i as int]@).len() == 0);
                    assert(spec_has_invalid_input(input_paths@));
                }
                return Err(BatchError::InvalidInputPath);
            },
            Some(p) => p,
        };
        let item = BatchItem {
            input_path: input.clone(),
            output_path: out,
            file_name: file_name_part(input.as_str()),
            current: i + 1,
            total,
        };
        items.push(item);
        i = i + 1;
    }
    let plan = BatchPlan { model_path, items };
    proof {
        assert(spec_model_path_of(spec_find(spec_models(), model_id@).unwrap(),
            plan.model_path@));
        assert(spec_plan_items(input_paths@, view_opt(output_dir), plan.items@));
        assert(!spec_has_invalid_input(input_paths@));
    }
    Ok(plan)
}

/// Every recorded result matches its own position: the input path is kept,
/// success holds exactly when no error was recorded, the error is the
/// recorded one, and the output path is kept on success and empty on
/// failure.
pub open spec fn spec_results_match(inputs: Seq<String>, outputs: Seq<String>, outcomes: Seq<
    Option<String>>, results: Seq<ProcessResult>) -> bool {
    results.len() == inputs.len() && forall|i: int|
        0 <= i < results.len() ==> (#[trigger] results[i]).input_path@ == inputs[i]@ && (
        results[i].success <==> outcomes[i] is None) && results[i].error == outcomes[i]
            && results[i].output_path@ == (if outcomes[i] is None {
            outputs[i]@
        } else {
            Seq::<char>::empty()
        })
}

/// Fold per-item outcomes into the batch's result list, in input order:
/// one entry per input, successful exactly when its outcome carries no
/// error.
pub fn collect_results(inputs: &Vec<String>, outputs: &Vec<String>, outcomes: &Vec<
    Option<String>>) -> (r: Vec<ProcessResult>)
    requires
        inputs@.len() == outputs@.len(),
        inputs@.len() == outcomes@.len(),
    ensures
        r@.len() == inputs@.len(),
        spec_results_match(inputs@, outputs@, outcomes@, r@),
{
    let n = inputs.len();
    let mut r: Vec<ProcessResult> = Vec::new();
    let mut i: usize = 0;
    while i < n
        invariant
            i <= n,
            n == inputs@.len(),
            inputs@.len() == outputs@.len(),
            inputs@.len() == outcomes@.len(),
            r@.len() == i,
            forall|j: int|
                0 <= j < i ==> (#[trigger] r@[j]).input_path@ == inputs@[j]@ && (r@[j].success
                    <==> outcomes@[j] is None) && r@[j].error == outcomes@[j]
                    && r@[j].output_path@ == (if outcomes@[j] is None {
                    outputs@[j]@
                } else {
                    Seq::<char>::empty()
                }),
        decreases n - i,
    {
        let entry = match &outcomes[i] {
            None => ProcessResult {
                input_path: inputs[i].clone(),
                output_path: outputs[i].clone(),
                success: true,
                error: None,
            },
            Some(e) => ProcessResult {
                input_path: inputs[i].clone(),
                output_path: String::new(),
                success: false,
                error: Some(e.clone()),
            },
        };
        r.push(entry);
        i = i + 1;
    }
    r
}

/// One failing item never disturbs its siblings: whenever two runs of a
/// batch agree on the outcome at one position, their recorded results at
/// that position agree too, whatever happened at every other position —
/// and both runs keep one entry per input.
pub proof fn lemma_partial_failure(inputs: Seq<String>, outputs: Seq<String>, outcomes1: Seq<
    Option<String>>, outcomes2: Seq<Option<String>>, results1: Seq<ProcessResult>, results2: Seq<
    ProcessResult>, j: int)
    requires
        spec_results_match(inputs, outputs, outcomes1, results1),
        spec_results_match(inputs, outputs, outcomes2, results2),
        0 <= j < inputs.len(),
        outcomes1[j] == outcomes2[j],
    ensures
        results1.len() == inputs.len(),
        results2.len() == inputs.len(),
        results1[j].input_path@ == results2[j].input_path@,
        results1[j].success == results2[j].success,
        results1[j].error == results2[j].error,
        results1[j].output_path@ == results2[j].output_path@,
{
    assert(results1[j].input_path@ == inputs[j]@);
    assert(results2[j].input_path@ == inputs[j]@);
}

} // verus!
