use nobg::batch::{collect_results, plan_batch, BatchError};

#[test]
fn test_plan_batch_unknown_model() {
    let inputs = vec!["/a/b/cat.jpg".to_string()];
    assert!(matches!(plan_batch("no-such-model", &inputs, None), Err(BatchError::ModelNotFound)));
}

#[test]
fn test_plan_batch_model_not_in_store() {
    // the catalog knows the model, but nothing was downloaded into the
    // store of this machine (and on a machine without a home directory the
    // store itself cannot be resolved)
    let inputs = vec!["/a/b/cat.jpg".to_string()];
    let r = plan_batch("birefnet-massive", &inputs, None);
    assert!(matches!(
        r,
        Err(BatchError::ModelFileMissing) | Err(BatchError::HomeUnavailable)
    ));
}

#[test]
fn test_collect_results_partial_failure() {
    let inputs = vec!["a.jpg".to_string(), "b.jpg".to_string(), "c.jpg".to_string()];
    let outputs = vec![
        "a_no_bg.png".to_string(),
        "b_no_bg.png".to_string(),
        "c_no_bg.png".to_string(),
    ];
    let outcomes = vec![None, Some("unreadable image".to_string()), None];
    let results = collect_results(&inputs, &outputs, &outcomes);
    assert_eq!(results.len(), 3);

    assert!(results[0].success);
    assert_eq!(results[0].input_path, "a.jpg");
    assert_eq!(results[0].output_path, "a_no_bg.png");
    assert!(results[0].error.is_none());

    assert!(!results[1].success);
    assert_eq!(results[1].input_path, "b.jpg");
    assert_eq!(results[1].output_path, "");
    assert_eq!(results[1].error.as_deref(), Some("unreadable image"));

    assert!(results[2].success);
    assert_eq!(results[2].input_path, "c.jpg");
    assert_eq!(results[2].output_path, "c_no_bg.png");
    assert!(results[2].error.is_none());
}

#[test]
fn test_collect_results_all_success() {
    let inputs = vec!["a.jpg".to_string()];
    let outputs = vec!["a_no_bg.png".to_string()];
    let outcomes = vec![None];
    let results = collect_results(&inputs, &outputs, &outcomes);
    assert_eq!(results.len(), 1);
    assert!(results[0].success);
}
