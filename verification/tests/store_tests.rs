use nobg::catalog::get_model_by_id;
use nobg::store::{all_files_present, check_first_time_setup, get_model_status, get_models_dir,
    is_model_downloaded, StoreError};

#[test]
fn test_all_files_present_needs_every_file() {
    assert!(all_files_present(&vec![true, true]));
    assert!(!all_files_present(&vec![false, true]));
    assert!(!all_files_present(&vec![true, false]));
    assert!(!all_files_present(&vec![false, false]));
    assert!(all_files_present(&Vec::new()));
}

#[test]
fn test_is_model_downloaded_unknown_model() {
    assert_eq!(is_model_downloaded("no-such-model"), Err(StoreError::ModelNotFound));
}

#[test]
fn test_is_model_downloaded_known_model() {
    let r = is_model_downloaded("u2net");
    assert_ne!(r, Err(StoreError::ModelNotFound));
}

#[test]
fn test_get_models_dir_under_home() {
    if let Ok(d) = get_models_dir() {
        assert!(d.ends_with("/.u2net"));
    }
}

#[test]
fn test_get_model_status_unknown_model() {
    assert!(matches!(get_model_status("no-such-model"), Err(StoreError::ModelNotFound)));
}

#[test]
fn test_get_model_status_paths() {
    if let Ok(s) = get_model_status("sam") {
        let m = get_model_by_id("sam").unwrap();
        assert_eq!(s.model.id, "sam");
        assert_eq!(s.file_paths.len(), m.files.len());
        assert!(s.file_paths[0].ends_with("/.u2net/sam_vit_b_01ec64-encoder.onnx"));
        assert!(s.file_paths[1].ends_with("/.u2net/sam_vit_b_01ec64-decoder.onnx"));
    }
}

#[test]
fn test_check_first_time_setup_resolves_default() {
    let r = check_first_time_setup();
    assert!(r.is_ok() || r == Err(StoreError::HomeUnavailable));
}
