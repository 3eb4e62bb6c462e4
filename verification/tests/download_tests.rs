use nobg::download::{
    DownloadTracker, announced_total, files_to_download, percent, plan_download,
    status_allows_download,
};
use nobg::store::StoreError;

#[test]
fn test_status_allows_download_success_family_only() {
    assert!(status_allows_download(200));
    assert!(status_allows_download(204));
    assert!(status_allows_download(299));
    assert!(!status_allows_download(199));
    assert!(!status_allows_download(300));
    assert!(!status_allows_download(404));
    assert!(!status_allows_download(500));
}

#[test]
fn test_announced_total() {
    assert_eq!(announced_total(Some(1234)), 1234);
    assert_eq!(announced_total(None), 0);
}

#[test]
fn test_tracker_accumulates_to_source_length() {
    let mut t = DownloadTracker::new(12);
    let p1 = t.record_chunk(3);
    assert_eq!(p1.downloaded, 3);
    assert_eq!(p1.total, 12);
    let p2 = t.record_chunk(4);
    assert_eq!(p2.downloaded, 7);
    let p3 = t.record_chunk(5);
    assert_eq!(p3.downloaded, 12);
    assert_eq!(p3.total, 12);
}

#[test]
fn test_tracker_monotone() {
    let mut t = DownloadTracker::new(0);
    let mut last = 0u64;
    for len in [5u64, 0, 2, 9] {
        let p = t.record_chunk(len);
        assert!(p.downloaded >= last);
        last = p.downloaded;
    }
    assert_eq!(last, 16);
}

#[test]
fn test_percent_indeterminate_total() {
    assert_eq!(percent(123, 0), 0);
}

#[test]
fn test_percent_exact() {
    assert_eq!(percent(0, 200), 0);
    assert_eq!(percent(50, 200), 25);
    assert_eq!(percent(1, 3), 33);
    assert_eq!(percent(7, 7), 100);
}

#[test]
fn test_percent_clamped_beyond_total() {
    assert_eq!(percent(10, 4), 100);
}

#[test]
fn test_plan_download_unknown_model() {
    assert!(matches!(plan_download("no-such-model"), Err(StoreError::ModelNotFound)));
}

#[test]
fn test_plan_download_pending_files() {
    // nothing of this model is in the store of this machine, so every
    // constituent file is a pending task, in catalog order
    if let Ok(tasks) = plan_download("sam") {
        assert_eq!(tasks.len(), 2);
        assert_eq!(tasks[0].file_name, "sam_vit_b_01ec64-encoder.onnx");
        assert_eq!(tasks[1].file_name, "sam_vit_b_01ec64-decoder.onnx");
        assert!(tasks[0].dest_path.ends_with("/.u2net/sam_vit_b_01ec64-encoder.onnx"));
        assert!(tasks[0].url.starts_with("https://"));
    }
}

#[test]
fn test_files_to_download_skips_present() {
    assert_eq!(files_to_download(&vec![true, false]), vec![1]);
    assert_eq!(files_to_download(&vec![false, true]), vec![0]);
    assert_eq!(files_to_download(&vec![true, true]), Vec::<usize>::new());
    assert_eq!(files_to_download(&vec![false, false, false]), vec![0, 1, 2]);
    assert_eq!(files_to_download(&Vec::new()), Vec::<usize>::new());
}
