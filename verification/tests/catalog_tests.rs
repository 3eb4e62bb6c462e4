use nobg::catalog::{get_all_models, get_default_model, get_model_by_id};

#[test]
fn test_catalog_has_fifteen_models() {
    assert_eq!(get_all_models().len(), 15);
}

#[test]
fn test_exactly_one_default() {
    let models = get_all_models();
    let defaults: Vec<_> = models.iter().filter(|m| m.is_default).collect();
    assert_eq!(defaults.len(), 1);
    assert_eq!(defaults[0].id, "u2net");
}

#[test]
fn test_model_ids_unique() {
    let models = get_all_models();
    for i in 0..models.len() {
        for j in 0..models.len() {
            if i != j {
                assert_ne!(models[i].id, models[j].id);
            }
        }
    }
}

#[test]
fn test_get_default_model() {
    let m = get_default_model();
    assert_eq!(m.id, "u2net");
    assert_eq!(m.name, "U2Net");
    assert!(m.is_default);
    assert_eq!(m.files.len(), 1);
    assert_eq!(m.files[0].name, "u2net.onnx");
}

#[test]
fn test_get_model_by_id_found() {
    let m = get_model_by_id("silueta").unwrap();
    assert_eq!(m.id, "silueta");
    assert_eq!(m.name, "Silueta");
    assert_eq!(m.files.len(), 1);
    assert_eq!(m.files[0].name, "silueta.onnx");
    assert_eq!(m.files[0].size_mb, 43);
    assert!(!m.is_default);
}

#[test]
fn test_get_model_by_id_missing() {
    assert!(get_model_by_id("no-such-model").is_none());
}

#[test]
fn test_sam_has_two_files() {
    let m = get_model_by_id("sam").unwrap();
    assert_eq!(m.files.len(), 2);
    assert_eq!(m.files[0].name, "sam_vit_b_01ec64-encoder.onnx");
    assert_eq!(m.files[1].name, "sam_vit_b_01ec64-decoder.onnx");
}
