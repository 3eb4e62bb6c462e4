use nobg::mask::{
    apply_mask, chw_planes, compose_output, compose_within_limits, output_geometry,
    prepare_input, rescale_mask,
};

#[test]
fn test_output_geometry_accepts_rank_four() {
    assert_eq!(output_geometry(&vec![1, 1, 4, 3], 12), Some((3, 4)));
    assert_eq!(output_geometry(&vec![1, 7, 4, 3], 100), Some((3, 4)));
}

#[test]
fn test_output_geometry_rejects_bad_shapes() {
    assert_eq!(output_geometry(&vec![1, 1, 4], 12), None);
    assert_eq!(output_geometry(&vec![1, 1, 4, 3, 1], 12), None);
    assert_eq!(output_geometry(&vec![1, 1, 0, 3], 12), None);
    assert_eq!(output_geometry(&vec![1, 1, -4, 3], 12), None);
    assert_eq!(output_geometry(&vec![1, 1, 4, 3], 11), None);
    assert_eq!(output_geometry(&vec![1, 1, 1 << 40, 1], usize::MAX), None);
}

#[test]
fn test_compose_within_limits() {
    assert!(compose_within_limits(2, 3, 4, 4));
    assert!(!compose_within_limits(0, 3, 4, 4));
    assert!(!compose_within_limits(2, 3, 4, 0));
    assert!(!compose_within_limits(u32::MAX, u32::MAX, 4, 4));
    assert!(!compose_within_limits(4, u32::MAX, u32::MAX, 4));
}

#[test]
fn test_rescale_constant_is_all_zero() {
    let vals = vec![7i64; 6];
    let mask = rescale_mask(&vals);
    assert_eq!(mask.len(), 6);
    assert!(mask.iter().all(|&v| v == 0));
}

#[test]
fn test_rescale_single_sample_is_zero() {
    assert_eq!(rescale_mask(&vec![42i64]), vec![0u8]);
}

#[test]
fn test_rescale_exact_values() {
    assert_eq!(rescale_mask(&vec![0i64, 100]), vec![0u8, 255]);
    assert_eq!(rescale_mask(&vec![0i64, 50, 100]), vec![0u8, 127, 255]);
    assert_eq!(rescale_mask(&vec![-100i64, 0, 100]), vec![0u8, 127, 255]);
}

#[test]
fn test_apply_mask_replaces_alpha_only() {
    let rgba = vec![1u8, 2, 3, 9, 4, 5, 6, 9];
    let mask = vec![7u8, 8];
    assert_eq!(apply_mask(&rgba, &mask), vec![1u8, 2, 3, 7, 4, 5, 6, 8]);
}

#[test]
fn test_chw_planes_layout() {
    let mut rgb = vec![0u8; 307200];
    for p in 0..102400 {
        rgb[3 * p] = 10;
        rgb[3 * p + 1] = 20;
        rgb[3 * p + 2] = 30;
    }
    // make one pixel distinctive: (x, y) = (5, 2)
    let q = 2 * 320 + 5;
    rgb[3 * q] = 101;
    rgb[3 * q + 1] = 102;
    rgb[3 * q + 2] = 103;
    let planes = chw_planes(&rgb);
    assert_eq!(planes.len(), 307200);
    assert_eq!(planes[0], 10);
    assert_eq!(planes[102400], 20);
    assert_eq!(planes[204800], 30);
    assert_eq!(planes[q], 101);
    assert_eq!(planes[102400 + q], 102);
    assert_eq!(planes[204800 + q], 103);
}

#[test]
fn test_prepare_input_fixed_resolution() {
    // a 1x1 image blows up to the 320x320 model resolution; a constant
    // image stays constant under resampling
    let rgb = vec![10u8, 20, 30];
    let planes = prepare_input(&rgb, 1, 1);
    assert_eq!(planes.len(), 307200);
    assert_eq!(planes[0], 10);
    assert_eq!(planes[102400], 20);
    assert_eq!(planes[204800], 30);
}

#[test]
fn test_compose_output_keeps_original_dimensions() {
    // original 2x3 image, mask at a 4x4 working resolution
    let w = 2u32;
    let h = 3u32;
    let rgba: Vec<u8> = (0..24).map(|v| v as u8).collect();
    let mask = vec![200u8; 16];
    let out = compose_output(&rgba, w, h, &mask, 4, 4);
    assert_eq!(out.len(), 24);
    for p in 0..6 {
        assert_eq!(out[4 * p], rgba[4 * p]);
        assert_eq!(out[4 * p + 1], rgba[4 * p + 1]);
        assert_eq!(out[4 * p + 2], rgba[4 * p + 2]);
        assert_eq!(out[4 * p + 3], 200);
    }
}
