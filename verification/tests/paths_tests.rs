use nobg::paths::{derive_output_path, file_name_part, join_path};

#[test]
fn test_output_path_beside_input() {
    let r = derive_output_path("/a/b/cat.jpg", None).unwrap();
    assert_eq!(r, "/a/b/cat_no_bg.png");
}

#[test]
fn test_output_path_in_chosen_directory() {
    let r = derive_output_path("/a/b/cat.jpg", Some("/x")).unwrap();
    assert_eq!(r, "/x/cat_no_bg.png");
}

#[test]
fn test_output_path_without_extension() {
    let r = derive_output_path("/a/b/cat", None).unwrap();
    assert_eq!(r, "/a/b/cat_no_bg.png");
}

#[test]
fn test_output_path_hidden_file_keeps_name() {
    let r = derive_output_path("/a/.config", None).unwrap();
    assert_eq!(r, "/a/.config_no_bg.png");
}

#[test]
fn test_output_path_relative_input() {
    let r = derive_output_path("cat.jpg", None).unwrap();
    assert_eq!(r, "cat_no_bg.png");
}

#[test]
fn test_output_path_invalid_inputs() {
    assert!(derive_output_path("", None).is_none());
    assert!(derive_output_path("/a/b/", None).is_none());
    assert!(derive_output_path("/a/b/", Some("/x")).is_none());
}

#[test]
fn test_file_name_part() {
    assert_eq!(file_name_part("/a/b/cat.jpg"), "cat.jpg");
    assert_eq!(file_name_part("cat.jpg"), "cat.jpg");
    assert_eq!(file_name_part("/a/b/"), "");
}

#[test]
fn test_join_path() {
    assert_eq!(join_path("/home/me/.u2net", "u2net.onnx"), "/home/me/.u2net/u2net.onnx");
}
