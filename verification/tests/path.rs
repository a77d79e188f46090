use bevy_ufbx::path::directory;
use std::path::Path;

#[test]
fn the_directory_of_a_file_is_its_parent() {
    assert_eq!(directory("models/tri.fbx"), "models");
    assert_eq!(directory("a/b/c.fbx"), "a/b");
    assert_eq!(directory("/abs/tri.fbx"), "/abs");
}

#[test]
fn a_bare_file_name_has_the_empty_directory() {
    assert_eq!(directory("tri.fbx"), "");
}

#[test]
fn a_path_without_a_parent_has_the_empty_directory() {
    assert_eq!(directory(""), "");
    assert_eq!(directory("/"), "");
}

#[test]
fn the_directory_agrees_with_the_platform() {
    for path in ["models/tri.fbx", "tri.fbx", "a/b/c/d.fbx", "/root.fbx", "./x.fbx", "../x.fbx"] {
        let expected = Path::new(path).parent().map(|p| p.to_string_lossy().into_owned());
        assert_eq!(directory(path), expected.unwrap_or_default());
    }
}
