use bevy_ufbx::label::{material_label, mesh_label, scene_label};

#[test]
fn material_labels_carry_the_index() {
    assert_eq!(material_label(0), "Material0");
    assert_eq!(material_label(7), "Material7");
    assert_eq!(material_label(10), "Material10");
    assert_eq!(material_label(109), "Material109");
    assert_eq!(material_label(4_294_967_295), "Material4294967295");
}

#[test]
fn mesh_and_scene_labels_carry_the_index() {
    assert_eq!(mesh_label(0), "Mesh0");
    assert_eq!(mesh_label(42), "Mesh42");
    assert_eq!(scene_label(0), "Scene0");
    assert_eq!(scene_label(1000), "Scene1000");
}

#[test]
fn labels_agree_with_the_standard_formatting() {
    for index in [0usize, 1, 9, 10, 11, 99, 100, 101, 999, 1000, 65_535, 65_536, usize::MAX] {
        assert_eq!(material_label(index), format!("Material{}", index));
        assert_eq!(mesh_label(index), format!("Mesh{}", index));
        assert_eq!(scene_label(index), format!("Scene{}", index));
    }
}

#[test]
fn labels_of_different_indices_differ() {
    assert_ne!(material_label(1), material_label(10));
    assert_ne!(material_label(12), material_label(21));
    assert_ne!(mesh_label(0), mesh_label(100));
}
