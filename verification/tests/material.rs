use bevy_ufbx::decoded::{
    DecodedMaterial, DecodedScene, DecodedTexture, DecodedTextureRef, MaterialProperties, Property,
};
use bevy_ufbx::loader::FbxLoaderSettings;
use bevy_ufbx::material::{
    alpha_mode, color, create_standard_material, process_materials, process_textures,
    texture_load_path, texture_slot, AlphaMode, Color, TextureSlot, BLEND_THRESHOLD_BITS,
};
use bevy_ufbx::scalar::Scalar;
use std::collections::HashMap;

fn scalar(value: f64) -> Scalar {
    Scalar::from_bits(value.to_bits())
}

fn absent() -> Property {
    Property { present: false, x: scalar(0.0), y: scalar(0.0), z: scalar(0.0) }
}

fn factor(value: f64) -> Property {
    Property { present: true, x: scalar(value), y: scalar(value), z: scalar(value) }
}

fn rgb(r: f64, g: f64, b: f64) -> Property {
    Property { present: true, x: scalar(r), y: scalar(g), z: scalar(b) }
}

fn no_properties() -> MaterialProperties {
    MaterialProperties {
        diffuse_color: absent(),
        base_color: absent(),
        metalness: absent(),
        roughness: absent(),
        emission_color: absent(),
        opacity: absent(),
    }
}

fn texture_ref(prop: &str, texture_id: u32) -> DecodedTextureRef {
    DecodedTextureRef { material_prop: String::from(prop), texture_id }
}

fn material(id: u32, name: &str, textures: Vec<DecodedTextureRef>) -> DecodedMaterial {
    DecodedMaterial {
        element_id: id,
        name: String::from(name),
        properties: no_properties(),
        textures,
    }
}

fn with_opacity(opacity: Property) -> DecodedMaterial {
    let mut m = material(1, "m", Vec::new());
    m.properties.opacity = opacity;
    m
}

fn handles(ids: &[u32]) -> HashMap<u32, String> {
    ids.iter().map(|id| (*id, format!("tex{}.png", id))).collect()
}

fn texture(id: u32, filename: &str, absolute: &str) -> DecodedTexture {
    DecodedTexture {
        element_id: id,
        filename: String::from(filename),
        absolute_filename: String::from(absolute),
    }
}

fn scene(materials: Vec<DecodedMaterial>, textures: Vec<DecodedTexture>) -> DecodedScene {
    DecodedScene { materials, textures, meshes: Vec::new(), nodes: Vec::new(), skins: Vec::new() }
}

#[test]
fn the_threshold_is_the_pattern_of_0_98() {
    assert_eq!(BLEND_THRESHOLD_BITS, 0.98f64.to_bits());
}

#[test]
fn full_opacity_is_opaque() {
    assert_eq!(alpha_mode(factor(1.0)), AlphaMode::Opaque);
    let record = create_standard_material(&with_opacity(factor(1.0)), &HashMap::new()).unwrap();
    assert_eq!(record.alpha_mode, AlphaMode::Opaque);
}

#[test]
fn opacity_from_the_threshold_up_is_opaque() {
    for value in [0.98, 0.980_000_000_000_000_1, 0.985, 0.99, 0.999_999_999_999_999_9] {
        assert!(0.98 <= value && value < 1.0);
        assert_eq!(alpha_mode(factor(value)), AlphaMode::Opaque, "{value:?}");
    }
}

#[test]
fn opacity_below_the_threshold_blends() {
    for value in [0.979_999_999_999_999_9, 0.97, 0.5, 0.0, -0.0, -1.0, f64::NEG_INFINITY] {
        assert!(value < 0.98);
        assert_eq!(alpha_mode(factor(value)), AlphaMode::Blend, "{value:?}");
        let record =
            create_standard_material(&with_opacity(factor(value)), &HashMap::new()).unwrap();
        assert_eq!(record.alpha_mode, AlphaMode::Blend, "{value:?}");
    }
}

#[test]
fn opacity_above_one_is_opaque() {
    for value in [1.000_000_000_000_000_2, 2.0, 1.0e300, f64::INFINITY] {
        assert_eq!(alpha_mode(factor(value)), AlphaMode::Opaque, "{value:?}");
    }
}

#[test]
fn opacity_that_is_no_number_is_opaque() {
    assert_eq!(alpha_mode(factor(f64::NAN)), AlphaMode::Opaque);
    assert_eq!(alpha_mode(factor(-f64::NAN)), AlphaMode::Opaque);
}

#[test]
fn an_absent_opacity_is_opaque_whatever_its_value() {
    let mut low = factor(0.0);
    low.present = false;
    assert_eq!(alpha_mode(low), AlphaMode::Opaque);
    assert_eq!(alpha_mode(absent()), AlphaMode::Opaque);
    let record = create_standard_material(&with_opacity(low), &HashMap::new()).unwrap();
    assert_eq!(record.alpha_mode, AlphaMode::Opaque);
}

#[test]
fn alpha_mode_agrees_with_the_float_comparison() {
    let mut value = 0.9f64;
    while value < 1.05 {
        let expected = if value < 0.98 { AlphaMode::Blend } else { AlphaMode::Opaque };
        assert_eq!(alpha_mode(factor(value)), expected, "{value:?}");
        value += 0.000_37;
    }
}

#[test]
fn a_material_without_properties_keeps_every_default() {
    let record = create_standard_material(&material(1, "m", Vec::new()), &HashMap::new()).unwrap();
    assert_eq!(record.base_color, None);
    assert_eq!(record.metallic, None);
    assert_eq!(record.perceptual_roughness, None);
    assert_eq!(record.emissive, None);
    assert_eq!(record.alpha_mode, AlphaMode::Opaque);
    assert_eq!(record.base_color_texture, None);
    assert_eq!(record.uv_transform_texture, None);
    assert_eq!(record.normal_map_texture, None);
    assert_eq!(record.metallic_roughness_texture, None);
    assert_eq!(record.emissive_texture, None);
    assert_eq!(record.occlusion_texture, None);
}

#[test]
fn the_diffuse_colour_is_preferred_to_the_base_colour() {
    let mut m = material(1, "m", Vec::new());
    m.properties.diffuse_color = rgb(0.8, 0.2, 0.1);
    m.properties.base_color = rgb(0.3, 0.4, 0.5);
    let record = create_standard_material(&m, &HashMap::new()).unwrap();
    assert_eq!(
        record.base_color,
        Some(Color { red: scalar(0.8), green: scalar(0.2), blue: scalar(0.1) })
    );
}

#[test]
fn the_base_colour_stands_in_for_an_absent_diffuse_colour() {
    let mut m = material(1, "m", Vec::new());
    m.properties.base_color = rgb(0.3, 0.4, 0.5);
    let record = create_standard_material(&m, &HashMap::new()).unwrap();
    let base = record.base_color.unwrap();
    assert_eq!(f64::from_bits(base.red.bits), 0.3);
    assert_eq!(f64::from_bits(base.green.bits), 0.4);
    assert_eq!(f64::from_bits(base.blue.bits), 0.5);
}

#[test]
fn factors_and_emission_are_taken_where_present() {
    let mut m = material(1, "m", Vec::new());
    m.properties.metalness = factor(0.7);
    m.properties.roughness = factor(0.3);
    m.properties.emission_color = rgb(0.1, 0.2, 0.3);
    let record = create_standard_material(&m, &HashMap::new()).unwrap();
    assert_eq!(record.metallic, Some(scalar(0.7)));
    assert_eq!(record.perceptual_roughness, Some(scalar(0.3)));
    assert_eq!(record.emissive, Some(color(rgb(0.1, 0.2, 0.3))));
    assert_eq!(record.base_color, None);
}

#[test]
fn property_names_stand_for_their_slots() {
    let slot = |name: &str| texture_slot(&String::from(name));
    assert_eq!(slot("DiffuseColor"), Some(TextureSlot::BaseColor));
    assert_eq!(slot("BaseColor"), Some(TextureSlot::BaseColor));
    assert_eq!(slot("NormalMap"), Some(TextureSlot::NormalMap));
    assert_eq!(slot("Metallic"), Some(TextureSlot::Metallic));
    assert_eq!(slot("Roughness"), Some(TextureSlot::Roughness));
    assert_eq!(slot("EmissiveColor"), Some(TextureSlot::Emissive));
    assert_eq!(slot("AmbientOcclusion"), Some(TextureSlot::Occlusion));
}

#[test]
fn other_property_names_stand_for_no_slot() {
    let slot = |name: &str| texture_slot(&String::from(name));
    assert_eq!(slot(""), None);
    assert_eq!(slot("diffusecolor"), None);
    assert_eq!(slot("Kd"), None);
    assert_eq!(slot("SpecularColor"), None);
    assert_eq!(slot("Metallic "), None);
    assert_eq!(slot("NormalMap2"), None);
}

#[test]
fn each_slot_is_filled_from_its_property() {
    let m = material(
        1,
        "m",
        vec![
            texture_ref("DiffuseColor", 10),
            texture_ref("NormalMap", 11),
            texture_ref("Metallic", 12),
            texture_ref("EmissiveColor", 13),
            texture_ref("AmbientOcclusion", 14),
            texture_ref("SpecularColor", 15),
        ],
    );
    let record = create_standard_material(&m, &handles(&[10, 11, 12, 13, 14, 15])).unwrap();
    assert_eq!(record.base_color_texture, Some(10));
    assert_eq!(record.uv_transform_texture, Some(10));
    assert_eq!(record.normal_map_texture, Some(11));
    assert_eq!(record.metallic_roughness_texture, Some(12));
    assert_eq!(record.emissive_texture, Some(13));
    assert_eq!(record.occlusion_texture, Some(14));
}

#[test]
fn base_color_names_share_a_slot_and_the_later_reference_wins() {
    let table = handles(&[10, 20]);
    let m = material(1, "m", vec![texture_ref("DiffuseColor", 10), texture_ref("BaseColor", 20)]);
    let record = create_standard_material(&m, &table).unwrap();
    assert_eq!(record.base_color_texture, Some(20));
    assert_eq!(record.uv_transform_texture, Some(20));
    let m = material(1, "m", vec![texture_ref("BaseColor", 20), texture_ref("DiffuseColor", 10)]);
    let record = create_standard_material(&m, &table).unwrap();
    assert_eq!(record.base_color_texture, Some(10));
}

#[test]
fn metallic_fills_the_slot_whether_roughness_comes_before_or_after() {
    let table = handles(&[1, 2]);
    let m = material(1, "m", vec![texture_ref("Metallic", 1), texture_ref("Roughness", 2)]);
    assert_eq!(create_standard_material(&m, &table).unwrap().metallic_roughness_texture, Some(1));
    let m = material(1, "m", vec![texture_ref("Roughness", 2), texture_ref("Metallic", 1)]);
    assert_eq!(create_standard_material(&m, &table).unwrap().metallic_roughness_texture, Some(1));
}

#[test]
fn roughness_fills_the_slot_only_where_it_is_empty() {
    let table = handles(&[1, 2, 3]);
    let m = material(1, "m", vec![texture_ref("Roughness", 2)]);
    assert_eq!(create_standard_material(&m, &table).unwrap().metallic_roughness_texture, Some(2));
    let m = material(1, "m", vec![texture_ref("Roughness", 2), texture_ref("Roughness", 3)]);
    assert_eq!(create_standard_material(&m, &table).unwrap().metallic_roughness_texture, Some(2));
    let m = material(
        1,
        "m",
        vec![
            texture_ref("Roughness", 2),
            texture_ref("Metallic", 1),
            texture_ref("Roughness", 3),
            texture_ref("Metallic", 3),
        ],
    );
    assert_eq!(create_standard_material(&m, &table).unwrap().metallic_roughness_texture, Some(3));
}

#[test]
fn an_unresolved_metallic_leaves_the_slot_to_roughness() {
    let m = material(1, "m", vec![texture_ref("Metallic", 1), texture_ref("Roughness", 2)]);
    let record = create_standard_material(&m, &handles(&[2])).unwrap();
    assert_eq!(record.metallic_roughness_texture, Some(2));
}

#[test]
fn a_reference_to_an_unresolved_texture_is_skipped() {
    let m = material(
        1,
        "m",
        vec![
            texture_ref("DiffuseColor", 10),
            texture_ref("DiffuseColor", 99),
            texture_ref("NormalMap", 98),
        ],
    );
    let record = create_standard_material(&m, &handles(&[10])).unwrap();
    assert_eq!(record.base_color_texture, Some(10));
    assert_eq!(record.normal_map_texture, None);
    let record = create_standard_material(&m, &HashMap::new()).unwrap();
    assert_eq!(record.base_color_texture, None);
}

#[test]
fn an_absolute_texture_path_is_kept_unchanged() {
    let t = texture(1, "albedo.png", "/abs/art/albedo.png");
    assert_eq!(texture_load_path(&t, "models/tri.fbx"), "/abs/art/albedo.png");
    assert_eq!(texture_load_path(&t, ""), "/abs/art/albedo.png");
    let odd = texture(1, "albedo.png", "C:\\art\\albedo.png");
    assert_eq!(texture_load_path(&odd, "models/tri.fbx"), "C:\\art\\albedo.png");
}

#[test]
fn a_relative_texture_path_is_joined_to_the_directory_of_the_model() {
    let t = texture(1, "albedo.png", "");
    assert_eq!(texture_load_path(&t, "models/tri.fbx"), "models/albedo.png");
    assert_eq!(texture_load_path(&t, "a/b/tri.fbx"), "a/b/albedo.png");
    let nested = texture(1, "textures/albedo.png", "");
    assert_eq!(texture_load_path(&nested, "models/tri.fbx"), "models/textures/albedo.png");
}

#[test]
fn a_relative_texture_path_beside_a_bare_model_name_stays_as_it_is() {
    let t = texture(1, "albedo.png", "");
    assert_eq!(texture_load_path(&t, "tri.fbx"), "albedo.png");
    assert_eq!(texture_load_path(&t, ""), "albedo.png");
}

#[test]
fn the_relative_path_agrees_with_the_platform_join() {
    for (model, file) in
        [("models/tri.fbx", "a.png"), ("tri.fbx", "a.png"), ("m/n/o.fbx", "../a.png"), ("m/t.fbx", "/r/a.png")]
    {
        let parent = std::path::Path::new(model).parent().unwrap();
        let expected = parent.join(file).to_string_lossy().to_string();
        assert_eq!(texture_load_path(&texture(1, file, ""), model), expected);
    }
}

#[test]
fn textures_are_keyed_by_identity() {
    let s = scene(
        Vec::new(),
        vec![texture(4, "a.png", ""), texture(9, "b.png", "/abs/b.png"), texture(2, "c.png", "")],
    );
    let table = process_textures(&s, "models/tri.fbx").unwrap();
    let mut expected = HashMap::new();
    expected.insert(4u32, String::from("models/a.png"));
    expected.insert(9, String::from("/abs/b.png"));
    expected.insert(2, String::from("models/c.png"));
    assert_eq!(table, expected);
}

#[test]
fn a_texture_without_a_file_name_is_passed_over() {
    let s = scene(
        Vec::new(),
        vec![texture(4, "", ""), texture(5, "", "/abs/only.png"), texture(6, "kept.png", "")],
    );
    let table = process_textures(&s, "tri.fbx").unwrap();
    assert_eq!(table.len(), 1);
    assert_eq!(table.get(&6), Some(&String::from("kept.png")));
    assert!(!table.contains_key(&4));
    assert!(!table.contains_key(&5));
}

#[test]
fn of_two_textures_with_one_identity_the_later_counts() {
    let s = scene(Vec::new(), vec![texture(4, "first.png", ""), texture(4, "second.png", "")]);
    let table = process_textures(&s, "tri.fbx").unwrap();
    assert_eq!(table.len(), 1);
    assert_eq!(table.get(&4), Some(&String::from("second.png")));
}

#[test]
fn no_textures_give_an_empty_table() {
    assert!(process_textures(&scene(Vec::new(), Vec::new()), "tri.fbx").unwrap().is_empty());
}

#[test]
fn materials_of_the_reserved_identity_are_skipped() {
    let s = scene(
        vec![
            material(0, "Reserved", Vec::new()),
            material(5, "Paint", Vec::new()),
            material(0, "", Vec::new()),
            material(8, "Glass", Vec::new()),
        ],
        Vec::new(),
    );
    let (materials, named, _) =
        process_materials(&s, &FbxLoaderSettings::default(), "tri.fbx").unwrap();
    assert_eq!(materials.len(), 2);
    assert!(materials.iter().all(|m| m.element_id != 0));
    assert_eq!(materials[0].element_id, 5);
    assert_eq!(materials[0].index, 1);
    assert_eq!(materials[0].label, "Material1");
    assert_eq!(materials[0].name, "Paint");
    assert_eq!(materials[1].element_id, 8);
    assert_eq!(materials[1].index, 3);
    assert_eq!(materials[1].label, "Material3");
    assert_eq!(named.get("Reserved"), None);
    assert_eq!(named.get("Paint"), Some(0));
    assert_eq!(named.get("Glass"), Some(1));
    assert_eq!(named.len(), 2);
}

#[test]
fn only_reserved_materials_give_no_material() {
    let s = scene(vec![material(0, "a", Vec::new()), material(0, "b", Vec::new())], Vec::new());
    let (materials, named, textures) =
        process_materials(&s, &FbxLoaderSettings::default(), "tri.fbx").unwrap();
    assert!(materials.is_empty());
    assert_eq!(named.len(), 0);
    assert!(textures.is_empty());
}

#[test]
fn unnamed_materials_have_no_key_and_equal_names_keep_the_later() {
    let s = scene(
        vec![
            material(1, "Paint", Vec::new()),
            material(2, "", Vec::new()),
            material(3, "Paint", Vec::new()),
        ],
        Vec::new(),
    );
    let (materials, named, _) =
        process_materials(&s, &FbxLoaderSettings::default(), "tri.fbx").unwrap();
    assert_eq!(materials.len(), 3);
    assert_eq!(named.len(), 1);
    assert_eq!(named.get("Paint"), Some(2));
    assert_eq!(named.get(""), None);
}

#[test]
fn materials_take_their_textures_from_the_scene() {
    let s = scene(
        vec![material(
            7,
            "Paint",
            vec![texture_ref("DiffuseColor", 4), texture_ref("NormalMap", 5), texture_ref("Metallic", 6)],
        )],
        vec![texture(4, "albedo.png", ""), texture(5, "", ""), texture(6, "metal.png", "/abs/metal.png")],
    );
    let (materials, _, textures) =
        process_materials(&s, &FbxLoaderSettings::default(), "models/tri.fbx").unwrap();
    assert_eq!(materials.len(), 1);
    assert_eq!(materials[0].record.base_color_texture, Some(4));
    assert_eq!(materials[0].record.normal_map_texture, None);
    assert_eq!(materials[0].record.metallic_roughness_texture, Some(6));
    assert_eq!(textures.len(), 2);
    assert_eq!(textures[&4], "models/albedo.png");
    assert_eq!(textures[&6], "/abs/metal.png");
}
