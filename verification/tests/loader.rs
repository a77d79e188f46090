use bevy_ufbx::error::FbxError;
use bevy_ufbx::hierarchy::Joint;
use bevy_ufbx::asset::{Axis, Fbx, FbxAxisSystem, Handedness};
use bevy_ufbx::loader::{AssetUsages, FbxLoader, FbxLoaderSettings, MIN_FILE_SIZE};
use bevy_ufbx::material::AlphaMode;
use bevy_ufbx::reader::read_scene;
use bevy_ufbx::scene::SceneInstance;

const MODEL: &str = r#"; FBX 7.4.0 project file
FBXHeaderExtension:  {
	FBXHeaderVersion: 1003
	FBXVersion: 7400
	Creator: "hand"
}
Objects:  {
	Geometry: 1000, "Geometry::Tri", "Mesh" {
		Vertices: *9 {
			a: 0,0,0,1,0,0,0,1,0
		}
		PolygonVertexIndex: *3 {
			a: 0,1,-3
		}
		GeometryVersion: 124
		LayerElementMaterial: 0 {
			Version: 101
			Name: ""
			MappingInformationType: "AllSame"
			ReferenceInformationType: "IndexToDirect"
			Materials: *1 {
				a: 0
			}
		}
		Layer: 0 {
			Version: 100
			LayerElement:  {
				Type: "LayerElementMaterial"
				TypedIndex: 0
			}
		}
	}
	Model: 2000, "Model::Tri", "Mesh" {
		Version: 232
	}
	Material: 3000, "Material::Paint", "" {
		Version: 102
		ShadingModel: "phong"
		Properties70:  {
			P: "DiffuseColor", "Color", "", "A",0.8,0.2,0.1
		}
	}
	Texture: 4000, "Texture::Albedo", "" {
		Type: "TextureVideoClip"
		Version: 202
		TextureName: "Texture::Albedo"
		RelativeFilename: "albedo.png"
	}
}
Connections:  {
	C: "OO",2000,0
	C: "OO",1000,2000
	C: "OO",3000,2000
	C: "OP",4000,3000, "DiffuseColor"
}
"#;

const RIGGED: &str = r#"; FBX 7.4.0 project file
FBXHeaderExtension:  {
	FBXHeaderVersion: 1003
	FBXVersion: 7400
	Creator: "hand"
}
Objects:  {
	Geometry: 1000, "Geometry::Arm", "Mesh" {
		Vertices: *9 {
			a: 0,0,0,1,0,0,0,1,0
		}
		PolygonVertexIndex: *3 {
			a: 0,1,-3
		}
		GeometryVersion: 124
	}
	Model: 2000, "Model::Arm", "Mesh" {
		Version: 232
	}
	Model: 2001, "Model::Shoulder", "LimbNode" {
		Version: 232
	}
	Model: 2002, "Model::Elbow", "LimbNode" {
		Version: 232
	}
	Deformer: 5000, "Deformer::Rig", "Skin" {
		Version: 101
		Link_DeformAcuracy: 50
	}
	Deformer: 5001, "SubDeformer::Upper", "Cluster" {
		Version: 100
		Indexes: *2 {
			a: 0,1
		}
		Weights: *2 {
			a: 1,0.5
		}
		Transform: *16 {
			a: 1,0,0,0,0,1,0,0,0,0,1,0,0,0,0,1
		}
		TransformLink: *16 {
			a: 1,0,0,0,0,1,0,0,0,0,1,0,0,0,0,1
		}
	}
	Deformer: 5002, "SubDeformer::Lower", "Cluster" {
		Version: 100
		Indexes: *2 {
			a: 1,2
		}
		Weights: *2 {
			a: 0.5,1
		}
		Transform: *16 {
			a: 1,0,0,0,0,1,0,0,0,0,1,0,0,0,0,1
		}
		TransformLink: *16 {
			a: 1,0,0,0,0,1,0,0,0,0,1,0,0,0,0,1
		}
	}
}
Connections:  {
	C: "OO",2000,0
	C: "OO",2001,0
	C: "OO",2002,2001
	C: "OO",1000,2000
	C: "OO",5000,1000
	C: "OO",5001,5000
	C: "OO",5002,5000
	C: "OO",2001,5001
	C: "OO",2002,5002
}
"#;

const LIBRARY: &str = "# materials\nnewmtl Glass\nKd 0.8 0.2 0.1\nd 0.5\nPr 0.3\nPm 0.7\nKe 0.1 0.2 0.3\nmap_Kd albedo.png\nnewmtl Solid\nKd 0.5 0.5 0.5\nd 1.0\nnewmtl Near\nd 0.98\nnewmtl Under\nd 0.9799\nnewmtl Bare\n";

fn load(bytes: &[u8], settings: &FbxLoaderSettings) -> Result<Fbx, FbxError> {
    FbxLoader.load(bytes, settings, "models/tri.fbx")
}

fn number(bits: bevy_ufbx::scalar::Scalar) -> f64 {
    f64::from_bits(bits.bits)
}

#[test]
fn an_empty_buffer_is_invalid_input() {
    match load(&[], &FbxLoaderSettings::default()) {
        Err(FbxError::InvalidInput(text)) => assert_eq!(text, "Empty FBX file"),
        other => panic!("{:?}", other.map(|_| ())),
    }
}

#[test]
fn a_buffer_of_31_bytes_is_invalid_input() {
    match load(&[b'K'; 31], &FbxLoaderSettings::default()) {
        Err(FbxError::InvalidInput(text)) => assert_eq!(text, "FBX file too small"),
        other => panic!("{:?}", other.map(|_| ())),
    }
    match load(&[0u8; 1], &FbxLoaderSettings::default()) {
        Err(FbxError::InvalidInput(text)) => assert_eq!(text, "FBX file too small"),
        other => panic!("{:?}", other.map(|_| ())),
    }
}

#[test]
fn a_buffer_of_32_bytes_goes_to_the_decoder() {
    match load(&[0u8; 32], &FbxLoaderSettings::default()) {
        Err(FbxError::DecodeError(text)) => assert!(!text.is_empty()),
        other => panic!("{:?}", other.map(|_| ())),
    }
}

#[test]
fn validate_accepts_from_the_header_size_up() {
    assert_eq!(MIN_FILE_SIZE, 32);
    assert!(FbxLoader::validate(&[0u8; 32]).is_ok());
    assert!(FbxLoader::validate(&[0u8; 33]).is_ok());
    assert!(FbxLoader::validate(MODEL.as_bytes()).is_ok());
    assert!(matches!(FbxLoader::validate(&[0u8; 31]), Err(FbxError::InvalidInput(_))));
    assert!(matches!(FbxLoader::validate(&[]), Err(FbxError::InvalidInput(_))));
}

#[test]
fn the_error_carries_its_text() {
    let error = FbxLoader::validate(&[]).unwrap_err();
    assert_eq!(error.message(), "Empty FBX file");
    let error = FbxLoader::validate(&[1, 2, 3]).unwrap_err();
    assert_eq!(error.message(), "FBX file too small");
}

#[test]
fn a_rejected_encoding_carries_the_decoder_diagnostic() {
    let garbage = [b'?'; 64];
    let expected = match ufbx::load_memory(&garbage, ufbx::LoadOpts::default()) {
        Err(error) => format!("{:?}", error),
        Ok(_) => panic!("the decoder accepted garbage"),
    };
    match load(&garbage, &FbxLoaderSettings::default()) {
        Err(FbxError::DecodeError(text)) => assert_eq!(text, expected),
        other => panic!("{:?}", other.map(|_| ())),
    }
    assert!(matches!(FbxLoader::decode_scene(&garbage), Err(FbxError::DecodeError(_))));
}

#[test]
fn the_default_settings_load_everything_and_keep_no_source() {
    let settings = FbxLoaderSettings::default();
    assert_eq!(settings.load_meshes, AssetUsages { main_world: true, render_world: true });
    assert_eq!(settings.load_materials, AssetUsages { main_world: true, render_world: true });
    assert!(settings.load_cameras);
    assert!(settings.load_lights);
    assert!(!settings.include_source);
    assert!(!settings.convert_coordinates);
}

#[test]
fn usages_are_empty_only_where_neither_world_is_named() {
    assert!(AssetUsages::none().is_empty());
    assert!(!AssetUsages::all().is_empty());
    assert!(!AssetUsages::default().is_empty());
    assert!(!AssetUsages { main_world: true, render_world: false }.is_empty());
    assert!(!AssetUsages { main_world: false, render_world: true }.is_empty());
    assert_eq!(AssetUsages::default(), AssetUsages::all());
}

#[test]
fn the_loader_is_registered_for_fbx_only() {
    assert_eq!(FbxLoader.extensions(), &["fbx"]);
}

#[test]
fn a_minimal_model_loads_end_to_end() {
    let asset = load(MODEL.as_bytes(), &FbxLoaderSettings::default()).unwrap();
    assert_eq!(asset.scenes.len(), 1);
    assert_eq!(asset.default_scene, Some(0));
    assert_eq!(asset.scenes[0].label, "Scene0");
    assert_eq!(asset.named_scenes.len(), 0);
    assert_eq!(asset.meshes.len(), 1);
    assert_eq!(asset.meshes[0].name, "Tri");
    assert_eq!(asset.meshes[0].label, "Mesh0");
    assert_eq!(asset.named_meshes.len(), 1);
    assert_eq!(asset.named_meshes.get("Tri"), Some(0));
    assert_eq!(asset.materials.len(), 1);
    assert_eq!(asset.materials[0].name, "Paint");
    assert_eq!(asset.materials[0].label, "Material0");
    assert_ne!(asset.materials[0].element_id, 0);
    assert_eq!(asset.named_materials.get("Paint"), Some(0));
    assert_eq!(asset.skins.len(), 0);
    assert_eq!(asset.named_skins.len(), 0);
}

#[test]
fn the_minimal_model_has_its_base_colour_slot_filled() {
    let asset = load(MODEL.as_bytes(), &FbxLoaderSettings::default()).unwrap();
    let record = asset.materials[0].record;
    let texture = record.base_color_texture.expect("a base colour texture");
    assert_eq!(record.uv_transform_texture, Some(texture));
    assert_eq!(asset.textures.len(), 1);
    assert_eq!(asset.textures[&texture], "models/albedo.png");
    assert_eq!(record.normal_map_texture, None);
    assert_eq!(record.metallic_roughness_texture, None);
    let base = record.base_color.expect("a base colour");
    assert_eq!(number(base.red), 0.8);
    assert_eq!(number(base.green), 0.2);
    assert_eq!(number(base.blue), 0.1);
    assert_eq!(record.alpha_mode, AlphaMode::Opaque);
}

#[test]
fn the_minimal_model_has_its_hierarchy_and_scene() {
    let asset = load(MODEL.as_bytes(), &FbxLoaderSettings::default()).unwrap();
    assert_eq!(asset.meshes[0].materials, vec![0]);
    assert_eq!(asset.scenes[0].instances, vec![SceneInstance { mesh: 0, material: Some(0) }]);
    assert_eq!(asset.nodes.len(), 2);
    assert_eq!(asset.nodes[0].children, vec![1]);
    assert_eq!(asset.nodes[0].mesh, None);
    assert_eq!(asset.nodes[1].name, "Tri");
    assert_eq!(asset.nodes[1].mesh, Some(0));
    assert_eq!(asset.named_nodes.get("Tri"), Some(1));
}

#[test]
fn the_asset_states_the_coordinate_system_asked_for() {
    let asset = load(MODEL.as_bytes(), &FbxLoaderSettings::default()).unwrap();
    assert_eq!(
        asset.axis_system,
        FbxAxisSystem { up: Axis::Y, front: Axis::Z, handedness: Handedness::Right }
    );
    assert_eq!(number(asset.unit_scale), 1.0);
}

#[test]
fn the_texture_path_follows_the_path_of_the_model() {
    let settings = FbxLoaderSettings::default();
    let asset = FbxLoader.load(MODEL.as_bytes(), &settings, "tri.fbx").unwrap();
    let texture = asset.materials[0].record.base_color_texture.unwrap();
    assert_eq!(asset.textures[&texture], "albedo.png");
    let asset = FbxLoader.load(MODEL.as_bytes(), &settings, "a/b/tri.fbx").unwrap();
    assert_eq!(asset.textures[&texture], "a/b/albedo.png");
}

#[test]
fn with_material_loading_switched_off_there_is_no_material() {
    let mut settings = FbxLoaderSettings::default();
    settings.load_materials = AssetUsages::none();
    let asset = load(MODEL.as_bytes(), &settings).unwrap();
    assert!(asset.materials.is_empty());
    assert_eq!(asset.named_materials.len(), 0);
    assert!(asset.textures.is_empty());
    assert_eq!(asset.meshes.len(), 1);
    assert!(asset.meshes[0].materials.is_empty());
    assert_eq!(asset.scenes[0].instances, vec![SceneInstance { mesh: 0, material: None }]);
    assert_eq!(asset.nodes.len(), 2);
}

#[test]
fn mesh_usages_follow_the_settings() {
    let mut settings = FbxLoaderSettings::default();
    settings.load_meshes = AssetUsages { main_world: true, render_world: false };
    let asset = load(MODEL.as_bytes(), &settings).unwrap();
    assert_eq!(asset.meshes[0].usages, AssetUsages { main_world: true, render_world: false });
}

#[test]
fn opacity_from_a_file_decides_the_alpha_mode() {
    let asset = load(LIBRARY.as_bytes(), &FbxLoaderSettings::default()).unwrap();
    let mode = |name: &str| {
        let position = asset.named_materials.get(name).expect(name);
        asset.materials[position].record.alpha_mode
    };
    assert_eq!(asset.materials.len(), 5);
    assert_eq!(mode("Glass"), AlphaMode::Blend);
    assert_eq!(mode("Solid"), AlphaMode::Opaque);
    assert_eq!(mode("Near"), AlphaMode::Opaque);
    assert_eq!(mode("Under"), AlphaMode::Blend);
    assert_eq!(mode("Bare"), AlphaMode::Opaque);
}

#[test]
fn factors_from_a_file_reach_the_record() {
    let asset = load(LIBRARY.as_bytes(), &FbxLoaderSettings::default()).unwrap();
    let glass = asset.materials[asset.named_materials.get("Glass").unwrap()].record;
    assert_eq!(glass.metallic.map(number), Some(0.7));
    assert_eq!(glass.perceptual_roughness.map(number), Some(0.3));
    let emissive = glass.emissive.unwrap();
    assert_eq!((number(emissive.red), number(emissive.green), number(emissive.blue)), (0.1, 0.2, 0.3));
    let base = glass.base_color.unwrap();
    assert_eq!((number(base.red), number(base.green), number(base.blue)), (0.8, 0.2, 0.1));
    let bare = asset.materials[asset.named_materials.get("Bare").unwrap()].record;
    assert_eq!(bare.base_color, None);
    assert_eq!(bare.metallic, None);
    assert_eq!(bare.perceptual_roughness, None);
    assert_eq!(bare.emissive, None);
}

#[test]
fn a_texture_under_an_unknown_property_fills_no_slot() {
    let asset = load(LIBRARY.as_bytes(), &FbxLoaderSettings::default()).unwrap();
    let glass = asset.materials[asset.named_materials.get("Glass").unwrap()].record;
    assert_eq!(glass.base_color_texture, None);
    assert_eq!(asset.textures.len(), 1);
    assert!(asset.textures.values().all(|path| path == "models/albedo.png"));
}

#[test]
fn no_material_of_a_loaded_asset_has_the_reserved_identity() {
    for text in [MODEL, RIGGED, LIBRARY] {
        let asset = load(text.as_bytes(), &FbxLoaderSettings::default()).unwrap();
        assert!(asset.materials.iter().all(|m| m.element_id != 0));
    }
}

#[test]
fn a_rigged_model_has_its_skin_resolved_to_nodes() {
    let asset = load(RIGGED.as_bytes(), &FbxLoaderSettings::default()).unwrap();
    assert_eq!(asset.skins.len(), 1);
    assert_eq!(asset.skins[0].name, "Rig");
    assert_eq!(asset.named_skins.get("Rig"), Some(0));
    let shoulder = asset.named_nodes.get("Shoulder").unwrap();
    let elbow = asset.named_nodes.get("Elbow").unwrap();
    assert_eq!(
        asset.skins[0].joints,
        vec![Joint { cluster: 0, node: shoulder }, Joint { cluster: 1, node: elbow }]
    );
    assert_eq!(asset.nodes[shoulder].children, vec![elbow]);
    assert_eq!(asset.materials.len(), 0);
    assert_eq!(asset.meshes.len(), 1);
    assert_eq!(asset.meshes[0].name, "Arm");
}

#[test]
fn every_reference_of_a_loaded_asset_is_in_range() {
    for text in [MODEL, RIGGED, LIBRARY] {
        let asset = load(text.as_bytes(), &FbxLoaderSettings::default()).unwrap();
        for mesh in &asset.meshes {
            assert!(mesh.materials.iter().all(|m| *m < asset.materials.len()));
        }
        for node in &asset.nodes {
            assert!(node.mesh.iter().all(|m| *m < asset.meshes.len()));
            assert!(node.children.iter().all(|c| *c < asset.nodes.len()));
        }
        for skin in &asset.skins {
            assert!(skin.joints.iter().all(|j| j.node < asset.nodes.len()));
        }
        for instance in &asset.scenes[0].instances {
            assert!(instance.mesh < asset.meshes.len());
            assert!(instance.material.iter().all(|m| *m < asset.materials.len()));
        }
    }
}

#[test]
fn the_scene_read_from_the_decoder_holds_its_elements() {
    let root = FbxLoader::decode_scene(MODEL.as_bytes()).unwrap();
    let scene = read_scene(&root);
    assert_eq!(scene.materials.len(), root.materials.len());
    assert_eq!(scene.textures.len(), root.textures.len());
    assert_eq!(scene.meshes.len(), root.meshes.len());
    assert_eq!(scene.nodes.len(), root.nodes.len());
    assert_eq!(scene.skins.len(), root.skin_deformers.len());
    assert_eq!(scene.materials[0].name, "Paint");
    assert_eq!(scene.materials[0].element_id, root.materials[0].element.element_id);
    assert!(scene.materials[0].properties.diffuse_color.present);
    assert_eq!(number(scene.materials[0].properties.diffuse_color.y), 0.2);
    assert!(!scene.materials[0].properties.opacity.present);
    assert_eq!(scene.materials[0].textures.len(), 1);
    assert_eq!(scene.materials[0].textures[0].material_prop, "DiffuseColor");
    assert_eq!(scene.materials[0].textures[0].texture_id, scene.textures[0].element_id);
    assert_eq!(scene.textures[0].filename, "albedo.png");
    assert_eq!(scene.textures[0].absolute_filename, "");
    assert_eq!(scene.meshes[0].name, "Tri");
    assert_eq!(scene.meshes[0].material_ids, vec![scene.materials[0].element_id]);
    assert_eq!(scene.nodes[1].mesh_id, Some(scene.meshes[0].element_id));
    assert_eq!(scene.nodes[0].child_ids, vec![scene.nodes[1].element_id]);
}

#[test]
fn the_scene_read_from_a_rigged_model_holds_its_bones() {
    let root = FbxLoader::decode_scene(RIGGED.as_bytes()).unwrap();
    let scene = read_scene(&root);
    assert_eq!(scene.skins.len(), 1);
    assert_eq!(scene.skins[0].name, "Rig");
    assert_eq!(scene.skins[0].bone_ids.len(), 2);
    let id_of = |name: &str| scene.nodes.iter().find(|n| n.name == name).unwrap().element_id;
    assert_eq!(scene.skins[0].bone_ids, vec![Some(id_of("Shoulder")), Some(id_of("Elbow"))]);
}

#[test]
fn loading_is_mapping_what_was_decoded() {
    let settings = FbxLoaderSettings::default();
    let root = FbxLoader::decode_scene(MODEL.as_bytes()).unwrap();
    let mapped = FbxLoader::map_scene(&read_scene(&root), &settings, "models/tri.fbx").unwrap();
    let loaded = load(MODEL.as_bytes(), &settings).unwrap();
    assert_eq!(format!("{:?}", mapped.materials), format!("{:?}", loaded.materials));
    assert_eq!(format!("{:?}", mapped.meshes), format!("{:?}", loaded.meshes));
    assert_eq!(format!("{:?}", mapped.nodes), format!("{:?}", loaded.nodes));
    assert_eq!(format!("{:?}", mapped.scenes), format!("{:?}", loaded.scenes));
    assert_eq!(mapped.textures, loaded.textures);
}
