//! The loader's front end: its settings and the load itself.

use vstd::prelude::*;
use vstd::string::*;
use std::collections::HashMap;
use crate::asset::{
    asset_of, lemma_asset_has_no_reserved_material, lemma_records_are_indexable,
    lemma_references_resolve, no_reserved_material, references_resolve, Axis, Fbx, FbxAxisSystem,
    Handedness,
};
use crate::decoded::DecodedScene;
use crate::decoder::{decode, decoded, scene_data};
use crate::error::{is_decode_error, is_invalid_input, FbxError};
use crate::hierarchy::{process_nodes, process_skins};
use crate::material::{entry_names, entry_views, path_texts, process_materials};
use crate::mesh::{mesh_views, process_meshes};
use crate::names::{positions_by_name, NameTable};
use crate::reader::read_scene;
use crate::scalar::Scalar;
use crate::scene::{build_scene, default_scene_of, scene_views, SceneRecord};

verus! {

/// The least number of bytes that can hold a file header.
pub const MIN_FILE_SIZE: usize = 32;

/// What loaded data is kept for: the main world, the render world, both or
/// neither.
#[derive(Clone, Copy, PartialEq, Eq, Structural, Debug)]
pub struct AssetUsages {
    pub main_world: bool,
    pub render_world: bool,
}

impl AssetUsages {
    /// True when the data is kept for neither world.
    pub open spec fn empty(self) -> bool {
        !self.main_world && !self.render_world
    }

    /// Whether the data is kept for neither world.
    pub fn is_empty(&self) -> (r: bool)
        ensures
            r == self.empty(),
    {
        !self.main_world && !self.render_world
    }

    /// Kept for both worlds.
    pub fn all() -> (r: AssetUsages)
        ensures
            r.main_world,
            r.render_world,
    {
        AssetUsages { main_world: true, render_world: true }
    }

    /// Kept for neither world.
    pub fn none() -> (r: AssetUsages)
        ensures
            r.empty(),
    {
        AssetUsages { main_world: false, render_world: false }
    }
}

impl Default for AssetUsages {
    fn default() -> (r: AssetUsages)
        ensures
            r.main_world,
            r.render_world,
    {
        AssetUsages::all()
    }
}

/// Settings of a load.
#[derive(Clone, Copy, Debug)]
pub struct FbxLoaderSettings {
    /// What mesh data is kept for.
    pub load_meshes: AssetUsages,
    /// What material data is kept for. Where it is kept for nothing, no
    /// material is mapped.
    pub load_materials: AssetUsages,
    /// Whether cameras are loaded.
    pub load_cameras: bool,
    /// Whether lights are loaded.
    pub load_lights: bool,
    /// Whether the decoded scene is kept on the asset.
    pub include_source: bool,
    /// Whether coordinate systems are converted.
    pub convert_coordinates: bool,
}

impl Default for FbxLoaderSettings {
    fn default() -> (r: FbxLoaderSettings)
        ensures
            r.load_meshes.main_world && r.load_meshes.render_world,
            r.load_materials.main_world && r.load_materials.render_world,
            r.load_cameras,
            r.load_lights,
            !r.include_source,
            !r.convert_coordinates,
    {
        FbxLoaderSettings {
            load_meshes: AssetUsages::all(),
            load_materials: AssetUsages::all(),
            load_cameras: true,
            load_lights: true,
            include_source: false,
            convert_coordinates: false,
        }
    }
}

/// What is owed for a buffer: an error for one that is empty or shorter than
/// a header; else the asset of the scene that the decoder makes of it, or the
/// decoder's diagnostic, word for word, where it rejects the bytes.
pub open spec fn load_outcome(
    bytes: Seq<u8>,
    settings: FbxLoaderSettings,
    fbx_path: Seq<char>,
    r: Result<Fbx, FbxError>,
) -> bool {
    if bytes.len() == 0 {
        is_invalid_input(r, "Empty FBX file"@)
    } else if bytes.len() < MIN_FILE_SIZE {
        is_invalid_input(r, "FBX file too small"@)
    } else {
        match decoded(bytes) {
            Ok(scene) => r matches Ok(asset) && asset@ == asset_of(scene, settings, fbx_path),
            Err(text) => is_decode_error(r, text),
        }
    }
}

/// The loader of FBX files.
#[derive(Clone, Copy, Default, Debug)]
pub struct FbxLoader;

impl FbxLoader {
    /// Rejects a buffer that is empty or shorter than a file header.
    pub fn validate(bytes: &[u8]) -> (r: Result<(), FbxError>)
        ensures
            bytes@.len() >= MIN_FILE_SIZE <==> r is Ok,
            bytes@.len() == 0 ==> is_invalid_input(r, "Empty FBX file"@),
            0 < bytes@.len() < MIN_FILE_SIZE ==> is_invalid_input(r, "FBX file too small"@),
    {
        if bytes.len() == 0 {
            return Err(FbxError::InvalidInput(String::from_str("Empty FBX file")));
        }
        if bytes.len() < MIN_FILE_SIZE {
            return Err(FbxError::InvalidInput(String::from_str("FBX file too small")));
        }
        Ok(())
    }

    /// Validates a buffer and has it decoded into a right-handed, Y-up scene
    /// in metres.
    pub fn decode_scene(bytes: &[u8]) -> (r: Result<ufbx::SceneRoot, FbxError>)
        ensures
            bytes@.len() == 0 ==> is_invalid_input(r, "Empty FBX file"@),
            0 < bytes@.len() < MIN_FILE_SIZE ==> is_invalid_input(r, "FBX file too small"@),
            bytes@.len() >= MIN_FILE_SIZE ==> match decoded(bytes@) {
                Ok(data) => r matches Ok(scene) && scene_data(scene) == data,
                Err(text) => is_decode_error(r, text),
            },
    {
        match FbxLoader::validate(bytes) {
            Ok(()) => {},
            Err(e) => {
                return Err(e);
            },
        }
        match decode(bytes) {
            Ok(scene) => Ok(scene),
            Err(text) => Err(FbxError::DecodeError(text)),
        }
    }

    /// Maps a decoded scene to the asset: materials, unless material loading
    /// is switched off, then meshes, nodes, skins and the default scene.
    pub fn map_scene(scene: &DecodedScene, settings: &FbxLoaderSettings, fbx_path: &str) -> (r:
        Result<Fbx, FbxError>)
        ensures
            r is Ok,
            r->Ok_0@ == asset_of(scene@, *settings, fbx_path@),
            references_resolve(r->Ok_0@),
            no_reserved_material(r->Ok_0@),
    {
        proof {
            lemma_records_are_indexable(scene);
            lemma_references_resolve(scene@, *settings, fbx_path@);
            lemma_asset_has_no_reserved_material(scene@, *settings, fbx_path@);
        }
        let (materials, named_materials, textures) = if !settings.load_materials.is_empty() {
            match process_materials(scene, settings, fbx_path) {
                Ok(found) => found,
                Err(e) => {
                    return Err(e);
                },
            }
        } else {
            (Vec::new(), NameTable::new(), HashMap::new())
        };
        assert(path_texts(textures@) =~= crate::asset::asset_textures(
            scene@,
            *settings,
            fbx_path@,
        ));
        assert(entry_views(materials@) =~= crate::asset::asset_materials(
            scene@,
            *settings,
            fbx_path@,
        ));
        assert(named_materials@ =~= positions_by_name(entry_names(entry_views(materials@))));
        let (meshes, named_meshes) = match process_meshes(scene, settings, &materials) {
            Ok(found) => found,
            Err(e) => {
                return Err(e);
            },
        };
        let (nodes, named_nodes, node_map) = match process_nodes(scene, &meshes) {
            Ok(found) => found,
            Err(e) => {
                return Err(e);
            },
        };
        let (skins, named_skins) = match process_skins(scene, &node_map) {
            Ok(found) => found,
            Err(e) => {
                return Err(e);
            },
        };
        let default_scene = match build_scene(&meshes) {
            Ok(found) => found,
            Err(e) => {
                return Err(e);
            },
        };
        let mut scenes: Vec<SceneRecord> = Vec::new();
        scenes.push(default_scene);
        assert(scene_views(scenes@) =~= seq![default_scene_of(mesh_views(meshes@))]);
        let asset = Fbx {
            scenes,
            named_scenes: NameTable::new(),
            meshes,
            named_meshes,
            materials,
            named_materials,
            textures,
            nodes,
            named_nodes,
            skins,
            named_skins,
            default_scene: Some(0),
            axis_system: FbxAxisSystem { up: Axis::Y, front: Axis::Z, handedness: Handedness::Right },
            unit_scale: Scalar::one(),
        };
        Ok(asset)
    }

    /// Loads an asset from the bytes of a file. `fbx_path` is the path of the
    /// file itself, against which relative texture paths are resolved.
    pub fn load(&self, bytes: &[u8], settings: &FbxLoaderSettings, fbx_path: &str) -> (r: Result<
        Fbx,
        FbxError,
    >)
        ensures
            load_outcome(bytes@, *settings, fbx_path@, r),
            r matches Ok(asset) ==> references_resolve(asset@) && no_reserved_material(asset@),
    {
        let root = match FbxLoader::decode_scene(bytes) {
            Ok(root) => root,
            Err(e) => {
                return Err(e);
            },
        };
        let scene = read_scene(&root);
        FbxLoader::map_scene(&scene, settings, fbx_path)
    }

    /// The file extensions that the loader is registered for.
    pub fn extensions(&self) -> (r: &'static [&'static str])
        ensures
            r@.len() == 1,
            r@[0]@ == "fbx"@,
    {
        &["fbx"]
    }
}

} // verus!
