//! The asset that a load yields, and what holds of it.

use vstd::prelude::*;
use std::collections::HashMap;
use crate::decoded::{DecodedScene, SceneData};
use crate::hierarchy::{
    joints_of, lemma_joints_sound, node_identities, node_names, node_records, node_views,
    skin_names, skin_records, skin_views, NodeRecord, NodeRecordData, SkinRecord, SkinRecordData,
};
use crate::identity::{lemma_positions_of, lemma_resolve_all_sound, positions_of, resolve_all_of};
use crate::loader::FbxLoaderSettings;
use crate::material::{
    entry_identities, entry_names, entry_views, lemma_material_entries_len,
    lemma_material_entries_sound, material_entries, path_texts, texture_paths, MaterialEntry,
    MaterialEntryData,
};
use crate::mesh::{
    mesh_entries, mesh_identities, mesh_names, mesh_views, MeshEntry, MeshEntryData,
};
use crate::names::{positions_by_name, NameTable};
use crate::scalar::{Scalar, ONE_BITS};
use crate::scene::{default_scene_of, scene_views, SceneRecord, SceneRecordData};

verus! {

/// A coordinate axis.
#[derive(Clone, Copy, PartialEq, Eq, Structural, Debug)]
pub enum Axis {
    X,
    Y,
    Z,
}

/// The handedness of a coordinate system.
#[derive(Clone, Copy, PartialEq, Eq, Structural, Debug)]
pub enum Handedness {
    Right,
    Left,
}

/// The coordinate system of a loaded asset.
#[derive(Clone, Copy, PartialEq, Eq, Structural, Debug)]
pub struct FbxAxisSystem {
    pub up: Axis,
    pub front: Axis,
    pub handedness: Handedness,
}

/// View of an [`Fbx`].
pub struct FbxData {
    pub scenes: Seq<SceneRecordData>,
    pub named_scenes: Map<Seq<char>, usize>,
    pub meshes: Seq<MeshEntryData>,
    pub named_meshes: Map<Seq<char>, usize>,
    pub materials: Seq<MaterialEntryData>,
    pub named_materials: Map<Seq<char>, usize>,
    pub textures: Map<u32, Seq<char>>,
    pub nodes: Seq<NodeRecordData>,
    pub named_nodes: Map<Seq<char>, usize>,
    pub skins: Seq<SkinRecordData>,
    pub named_skins: Map<Seq<char>, usize>,
    pub default_scene: Option<usize>,
    pub axis_system: FbxAxisSystem,
    pub unit_scale: Scalar,
}

/// What a load yields: every record to register, a name-keyed lookup for
/// each kind, the load path of each texture by its identity, the position of
/// the default scene, and the coordinate system and unit that the decoder
/// was asked for. A reference from one record to another is a position in
/// the list of the other kind.
#[derive(Debug)]
pub struct Fbx {
    pub scenes: Vec<SceneRecord>,
    pub named_scenes: NameTable,
    pub meshes: Vec<MeshEntry>,
    pub named_meshes: NameTable,
    pub materials: Vec<MaterialEntry>,
    pub named_materials: NameTable,
    pub textures: HashMap<u32, String>,
    pub nodes: Vec<NodeRecord>,
    pub named_nodes: NameTable,
    pub skins: Vec<SkinRecord>,
    pub named_skins: NameTable,
    pub default_scene: Option<usize>,
    pub axis_system: FbxAxisSystem,
    pub unit_scale: Scalar,
}

impl View for Fbx {
    type V = FbxData;

    open spec fn view(&self) -> FbxData {
        FbxData {
            scenes: scene_views(self.scenes@),
            named_scenes: self.named_scenes@,
            meshes: mesh_views(self.meshes@),
            named_meshes: self.named_meshes@,
            materials: entry_views(self.materials@),
            named_materials: self.named_materials@,
            textures: path_texts(self.textures@),
            nodes: node_views(self.nodes@),
            named_nodes: self.named_nodes@,
            skins: skin_views(self.skins@),
            named_skins: self.named_skins@,
            default_scene: self.default_scene,
            axis_system: self.axis_system,
            unit_scale: self.unit_scale,
        }
    }
}

/// The coordinate system that the decoder is asked for: right-handed, Y up,
/// Z to the front.
pub open spec fn target_axes() -> FbxAxisSystem {
    FbxAxisSystem { up: Axis::Y, front: Axis::Z, handedness: Handedness::Right }
}

/// The load paths of a scene's textures under given settings: none where
/// material loading is switched off.
pub open spec fn asset_textures(
    scene: SceneData,
    settings: FbxLoaderSettings,
    fbx_path: Seq<char>,
) -> Map<u32, Seq<char>> {
    if settings.load_materials.empty() {
        Map::empty()
    } else {
        texture_paths(scene.textures, fbx_path)
    }
}

/// The material entries of a scene under given settings: none where
/// material loading is switched off.
pub open spec fn asset_materials(
    scene: SceneData,
    settings: FbxLoaderSettings,
    fbx_path: Seq<char>,
) -> Seq<MaterialEntryData> {
    if settings.load_materials.empty() {
        Seq::empty()
    } else {
        material_entries(scene.materials, asset_textures(scene, settings, fbx_path).dom())
    }
}

/// The mesh entries of a scene under given settings.
pub open spec fn asset_meshes(
    scene: SceneData,
    settings: FbxLoaderSettings,
    fbx_path: Seq<char>,
) -> Seq<MeshEntryData> {
    mesh_entries(
        scene.meshes,
        settings.load_meshes,
        positions_of(entry_identities(asset_materials(scene, settings, fbx_path))),
    )
}

/// The asset that a decoded scene maps to.
pub open spec fn asset_of(
    scene: SceneData,
    settings: FbxLoaderSettings,
    fbx_path: Seq<char>,
) -> FbxData {
    let materials = asset_materials(scene, settings, fbx_path);
    let meshes = asset_meshes(scene, settings, fbx_path);
    let node_positions = positions_of(node_identities(scene.nodes));
    let nodes = node_records(scene.nodes, positions_of(mesh_identities(meshes)), node_positions);
    let skins = skin_records(scene.skins, node_positions);
    FbxData {
        scenes: seq![default_scene_of(meshes)],
        named_scenes: Map::empty(),
        meshes,
        named_meshes: positions_by_name(mesh_names(meshes)),
        materials,
        named_materials: positions_by_name(entry_names(materials)),
        textures: asset_textures(scene, settings, fbx_path),
        nodes,
        named_nodes: positions_by_name(node_names(nodes)),
        skins,
        named_skins: positions_by_name(skin_names(skins)),
        default_scene: Some(0usize),
        axis_system: target_axes(),
        unit_scale: Scalar { bits: ONE_BITS },
    }
}

/// The bounds that every decoded scene meets: no list is longer than the
/// machine can index.
pub open spec fn indexable(scene: SceneData) -> bool {
    &&& scene.materials.len() <= usize::MAX
    &&& scene.meshes.len() <= usize::MAX
    &&& scene.nodes.len() <= usize::MAX
    &&& scene.skins.len() <= usize::MAX
    &&& forall|i: int|
        0 <= i < scene.skins.len() ==> (#[trigger] scene.skins[i]).bone_ids.len() <= usize::MAX
}

/// A scene held in executable records is indexable.
pub proof fn lemma_records_are_indexable(scene: &DecodedScene)
    ensures
        indexable(scene@),
{
    assert(scene.materials.len() == scene@.materials.len());
    assert(scene.meshes.len() == scene@.meshes.len());
    assert(scene.nodes.len() == scene@.nodes.len());
    assert(scene.skins.len() == scene@.skins.len());
    assert forall|i: int| 0 <= i < scene@.skins.len() implies (
    #[trigger] scene@.skins[i]).bone_ids.len() <= usize::MAX by {
        assert(scene@.skins[i] == scene.skins@[i]@);
        assert(scene.skins@[i].bone_ids.len() == scene.skins@[i].bone_ids@.len());
    }
}

/// Every reference from one record of an asset to another is a position
/// within the list it points into.
pub open spec fn references_resolve(a: FbxData) -> bool {
    &&& forall|i: int, k: int|
        0 <= i < a.meshes.len() && 0 <= k < a.meshes[i].materials.len() ==> (
        #[trigger] a.meshes[i].materials[k]) < a.materials.len()
    &&& forall|i: int|
        0 <= i < a.nodes.len() ==> ((#[trigger] a.nodes[i]).mesh matches Some(p) ==> p
            < a.meshes.len())
    &&& forall|i: int, k: int|
        0 <= i < a.nodes.len() && 0 <= k < a.nodes[i].children.len() ==> (
        #[trigger] a.nodes[i].children[k]) < a.nodes.len()
    &&& forall|i: int, k: int|
        0 <= i < a.skins.len() && 0 <= k < a.skins[i].joints.len() ==> (
        #[trigger] a.skins[i].joints[k]).node < a.nodes.len()
    &&& forall|s: int, i: int|
        0 <= s < a.scenes.len() && 0 <= i < a.scenes[s].instances.len() ==> {
            &&& (#[trigger] a.scenes[s].instances[i]).mesh < a.meshes.len()
            &&& a.scenes[s].instances[i].material matches Some(p) ==> p < a.materials.len()
        }
    &&& a.default_scene matches Some(p) ==> p < a.scenes.len()
}

/// No material of an asset has the reserved identity 0.
pub open spec fn no_reserved_material(a: FbxData) -> bool {
    forall|i: int| 0 <= i < a.materials.len() ==> (#[trigger] a.materials[i]).element_id != 0
}

/// The asset of an indexable scene holds no material of the reserved
/// identity 0.
pub proof fn lemma_asset_has_no_reserved_material(
    scene: SceneData,
    settings: FbxLoaderSettings,
    fbx_path: Seq<char>,
)
    requires
        indexable(scene),
    ensures
        no_reserved_material(asset_of(scene, settings, fbx_path)),
{
    let a = asset_of(scene, settings, fbx_path);
    assert forall|i: int| 0 <= i < a.materials.len() implies (#[trigger] a.materials[i]).element_id
        != 0 by {
        lemma_no_reserved_material(scene, settings, fbx_path, i);
    }
}

/// No material of the asset has the reserved identity 0.
pub proof fn lemma_no_reserved_material(
    scene: SceneData,
    settings: FbxLoaderSettings,
    fbx_path: Seq<char>,
    i: int,
)
    requires
        indexable(scene),
        0 <= i < asset_of(scene, settings, fbx_path).materials.len(),
    ensures
        asset_of(scene, settings, fbx_path).materials[i].element_id != 0,
{
    lemma_material_entries_sound(
        scene.materials,
        asset_textures(scene, settings, fbx_path).dom(),
        i,
    );
}

/// Where material loading is switched off, the asset has no material and no
/// texture, and no mesh refers to a material.
pub proof fn lemma_materials_switched_off(
    scene: SceneData,
    settings: FbxLoaderSettings,
    fbx_path: Seq<char>,
    i: int,
)
    requires
        settings.load_materials.empty(),
        0 <= i < scene.meshes.len(),
    ensures
        asset_of(scene, settings, fbx_path).materials.len() == 0,
        asset_of(scene, settings, fbx_path).textures == Map::<u32, Seq<char>>::empty(),
        asset_of(scene, settings, fbx_path).named_materials == Map::<Seq<char>, usize>::empty(),
        asset_of(scene, settings, fbx_path).meshes[i].materials.len() == 0,
{
    let positions = positions_of(entry_identities(asset_materials(scene, settings, fbx_path)));
    assert(entry_identities(asset_materials(scene, settings, fbx_path)) =~= Seq::<u32>::empty());
    assert(entry_names(asset_materials(scene, settings, fbx_path)) =~= Seq::<Seq<char>>::empty());
    if resolve_all_of(scene.meshes[i].material_ids, positions).len() > 0 {
        lemma_resolve_all_sound(scene.meshes[i].material_ids, positions, 0);
    }
}

/// A material that a mesh of the asset refers to is a material of the asset.
pub proof fn lemma_mesh_material_in_range(
    scene: SceneData,
    settings: FbxLoaderSettings,
    fbx_path: Seq<char>,
    i: int,
    k: int,
)
    requires
        indexable(scene),
        0 <= i < asset_of(scene, settings, fbx_path).meshes.len(),
        0 <= k < asset_of(scene, settings, fbx_path).meshes[i].materials.len(),
    ensures
        asset_of(scene, settings, fbx_path).meshes[i].materials[k] < asset_of(
            scene,
            settings,
            fbx_path,
        ).materials.len(),
{
    let materials = asset_materials(scene, settings, fbx_path);
    let ids = entry_identities(materials);
    if !settings.load_materials.empty() {
        lemma_material_entries_len(
            scene.materials,
            asset_textures(scene, settings, fbx_path).dom(),
        );
    }
    let j = lemma_resolve_all_sound(scene.meshes[i].material_ids, positions_of(ids), k);
    lemma_positions_of(ids, scene.meshes[i].material_ids[j]);
}

/// The mesh that a node of the asset refers to is a mesh of the asset, and
/// each of its children is a node of the asset.
pub proof fn lemma_node_references_in_range(
    scene: SceneData,
    settings: FbxLoaderSettings,
    fbx_path: Seq<char>,
    i: int,
)
    requires
        indexable(scene),
        0 <= i < asset_of(scene, settings, fbx_path).nodes.len(),
    ensures
        asset_of(scene, settings, fbx_path).nodes[i].mesh matches Some(p) ==> p < asset_of(
            scene,
            settings,
            fbx_path,
        ).meshes.len(),
        forall|k: int|
            0 <= k < asset_of(scene, settings, fbx_path).nodes[i].children.len() ==> (
            #[trigger] asset_of(scene, settings, fbx_path).nodes[i].children[k]) < asset_of(
                scene,
                settings,
                fbx_path,
            ).nodes.len(),
{
    let meshes = asset_meshes(scene, settings, fbx_path);
    let mesh_ids = mesh_identities(meshes);
    let node_ids = node_identities(scene.nodes);
    match scene.nodes[i].mesh_id {
        Some(id) => {
            lemma_positions_of(mesh_ids, id);
        },
        None => {},
    }
    let children = resolve_all_of(scene.nodes[i].child_ids, positions_of(node_ids));
    assert forall|k: int| 0 <= k < children.len() implies (#[trigger] children[k])
        < scene.nodes.len() by {
        let j = lemma_resolve_all_sound(scene.nodes[i].child_ids, positions_of(node_ids), k);
        lemma_positions_of(node_ids, scene.nodes[i].child_ids[j]);
    }
}

/// The node of each joint of a skin of the asset is a node of the asset.
pub proof fn lemma_joint_in_range(
    scene: SceneData,
    settings: FbxLoaderSettings,
    fbx_path: Seq<char>,
    i: int,
    k: int,
)
    requires
        indexable(scene),
        0 <= i < asset_of(scene, settings, fbx_path).skins.len(),
        0 <= k < asset_of(scene, settings, fbx_path).skins[i].joints.len(),
    ensures
        asset_of(scene, settings, fbx_path).skins[i].joints[k].node < asset_of(
            scene,
            settings,
            fbx_path,
        ).nodes.len(),
        asset_of(scene, settings, fbx_path).skins[i].joints[k].cluster
            < scene.skins[i].bone_ids.len(),
{
    let node_ids = node_identities(scene.nodes);
    let bones = scene.skins[i].bone_ids;
    lemma_joints_sound(bones, positions_of(node_ids), k);
    let cluster = joints_of(bones, positions_of(node_ids))[k].cluster as int;
    match bones[cluster] {
        Some(id) => {
            lemma_positions_of(node_ids, id);
        },
        None => {},
    }
}

/// Each instance of the default scene places a mesh of the asset, with a
/// material of the asset where it has one.
pub proof fn lemma_instance_in_range(
    scene: SceneData,
    settings: FbxLoaderSettings,
    fbx_path: Seq<char>,
    i: int,
)
    requires
        indexable(scene),
        0 <= i < asset_of(scene, settings, fbx_path).scenes[0].instances.len(),
    ensures
        asset_of(scene, settings, fbx_path).scenes.len() == 1,
        asset_of(scene, settings, fbx_path).default_scene == Some(0usize),
        asset_of(scene, settings, fbx_path).scenes[0].instances.len() == scene.meshes.len(),
        asset_of(scene, settings, fbx_path).scenes[0].instances[i].mesh == i,
        asset_of(scene, settings, fbx_path).scenes[0].instances[i].material matches Some(p) ==> p
            < asset_of(scene, settings, fbx_path).materials.len(),
{
    let meshes = asset_meshes(scene, settings, fbx_path);
    if meshes[i].materials.len() > 0 {
        lemma_mesh_material_in_range(scene, settings, fbx_path, i, 0);
    }
}

/// In the asset of an indexable scene every reference resolves.
pub proof fn lemma_references_resolve(
    scene: SceneData,
    settings: FbxLoaderSettings,
    fbx_path: Seq<char>,
)
    requires
        indexable(scene),
    ensures
        references_resolve(asset_of(scene, settings, fbx_path)),
{
    let a = asset_of(scene, settings, fbx_path);
    assert forall|i: int, k: int|
        0 <= i < a.meshes.len() && 0 <= k < a.meshes[i].materials.len() implies (
    #[trigger] a.meshes[i].materials[k]) < a.materials.len() by {
        lemma_mesh_material_in_range(scene, settings, fbx_path, i, k);
    }
    assert forall|i: int| 0 <= i < a.nodes.len() implies ((#[trigger] a.nodes[i]).mesh matches Some(
        p,
    ) ==> p < a.meshes.len()) by {
        lemma_node_references_in_range(scene, settings, fbx_path, i);
    }
    assert forall|i: int, k: int|
        0 <= i < a.nodes.len() && 0 <= k < a.nodes[i].children.len() implies (
    #[trigger] a.nodes[i].children[k]) < a.nodes.len() by {
        lemma_node_references_in_range(scene, settings, fbx_path, i);
    }
    assert forall|i: int, k: int|
        0 <= i < a.skins.len() && 0 <= k < a.skins[i].joints.len() implies (
    #[trigger] a.skins[i].joints[k]).node < a.nodes.len() by {
        lemma_joint_in_range(scene, settings, fbx_path, i, k);
    }
    assert forall|s: int, i: int|
        0 <= s < a.scenes.len() && 0 <= i < a.scenes[s].instances.len() implies {
        &&& (#[trigger] a.scenes[s].instances[i]).mesh < a.meshes.len()
        &&& a.scenes[s].instances[i].material matches Some(p) ==> p < a.materials.len()
    } by {
        lemma_instance_in_range(scene, settings, fbx_path, i);
    }
}

} // verus!
