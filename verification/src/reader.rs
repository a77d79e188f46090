//! Reads a decoder's scene into plain records, element by element.

use vstd::prelude::*;
use crate::decoded::{
    DecodedMaterial, DecodedMesh, DecodedNode, DecodedScene, DecodedSkin, DecodedTexture,
};
use crate::decoder::{
    material_element_at, material_properties_at, material_textures_at, mesh_at, node_at,
    scene_counts, scene_data, skin_at, texture_at,
};

verus! {

/// The material at `index` of the scene's list.
fn read_material(scene: &ufbx::SceneRoot, index: usize) -> (r: DecodedMaterial)
    requires
        index < scene_data(*scene).materials.len(),
    ensures
        r@ == scene_data(*scene).materials[index as int],
{
    let (element_id, name) = material_element_at(scene, index);
    let properties = material_properties_at(scene, index);
    let textures = material_textures_at(scene, index);
    DecodedMaterial { element_id, name, properties, textures }
}

/// The materials of the scene, in order.
fn read_materials(scene: &ufbx::SceneRoot, count: usize) -> (r: Vec<DecodedMaterial>)
    requires
        count == scene_data(*scene).materials.len(),
    ensures
        r@.map_values(|m: DecodedMaterial| m@) == scene_data(*scene).materials,
{
    let mut records: Vec<DecodedMaterial> = Vec::new();
    let mut i: usize = 0;
    while i < count
        invariant
            i <= count,
            count == scene_data(*scene).materials.len(),
            records@.len() == i,
            forall|j: int| 0 <= j < i ==> (#[trigger] records@[j])@ == scene_data(*scene).materials[j],
        decreases count - i,
    {
        records.push(read_material(scene, i));
        i = i + 1;
    }
    assert(records@.map_values(|m: DecodedMaterial| m@) =~= scene_data(*scene).materials);
    records
}

/// The textures of the scene, in order.
fn read_textures(scene: &ufbx::SceneRoot, count: usize) -> (r: Vec<DecodedTexture>)
    requires
        count == scene_data(*scene).textures.len(),
    ensures
        r@.map_values(|t: DecodedTexture| t@) == scene_data(*scene).textures,
{
    let mut records: Vec<DecodedTexture> = Vec::new();
    let mut i: usize = 0;
    while i < count
        invariant
            i <= count,
            count == scene_data(*scene).textures.len(),
            records@.len() == i,
            forall|j: int| 0 <= j < i ==> (#[trigger] records@[j])@ == scene_data(*scene).textures[j],
        decreases count - i,
    {
        records.push(texture_at(scene, i));
        i = i + 1;
    }
    assert(records@.map_values(|t: DecodedTexture| t@) =~= scene_data(*scene).textures);
    records
}

/// The meshes of the scene, in order.
fn read_meshes(scene: &ufbx::SceneRoot, count: usize) -> (r: Vec<DecodedMesh>)
    requires
        count == scene_data(*scene).meshes.len(),
    ensures
        r@.map_values(|m: DecodedMesh| m@) == scene_data(*scene).meshes,
{
    let mut records: Vec<DecodedMesh> = Vec::new();
    let mut i: usize = 0;
    while i < count
        invariant
            i <= count,
            count == scene_data(*scene).meshes.len(),
            records@.len() == i,
            forall|j: int| 0 <= j < i ==> (#[trigger] records@[j])@ == scene_data(*scene).meshes[j],
        decreases count - i,
    {
        records.push(mesh_at(scene, i));
        i = i + 1;
    }
    assert(records@.map_values(|m: DecodedMesh| m@) =~= scene_data(*scene).meshes);
    records
}

/// The nodes of the scene, in order.
fn read_nodes(scene: &ufbx::SceneRoot, count: usize) -> (r: Vec<DecodedNode>)
    requires
        count == scene_data(*scene).nodes.len(),
    ensures
        r@.map_values(|n: DecodedNode| n@) == scene_data(*scene).nodes,
{
    let mut records: Vec<DecodedNode> = Vec::new();
    let mut i: usize = 0;
    while i < count
        invariant
            i <= count,
            count == scene_data(*scene).nodes.len(),
            records@.len() == i,
            forall|j: int| 0 <= j < i ==> (#[trigger] records@[j])@ == scene_data(*scene).nodes[j],
        decreases count - i,
    {
        records.push(node_at(scene, i));
        i = i + 1;
    }
    assert(records@.map_values(|n: DecodedNode| n@) =~= scene_data(*scene).nodes);
    records
}

/// The skins of the scene, in order.
fn read_skins(scene: &ufbx::SceneRoot, count: usize) -> (r: Vec<DecodedSkin>)
    requires
        count == scene_data(*scene).skins.len(),
    ensures
        r@.map_values(|s: DecodedSkin| s@) == scene_data(*scene).skins,
{
    let mut records: Vec<DecodedSkin> = Vec::new();
    let mut i: usize = 0;
    while i < count
        invariant
            i <= count,
            count == scene_data(*scene).skins.len(),
            records@.len() == i,
            forall|j: int| 0 <= j < i ==> (#[trigger] records@[j])@ == scene_data(*scene).skins[j],
        decreases count - i,
    {
        records.push(skin_at(scene, i));
        i = i + 1;
    }
    assert(records@.map_values(|s: DecodedSkin| s@) =~= scene_data(*scene).skins);
    records
}

/// Copies out of a decoder's scene what the mapping reads: every material,
/// texture, mesh, node and skin, each list in the scene's order.
pub fn read_scene(scene: &ufbx::SceneRoot) -> (r: DecodedScene)
    ensures
        r@ == scene_data(*scene),
{
    let counts = scene_counts(scene);
    DecodedScene {
        materials: read_materials(scene, counts.materials),
        textures: read_textures(scene, counts.textures),
        meshes: read_meshes(scene, counts.meshes),
        nodes: read_nodes(scene, counts.nodes),
        skins: read_skins(scene, counts.skins),
    }
}

} // verus!
