//! The boundary to the decoder: the call that turns bytes into a scene, and
//! the reads that copy a scene's elements into plain records.
//!
//! Nothing in this file is proved of the decoder. Each function here states
//! what the decoder's scene holds, and the rest of the crate is verified
//! against those statements.

use vstd::prelude::*;
use crate::decoded::{
    DecodedMesh, DecodedNode, DecodedSkin, DecodedTexture, DecodedTextureRef, MaterialProperties,
    Property, SceneData,
};
use crate::scalar::Scalar;

verus! {

/// The decoder's scene, as it owns it.
#[verifier::external_type_specification]
#[verifier::external_body]
pub struct ExSceneRoot(ufbx::SceneRoot);

/// What the decoder makes of a buffer when it is asked for a right-handed,
/// Y-up scene in metres: the records of the scene, or the text of its
/// diagnostic where it rejects the bytes.
pub uninterp spec fn decoded(bytes: Seq<u8>) -> Result<SceneData, Seq<char>>;

/// The records that a scene holds: its materials, textures, meshes, nodes and
/// skin deformers, each list in the order of the scene's own list.
pub uninterp spec fn scene_data(scene: ufbx::SceneRoot) -> SceneData;

/// How many elements of each kind a scene holds.
pub struct SceneCounts {
    pub materials: usize,
    pub textures: usize,
    pub meshes: usize,
    pub nodes: usize,
    pub skins: usize,
}

/// `ufbx::load_memory`, with the target unit set to one metre and the target
/// axes to right-handed Y-up, every other option at its default; a failure is
/// handed back as its `Debug` text, which is the decoder's own formatting of
/// it. Claimed: whether the decoder accepts depends on the bytes alone, and
/// so do the records of the scene it returns and the text of its failure. A
/// machine that cannot give the decoder the memory it asks for is left out of
/// account.
#[verifier::external_body]
pub(crate) fn decode(bytes: &[u8]) -> (r: Result<ufbx::SceneRoot, String>)
    ensures
        match r {
            Ok(scene) => decoded(bytes@) == Ok::<SceneData, Seq<char>>(scene_data(scene)),
            Err(text) => decoded(bytes@) == Err::<SceneData, Seq<char>>(text@),
        },
{
    let options = ufbx::LoadOpts {
        target_unit_meters: 1u8.into(),
        target_axes: ufbx::CoordinateAxes::right_handed_y_up(),
        ..Default::default()
    };
    ufbx::load_memory(bytes, options).map_err(|failure| format!("{:?}", failure))
}

/// The lengths of the scene's `materials`, `textures`, `meshes`, `nodes` and
/// `skin_deformers` lists.
#[verifier::external_body]
pub(crate) fn scene_counts(scene: &ufbx::SceneRoot) -> (n: SceneCounts)
    ensures
        n.materials == scene_data(*scene).materials.len(),
        n.textures == scene_data(*scene).textures.len(),
        n.meshes == scene_data(*scene).meshes.len(),
        n.nodes == scene_data(*scene).nodes.len(),
        n.skins == scene_data(*scene).skins.len(),
{
    SceneCounts {
        materials: scene.materials.len(),
        textures: scene.textures.len(),
        meshes: scene.meshes.len(),
        nodes: scene.nodes.len(),
        skins: scene.skin_deformers.len(),
    }
}

/// Reads `element.element_id` and `element.name` of `scene.materials[index]`.
#[verifier::external_body]
pub(crate) fn material_element_at(scene: &ufbx::SceneRoot, index: usize) -> (r: (u32, String))
    requires
        index < scene_data(*scene).materials.len(),
    ensures
        r.0 == scene_data(*scene).materials[index as int].element_id,
        r.1@ == scene_data(*scene).materials[index as int].name,
{
    let element = &scene.materials[index].element;
    (element.element_id, element.name.to_string())
}

/// Reads six property maps of `scene.materials[index]`: `fbx.diffuse_color`,
/// `pbr.base_color`, `pbr.metalness`, `pbr.roughness`, `fbx.emission_color`
/// and `pbr.opacity`. Of each it copies `has_value` and the bit patterns of
/// the first three components of `value_vec4`.
#[verifier::external_body]
pub(crate) fn material_properties_at(scene: &ufbx::SceneRoot, index: usize) -> (r:
    MaterialProperties)
    requires
        index < scene_data(*scene).materials.len(),
    ensures
        r == scene_data(*scene).materials[index as int].properties,
{
    let m = &scene.materials[index];
    let p = |v: &ufbx::MaterialMap| Property {
        present: v.has_value,
        x: Scalar { bits: v.value_vec4.x.to_bits() },
        y: Scalar { bits: v.value_vec4.y.to_bits() },
        z: Scalar { bits: v.value_vec4.z.to_bits() },
    };
    MaterialProperties {
        diffuse_color: p(&m.fbx.diffuse_color),
        base_color: p(&m.pbr.base_color),
        metalness: p(&m.pbr.metalness),
        roughness: p(&m.pbr.roughness),
        emission_color: p(&m.fbx.emission_color),
        opacity: p(&m.pbr.opacity),
    }
}

/// Reads the `textures` list of `scene.materials[index]`: of each entry its
/// `material_prop` and the `element_id` of its texture.
#[verifier::external_body]
pub(crate) fn material_textures_at(scene: &ufbx::SceneRoot, index: usize) -> (r: Vec<
    DecodedTextureRef,
>)
    requires
        index < scene_data(*scene).materials.len(),
    ensures
        r@.map_values(|t: DecodedTextureRef| t@) == scene_data(*scene).materials[index as int].textures,
{
    let texture = |t: &ufbx::MaterialTexture| DecodedTextureRef {
        material_prop: t.material_prop.to_string(),
        texture_id: t.texture.element.element_id,
    };
    scene.materials[index].textures.iter().map(texture).collect()
}

/// Reads `element.element_id`, `filename` and `absolute_filename` of
/// `scene.textures[index]`.
#[verifier::external_body]
pub(crate) fn texture_at(scene: &ufbx::SceneRoot, index: usize) -> (r: DecodedTexture)
    requires
        index < scene_data(*scene).textures.len(),
    ensures
        r@ == scene_data(*scene).textures[index as int],
{
    let t = &scene.textures[index];
    DecodedTexture {
        element_id: t.element.element_id,
        filename: t.filename.to_string(),
        absolute_filename: t.absolute_filename.to_string(),
    }
}

/// Reads `element.element_id` and `element.name` of `scene.meshes[index]`,
/// and the `element_id` of each entry of its `materials` list.
#[verifier::external_body]
pub(crate) fn mesh_at(scene: &ufbx::SceneRoot, index: usize) -> (r: DecodedMesh)
    requires
        index < scene_data(*scene).meshes.len(),
    ensures
        r@ == scene_data(*scene).meshes[index as int],
{
    let m = &scene.meshes[index];
    DecodedMesh {
        element_id: m.element.element_id,
        name: m.element.name.to_string(),
        material_ids: m.materials.iter().map(|x| x.element.element_id).collect(),
    }
}

/// Reads `element.element_id` and `element.name` of `scene.nodes[index]`, the
/// `element_id` of its `mesh` where it has one, and the `element_id` of each
/// entry of its `children` list.
#[verifier::external_body]
pub(crate) fn node_at(scene: &ufbx::SceneRoot, index: usize) -> (r: DecodedNode)
    requires
        index < scene_data(*scene).nodes.len(),
    ensures
        r@ == scene_data(*scene).nodes[index as int],
{
    let n = &scene.nodes[index];
    DecodedNode {
        element_id: n.element.element_id,
        name: n.element.name.to_string(),
        mesh_id: n.mesh.as_ref().map(|x| x.element.element_id),
        child_ids: n.children.iter().map(|x| x.element.element_id).collect(),
    }
}

/// Reads `element.element_id` and `element.name` of
/// `scene.skin_deformers[index]`, and of each entry of its `clusters` list
/// the `element_id` of its `bone_node` where it has one.
#[verifier::external_body]
pub(crate) fn skin_at(scene: &ufbx::SceneRoot, index: usize) -> (r: DecodedSkin)
    requires
        index < scene_data(*scene).skins.len(),
    ensures
        r@ == scene_data(*scene).skins[index as int],
{
    let s = &scene.skin_deformers[index];
    let bone = |n: &ufbx::Ref<ufbx::Node>| n.element.element_id;
    DecodedSkin {
        element_id: s.element.element_id,
        name: s.element.name.to_string(),
        bone_ids: s.clusters.iter().map(|c| c.bone_node.as_ref().map(bone)).collect(),
    }
}

} // verus!
