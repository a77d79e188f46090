//! Plain records of what the decoder found in a file.
//!
//! Each record has an executable form, with `String` and `Vec` fields, and a
//! mathematical form over `Seq`, which is its view. Contracts speak of the
//! views.

use vstd::prelude::*;
use crate::scalar::Scalar;

verus! {

/// One property of a material as the decoder reports it: whether the file
/// defines it, and the first three components of its value.
#[derive(Clone, Copy, PartialEq, Eq, Structural, Debug)]
pub struct Property {
    pub present: bool,
    pub x: Scalar,
    pub y: Scalar,
    pub z: Scalar,
}

/// The properties of a material that the mapping reads.
#[derive(Clone, Copy, PartialEq, Eq, Structural, Debug)]
pub struct MaterialProperties {
    /// The classic diffuse colour.
    pub diffuse_color: Property,
    /// The physically-based base colour.
    pub base_color: Property,
    /// The physically-based metalness, in `x`.
    pub metalness: Property,
    /// The physically-based roughness, in `x`.
    pub roughness: Property,
    /// The classic emission colour.
    pub emission_color: Property,
    /// The physically-based opacity, in `x`.
    pub opacity: Property,
}

/// View of a [`DecodedTextureRef`].
pub struct TextureRefData {
    pub material_prop: Seq<char>,
    pub texture_id: u32,
}

/// A material's reference to a texture: the name of the material property
/// that the texture feeds, and the identity of the texture.
#[derive(Debug)]
pub struct DecodedTextureRef {
    pub material_prop: String,
    pub texture_id: u32,
}

impl View for DecodedTextureRef {
    type V = TextureRefData;

    open spec fn view(&self) -> TextureRefData {
        TextureRefData { material_prop: self.material_prop@, texture_id: self.texture_id }
    }
}

/// View of a [`DecodedMaterial`].
pub struct MaterialData {
    pub element_id: u32,
    pub name: Seq<char>,
    pub properties: MaterialProperties,
    pub textures: Seq<TextureRefData>,
}

/// A material as decoded.
#[derive(Debug)]
pub struct DecodedMaterial {
    pub element_id: u32,
    pub name: String,
    pub properties: MaterialProperties,
    pub textures: Vec<DecodedTextureRef>,
}

impl View for DecodedMaterial {
    type V = MaterialData;

    open spec fn view(&self) -> MaterialData {
        MaterialData {
            element_id: self.element_id,
            name: self.name@,
            properties: self.properties,
            textures: self.textures@.map_values(|t: DecodedTextureRef| t@),
        }
    }
}

/// View of a [`DecodedTexture`].
pub struct TextureData {
    pub element_id: u32,
    pub filename: Seq<char>,
    pub absolute_filename: Seq<char>,
}

/// A texture as decoded: its identity, the file name by which the model
/// refers to it, and the absolute file name if the model gives one.
#[derive(Debug)]
pub struct DecodedTexture {
    pub element_id: u32,
    pub filename: String,
    pub absolute_filename: String,
}

impl View for DecodedTexture {
    type V = TextureData;

    open spec fn view(&self) -> TextureData {
        TextureData {
            element_id: self.element_id,
            filename: self.filename@,
            absolute_filename: self.absolute_filename@,
        }
    }
}

/// View of a [`DecodedMesh`].
pub struct MeshData {
    pub element_id: u32,
    pub name: Seq<char>,
    pub material_ids: Seq<u32>,
}

/// A mesh as decoded: its identity, its name, and the identities of the
/// materials that its faces use, in the order of the mesh's material list.
#[derive(Debug)]
pub struct DecodedMesh {
    pub element_id: u32,
    pub name: String,
    pub material_ids: Vec<u32>,
}

impl View for DecodedMesh {
    type V = MeshData;

    open spec fn view(&self) -> MeshData {
        MeshData {
            element_id: self.element_id,
            name: self.name@,
            material_ids: self.material_ids@,
        }
    }
}

/// View of a [`DecodedNode`].
pub struct NodeData {
    pub element_id: u32,
    pub name: Seq<char>,
    pub mesh_id: Option<u32>,
    pub child_ids: Seq<u32>,
}

/// A node as decoded: its identity, its name, the identity of the mesh
/// attached to it, and the identities of its children in order.
#[derive(Debug)]
pub struct DecodedNode {
    pub element_id: u32,
    pub name: String,
    pub mesh_id: Option<u32>,
    pub child_ids: Vec<u32>,
}

impl View for DecodedNode {
    type V = NodeData;

    open spec fn view(&self) -> NodeData {
        NodeData {
            element_id: self.element_id,
            name: self.name@,
            mesh_id: self.mesh_id,
            child_ids: self.child_ids@,
        }
    }
}

/// View of a [`DecodedSkin`].
pub struct SkinData {
    pub element_id: u32,
    pub name: Seq<char>,
    pub bone_ids: Seq<Option<u32>>,
}

/// A skin as decoded: its identity, its name, and for each of its clusters
/// the identity of the node that is the cluster's bone, if it has one.
#[derive(Debug)]
pub struct DecodedSkin {
    pub element_id: u32,
    pub name: String,
    pub bone_ids: Vec<Option<u32>>,
}

impl View for DecodedSkin {
    type V = SkinData;

    open spec fn view(&self) -> SkinData {
        SkinData { element_id: self.element_id, name: self.name@, bone_ids: self.bone_ids@ }
    }
}

/// View of a [`DecodedScene`].
pub struct SceneData {
    pub materials: Seq<MaterialData>,
    pub textures: Seq<TextureData>,
    pub meshes: Seq<MeshData>,
    pub nodes: Seq<NodeData>,
    pub skins: Seq<SkinData>,
}

/// What the mapping reads of a decoded scene, each list in the decoder's
/// order.
#[derive(Debug)]
pub struct DecodedScene {
    pub materials: Vec<DecodedMaterial>,
    pub textures: Vec<DecodedTexture>,
    pub meshes: Vec<DecodedMesh>,
    pub nodes: Vec<DecodedNode>,
    pub skins: Vec<DecodedSkin>,
}

impl View for DecodedScene {
    type V = SceneData;

    open spec fn view(&self) -> SceneData {
        SceneData {
            materials: self.materials@.map_values(|m: DecodedMaterial| m@),
            textures: self.textures@.map_values(|t: DecodedTexture| t@),
            meshes: self.meshes@.map_values(|m: DecodedMesh| m@),
            nodes: self.nodes@.map_values(|n: DecodedNode| n@),
            skins: self.skins@.map_values(|s: DecodedSkin| s@),
        }
    }
}

} // verus!
