//! The default scene: one instance for each mesh, with the first of the
//! mesh's materials.

use vstd::prelude::*;
use crate::error::FbxError;
use crate::label::{scene_label, scene_label_of};
use crate::mesh::{mesh_views, MeshEntry, MeshEntryData};

verus! {

/// One mesh placed in a scene: the position of the mesh among the mesh
/// entries, and the position of its material among the material entries.
#[derive(Clone, Copy, PartialEq, Eq, Debug)]
pub struct SceneInstance {
    pub mesh: usize,
    pub material: Option<usize>,
}

/// View of a [`SceneRecord`].
pub struct SceneRecordData {
    pub label: Seq<char>,
    pub instances: Seq<SceneInstance>,
}

/// A scene to register: its label and its instances.
#[derive(Debug)]
pub struct SceneRecord {
    pub label: String,
    pub instances: Vec<SceneInstance>,
}

impl View for SceneRecord {
    type V = SceneRecordData;

    open spec fn view(&self) -> SceneRecordData {
        SceneRecordData { label: self.label@, instances: self.instances@ }
    }
}

/// The views of a list of scene records.
pub open spec fn scene_views(records: Seq<SceneRecord>) -> Seq<SceneRecordData> {
    records.map_values(|s: SceneRecord| s@)
}

/// The instance of the mesh entry at `position`: the mesh with the first of
/// its materials, or with none where it has none.
pub open spec fn instance_of(mesh: MeshEntryData, position: usize) -> SceneInstance {
    SceneInstance {
        mesh: position,
        material: if mesh.materials.len() > 0 {
            Some(mesh.materials[0])
        } else {
            None
        },
    }
}

/// The default scene of a list of mesh entries: labelled `Scene0`, with one
/// instance for each mesh, in order.
pub open spec fn default_scene_of(meshes: Seq<MeshEntryData>) -> SceneRecordData {
    SceneRecordData {
        label: scene_label_of(0),
        instances: Seq::new(meshes.len(), |i: int| instance_of(meshes[i], i as usize)),
    }
}

/// Composes the default scene from the mesh entries.
pub fn build_scene(meshes: &Vec<MeshEntry>) -> (r: Result<SceneRecord, FbxError>)
    ensures
        r is Ok,
        r->Ok_0@ == default_scene_of(mesh_views(meshes@)),
{
    let mut instances: Vec<SceneInstance> = Vec::new();
    let mut position: usize = 0;
    while position < meshes.len()
        invariant
            position <= meshes@.len(),
            instances@.len() == position,
            forall|j: int|
                0 <= j < position ==> #[trigger] instances@[j] == instance_of(
                    meshes@[j]@,
                    j as usize,
                ),
        decreases meshes@.len() - position,
    {
        let mesh = &meshes[position];
        let material = if mesh.materials.len() > 0 {
            Some(mesh.materials[0])
        } else {
            None
        };
        instances.push(SceneInstance { mesh: position, material });
        position = position + 1;
    }
    let record = SceneRecord { label: scene_label(0), instances };
    assert(record@.instances =~= default_scene_of(mesh_views(meshes@)).instances);
    Ok(record)
}

} // verus!
