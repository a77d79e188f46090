//! Meshes: one entry for each decoded mesh, with the materials it uses
//! resolved to positions in the list of material entries.

use vstd::prelude::*;
use crate::decoded::{DecodedScene, MeshData};
use crate::error::FbxError;
use crate::identity::{index_identities, positions_of, resolve_all, resolve_all_of};
use crate::label::{mesh_label, mesh_label_of};
use crate::loader::{AssetUsages, FbxLoaderSettings};
use crate::material::{entry_identities, entry_views, MaterialEntry};
use crate::names::{positions_by_name, NameTable};

verus! {

/// View of a [`MeshEntry`].
pub struct MeshEntryData {
    pub index: usize,
    pub element_id: u32,
    pub label: Seq<char>,
    pub name: Seq<char>,
    pub usages: AssetUsages,
    pub materials: Seq<usize>,
}

/// A mesh to register: where it stands in the decoder's list, its identity,
/// the label to register it under, its name in the file, what its data is
/// kept for, and the positions of its materials among the material entries.
#[derive(Debug)]
pub struct MeshEntry {
    pub index: usize,
    pub element_id: u32,
    pub label: String,
    pub name: String,
    pub usages: AssetUsages,
    pub materials: Vec<usize>,
}

impl View for MeshEntry {
    type V = MeshEntryData;

    open spec fn view(&self) -> MeshEntryData {
        MeshEntryData {
            index: self.index,
            element_id: self.element_id,
            label: self.label@,
            name: self.name@,
            usages: self.usages,
            materials: self.materials@,
        }
    }
}

/// The views of a list of mesh entries.
pub open spec fn mesh_views(entries: Seq<MeshEntry>) -> Seq<MeshEntryData> {
    entries.map_values(|e: MeshEntry| e@)
}

/// The names of a list of mesh entries, in order.
pub open spec fn mesh_names(entries: Seq<MeshEntryData>) -> Seq<Seq<char>> {
    entries.map_values(|e: MeshEntryData| e.name)
}

/// The identities of a list of mesh entries, in order.
pub open spec fn mesh_identities(entries: Seq<MeshEntryData>) -> Seq<u32> {
    entries.map_values(|e: MeshEntryData| e.element_id)
}

/// The entry of the mesh at `index` of the decoder's list. A material that
/// the table does not hold is left out of the mesh's materials.
pub open spec fn mesh_entry_of(
    m: MeshData,
    index: usize,
    usages: AssetUsages,
    material_positions: Map<u32, usize>,
) -> MeshEntryData {
    MeshEntryData {
        index,
        element_id: m.element_id,
        label: mesh_label_of(index as nat),
        name: m.name,
        usages,
        materials: resolve_all_of(m.material_ids, material_positions),
    }
}

/// The entries of the decoder's meshes: one for each, in order.
pub open spec fn mesh_entries(
    meshes: Seq<MeshData>,
    usages: AssetUsages,
    material_positions: Map<u32, usize>,
) -> Seq<MeshEntryData> {
    Seq::new(
        meshes.len(),
        |i: int| mesh_entry_of(meshes[i], i as usize, usages, material_positions),
    )
}

/// The identities of the material entries, in order.
pub fn material_identities(materials: &Vec<MaterialEntry>) -> (r: Vec<u32>)
    ensures
        r@ == entry_identities(entry_views(materials@)),
{
    let mut ids: Vec<u32> = Vec::new();
    let mut i: usize = 0;
    while i < materials.len()
        invariant
            i <= materials@.len(),
            ids@.len() == i,
            forall|j: int| 0 <= j < i ==> #[trigger] ids@[j] == materials@[j].element_id,
        decreases materials@.len() - i,
    {
        ids.push(materials[i].element_id);
        i = i + 1;
    }
    assert(ids@ =~= entry_identities(entry_views(materials@)));
    ids
}

/// Maps every mesh of the scene. Returns the entries in the decoder's order
/// and the position of each named entry by its name. The materials of a mesh
/// are resolved against `materials`; one that is not among them is left out.
pub fn process_meshes(
    scene: &DecodedScene,
    settings: &FbxLoaderSettings,
    materials: &Vec<MaterialEntry>,
) -> (r: Result<(Vec<MeshEntry>, NameTable), FbxError>)
    ensures
        r is Ok,
        mesh_views(r->Ok_0.0@) == mesh_entries(
            scene@.meshes,
            settings.load_meshes,
            positions_of(entry_identities(entry_views(materials@))),
        ),
        r->Ok_0.1@ == positions_by_name(mesh_names(mesh_views(r->Ok_0.0@))),
{
    let ids = material_identities(materials);
    let material_positions = index_identities(&ids);
    let mut meshes: Vec<MeshEntry> = Vec::new();
    let mut named_meshes = NameTable::new();
    let ghost decoded = scene@.meshes;
    let count: usize = scene.meshes.len();
    let mut index: usize = 0;
    assert(mesh_names(mesh_views(meshes@)) =~= Seq::<Seq<char>>::empty());
    while index < count
        invariant
            index <= count,
            count == scene.meshes.len(),
            decoded == scene@.meshes,
            decoded.len() == count,
            material_positions@ == positions_of(entry_identities(entry_views(materials@))),
            meshes@.len() == index,
            forall|j: int|
                0 <= j < index ==> (#[trigger] meshes@[j])@ == mesh_entry_of(
                    decoded[j],
                    j as usize,
                    settings.load_meshes,
                    material_positions@,
                ),
            named_meshes@ == positions_by_name(mesh_names(mesh_views(meshes@))),
        decreases count - index,
    {
        let mesh = &scene.meshes[index];
        assert(mesh@ == decoded[index as int]);
        let entry = MeshEntry {
            index,
            element_id: mesh.element_id,
            label: mesh_label(index),
            name: mesh.name.clone(),
            usages: settings.load_meshes,
            materials: resolve_all(&mesh.material_ids, &material_positions),
        };
        let ghost before = meshes@;
        named_meshes.record(&mesh.name, meshes.len());
        meshes.push(entry);
        assert(mesh_names(mesh_views(meshes@)).drop_last() =~= mesh_names(mesh_views(before)));
        assert(mesh_names(mesh_views(meshes@)).last() == entry@.name);
        index = index + 1;
    }
    assert(mesh_views(meshes@) =~= mesh_entries(
        decoded,
        settings.load_meshes,
        material_positions@,
    ));
    Ok((meshes, named_meshes))
}

} // verus!
