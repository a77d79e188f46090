//! The node hierarchy and the skins.
//!
//! Nodes come first: each gets a record, and a table from node identities to
//! positions is built. Skins come second, because a skin names its bones by
//! node identity: the table is an argument of the skin pass.

use vstd::prelude::*;
use std::collections::HashMap;
use crate::decoded::{DecodedScene, NodeData, SkinData};
use crate::error::FbxError;
use crate::identity::{
    index_identities, positions_of, resolve, resolve_all, resolve_all_of, resolve_of,
};
use crate::mesh::{mesh_identities, mesh_views, MeshEntry};
use crate::names::{positions_by_name, NameTable};

verus! {

/// View of a [`NodeRecord`].
pub struct NodeRecordData {
    pub index: usize,
    pub element_id: u32,
    pub name: Seq<char>,
    pub mesh: Option<usize>,
    pub children: Seq<usize>,
}

/// A node of the hierarchy: where it stands in the decoder's list, its
/// identity, its name, the position of its mesh among the mesh entries, and
/// the positions of its children among the node records.
#[derive(Debug)]
pub struct NodeRecord {
    pub index: usize,
    pub element_id: u32,
    pub name: String,
    pub mesh: Option<usize>,
    pub children: Vec<usize>,
}

impl View for NodeRecord {
    type V = NodeRecordData;

    open spec fn view(&self) -> NodeRecordData {
        NodeRecordData {
            index: self.index,
            element_id: self.element_id,
            name: self.name@,
            mesh: self.mesh,
            children: self.children@,
        }
    }
}

/// The views of a list of node records.
pub open spec fn node_views(records: Seq<NodeRecord>) -> Seq<NodeRecordData> {
    records.map_values(|n: NodeRecord| n@)
}

/// The names of a list of node records, in order.
pub open spec fn node_names(records: Seq<NodeRecordData>) -> Seq<Seq<char>> {
    records.map_values(|n: NodeRecordData| n.name)
}

/// The identities of the decoder's nodes, in order.
pub open spec fn node_identities(nodes: Seq<NodeData>) -> Seq<u32> {
    nodes.map_values(|n: NodeData| n.element_id)
}

/// The record of the node at `index` of the decoder's list. A mesh or a child
/// whose identity its table does not hold is left out.
pub open spec fn node_record_of(
    n: NodeData,
    index: usize,
    mesh_positions: Map<u32, usize>,
    node_positions: Map<u32, usize>,
) -> NodeRecordData {
    NodeRecordData {
        index,
        element_id: n.element_id,
        name: n.name,
        mesh: resolve_of(n.mesh_id, mesh_positions),
        children: resolve_all_of(n.child_ids, node_positions),
    }
}

/// The records of the decoder's nodes: one for each, in order.
pub open spec fn node_records(
    nodes: Seq<NodeData>,
    mesh_positions: Map<u32, usize>,
    node_positions: Map<u32, usize>,
) -> Seq<NodeRecordData> {
    Seq::new(
        nodes.len(),
        |i: int| node_record_of(nodes[i], i as usize, mesh_positions, node_positions),
    )
}

/// One bone of a skin: the cluster it comes from, by its position in the
/// skin's cluster list, and the position of its node among the node records.
#[derive(Clone, Copy, PartialEq, Eq, Structural, Debug)]
pub struct Joint {
    pub cluster: usize,
    pub node: usize,
}

/// View of a [`SkinRecord`].
pub struct SkinRecordData {
    pub index: usize,
    pub element_id: u32,
    pub name: Seq<char>,
    pub joints: Seq<Joint>,
}

/// A skin: where it stands in the decoder's list, its identity, its name,
/// and its bones.
#[derive(Debug)]
pub struct SkinRecord {
    pub index: usize,
    pub element_id: u32,
    pub name: String,
    pub joints: Vec<Joint>,
}

impl View for SkinRecord {
    type V = SkinRecordData;

    open spec fn view(&self) -> SkinRecordData {
        SkinRecordData {
            index: self.index,
            element_id: self.element_id,
            name: self.name@,
            joints: self.joints@,
        }
    }
}

/// The views of a list of skin records.
pub open spec fn skin_views(records: Seq<SkinRecord>) -> Seq<SkinRecordData> {
    records.map_values(|s: SkinRecord| s@)
}

/// The names of a list of skin records, in order.
pub open spec fn skin_names(records: Seq<SkinRecordData>) -> Seq<Seq<char>> {
    records.map_values(|s: SkinRecordData| s.name)
}

/// The bones of a skin: one joint for each cluster whose bone resolves, in
/// the order of the clusters. A cluster without a bone, or with a bone whose
/// identity the table does not hold, has no joint.
pub open spec fn joints_of(bones: Seq<Option<u32>>, node_positions: Map<u32, usize>) -> Seq<Joint>
    decreases bones.len(),
{
    if bones.len() == 0 {
        Seq::empty()
    } else {
        let rest = joints_of(bones.drop_last(), node_positions);
        match resolve_of(bones.last(), node_positions) {
            Some(node) => rest.push(Joint { cluster: (bones.len() - 1) as usize, node }),
            None => rest,
        }
    }
}

/// The record of the skin at `index` of the decoder's list.
pub open spec fn skin_record_of(
    s: SkinData,
    index: usize,
    node_positions: Map<u32, usize>,
) -> SkinRecordData {
    SkinRecordData {
        index,
        element_id: s.element_id,
        name: s.name,
        joints: joints_of(s.bone_ids, node_positions),
    }
}

/// The records of the decoder's skins: one for each, in order.
pub open spec fn skin_records(skins: Seq<SkinData>, node_positions: Map<u32, usize>) -> Seq<
    SkinRecordData,
> {
    Seq::new(skins.len(), |i: int| skin_record_of(skins[i], i as usize, node_positions))
}

/// The identities of the mesh entries, in order.
pub fn mesh_entry_identities(meshes: &Vec<MeshEntry>) -> (r: Vec<u32>)
    ensures
        r@ == mesh_identities(mesh_views(meshes@)),
{
    let mut ids: Vec<u32> = Vec::new();
    let mut i: usize = 0;
    while i < meshes.len()
        invariant
            i <= meshes@.len(),
            ids@.len() == i,
            forall|j: int| 0 <= j < i ==> #[trigger] ids@[j] == meshes@[j].element_id,
        decreases meshes@.len() - i,
    {
        ids.push(meshes[i].element_id);
        i = i + 1;
    }
    assert(ids@ =~= mesh_identities(mesh_views(meshes@)));
    ids
}

/// The identities of the scene's nodes, in order.
pub fn scene_node_identities(scene: &DecodedScene) -> (r: Vec<u32>)
    ensures
        r@ == node_identities(scene@.nodes),
{
    let mut ids: Vec<u32> = Vec::new();
    let mut i: usize = 0;
    while i < scene.nodes.len()
        invariant
            i <= scene.nodes@.len(),
            ids@.len() == i,
            forall|j: int| 0 <= j < i ==> #[trigger] ids@[j] == scene.nodes@[j].element_id,
        decreases scene.nodes@.len() - i,
    {
        ids.push(scene.nodes[i].element_id);
        i = i + 1;
    }
    assert(ids@ =~= node_identities(scene@.nodes));
    ids
}

/// Maps every node of the scene. Returns the records in the decoder's order,
/// the position of each named record by its name, and the table from node
/// identities to positions. A node's mesh is resolved against `meshes`, its
/// children against the table; a reference that does not resolve is left
/// out.
pub fn process_nodes(scene: &DecodedScene, meshes: &Vec<MeshEntry>) -> (r: Result<
    (Vec<NodeRecord>, NameTable, HashMap<u32, usize>),
    FbxError,
>)
    ensures
        r is Ok,
        r->Ok_0.2@ == positions_of(node_identities(scene@.nodes)),
        node_views(r->Ok_0.0@) == node_records(
            scene@.nodes,
            positions_of(mesh_identities(mesh_views(meshes@))),
            positions_of(node_identities(scene@.nodes)),
        ),
        r->Ok_0.1@ == positions_by_name(node_names(node_views(r->Ok_0.0@))),
{
    let mesh_ids = mesh_entry_identities(meshes);
    let mesh_positions = index_identities(&mesh_ids);
    let node_ids = scene_node_identities(scene);
    let node_map = index_identities(&node_ids);
    let mut nodes: Vec<NodeRecord> = Vec::new();
    let mut named_nodes = NameTable::new();
    let ghost decoded = scene@.nodes;
    let count: usize = scene.nodes.len();
    let mut index: usize = 0;
    assert(node_names(node_views(nodes@)) =~= Seq::<Seq<char>>::empty());
    while index < count
        invariant
            index <= count,
            count == scene.nodes.len(),
            decoded == scene@.nodes,
            decoded.len() == count,
            nodes@.len() == index,
            forall|j: int|
                0 <= j < index ==> (#[trigger] nodes@[j])@ == node_record_of(
                    decoded[j],
                    j as usize,
                    mesh_positions@,
                    node_map@,
                ),
            named_nodes@ == positions_by_name(node_names(node_views(nodes@))),
        decreases count - index,
    {
        let node = &scene.nodes[index];
        assert(node@ == decoded[index as int]);
        let record = NodeRecord {
            index,
            element_id: node.element_id,
            name: node.name.clone(),
            mesh: resolve(node.mesh_id, &mesh_positions),
            children: resolve_all(&node.child_ids, &node_map),
        };
        let ghost before = nodes@;
        named_nodes.record(&node.name, nodes.len());
        nodes.push(record);
        assert(node_names(node_views(nodes@)).drop_last() =~= node_names(node_views(before)));
        assert(node_names(node_views(nodes@)).last() == record@.name);
        index = index + 1;
    }
    assert(node_views(nodes@) =~= node_records(decoded, mesh_positions@, node_map@));
    Ok((nodes, named_nodes, node_map))
}

/// The bones of a skin, resolved through the table of node positions.
pub fn resolve_joints(bones: &Vec<Option<u32>>, node_map: &HashMap<u32, usize>) -> (r: Vec<Joint>)
    ensures
        r@ == joints_of(bones@, node_map@),
{
    let mut joints: Vec<Joint> = Vec::new();
    let mut cluster: usize = 0;
    assert(bones@.take(0) =~= Seq::<Option<u32>>::empty());
    while cluster < bones.len()
        invariant
            cluster <= bones@.len(),
            joints@ == joints_of(bones@.take(cluster as int), node_map@),
        decreases bones@.len() - cluster,
    {
        assert(bones@.take(cluster as int + 1).drop_last() =~= bones@.take(cluster as int));
        assert(bones@.take(cluster as int + 1).last() == bones@[cluster as int]);
        match resolve(bones[cluster], node_map) {
            Some(node) => {
                joints.push(Joint { cluster, node });
            },
            None => {},
        }
        cluster = cluster + 1;
    }
    assert(bones@.take(bones@.len() as int) =~= bones@);
    joints
}

/// Maps every skin of the scene, resolving its bones through `node_map`, the
/// table that the node pass returned. Returns the records in the decoder's
/// order and the position of each named record by its name.
pub fn process_skins(scene: &DecodedScene, node_map: &HashMap<u32, usize>) -> (r: Result<
    (Vec<SkinRecord>, NameTable),
    FbxError,
>)
    ensures
        r is Ok,
        skin_views(r->Ok_0.0@) == skin_records(scene@.skins, node_map@),
        r->Ok_0.1@ == positions_by_name(skin_names(skin_views(r->Ok_0.0@))),
{
    let mut skins: Vec<SkinRecord> = Vec::new();
    let mut named_skins = NameTable::new();
    let ghost decoded = scene@.skins;
    let count: usize = scene.skins.len();
    let mut index: usize = 0;
    assert(skin_names(skin_views(skins@)) =~= Seq::<Seq<char>>::empty());
    while index < count
        invariant
            index <= count,
            count == scene.skins.len(),
            decoded == scene@.skins,
            decoded.len() == count,
            skins@.len() == index,
            forall|j: int|
                0 <= j < index ==> (#[trigger] skins@[j])@ == skin_record_of(
                    decoded[j],
                    j as usize,
                    node_map@,
                ),
            named_skins@ == positions_by_name(skin_names(skin_views(skins@))),
        decreases count - index,
    {
        let skin = &scene.skins[index];
        assert(skin@ == decoded[index as int]);
        let record = SkinRecord {
            index,
            element_id: skin.element_id,
            name: skin.name.clone(),
            joints: resolve_joints(&skin.bone_ids, node_map),
        };
        let ghost before = skins@;
        named_skins.record(&skin.name, skins.len());
        skins.push(record);
        assert(skin_names(skin_views(skins@)).drop_last() =~= skin_names(skin_views(before)));
        assert(skin_names(skin_views(skins@)).last() == record@.name);
        index = index + 1;
    }
    assert(skin_views(skins@) =~= skin_records(decoded, node_map@));
    Ok((skins, named_skins))
}

/// Each joint belongs to a cluster whose bone resolves, and holds the
/// position that the bone resolves to; the joints stand in the order of
/// their clusters.
pub proof fn lemma_joints_sound(bones: Seq<Option<u32>>, node_positions: Map<u32, usize>, i: int)
    requires
        bones.len() <= usize::MAX,
        0 <= i < joints_of(bones, node_positions).len(),
    ensures
        joints_of(bones, node_positions).len() <= bones.len(),
        i <= joints_of(bones, node_positions)[i].cluster < bones.len(),
        resolve_of(
            bones[joints_of(bones, node_positions)[i].cluster as int],
            node_positions,
        ) == Some(joints_of(bones, node_positions)[i].node),
    decreases bones.len(),
{
    let rest = bones.drop_last();
    lemma_joints_len(rest, node_positions);
    if i < joints_of(rest, node_positions).len() {
        lemma_joints_sound(rest, node_positions, i);
        assert(joints_of(bones, node_positions)[i] == joints_of(rest, node_positions)[i]);
        assert(rest[joints_of(rest, node_positions)[i].cluster as int]
            == bones[joints_of(rest, node_positions)[i].cluster as int]);
    }
}

/// There are no more joints than clusters.
pub proof fn lemma_joints_len(bones: Seq<Option<u32>>, node_positions: Map<u32, usize>)
    ensures
        joints_of(bones, node_positions).len() <= bones.len(),
    decreases bones.len(),
{
    if bones.len() > 0 {
        lemma_joints_len(bones.drop_last(), node_positions);
    }
}

/// A cluster whose bone does not resolve adds no joint.
pub proof fn lemma_dangling_bone_is_dropped(
    bones: Seq<Option<u32>>,
    bone: Option<u32>,
    node_positions: Map<u32, usize>,
)
    requires
        resolve_of(bone, node_positions) is None,
    ensures
        joints_of(bones.push(bone), node_positions) == joints_of(bones, node_positions),
{
    assert(bones.push(bone).drop_last() =~= bones);
}

/// Every cluster whose bone resolves has its joint.
pub proof fn lemma_joints_complete(
    bones: Seq<Option<u32>>,
    node_positions: Map<u32, usize>,
    cluster: int,
) -> (i: int)
    requires
        bones.len() <= usize::MAX,
        0 <= cluster < bones.len(),
        resolve_of(bones[cluster], node_positions) is Some,
    ensures
        0 <= i < joints_of(bones, node_positions).len(),
        joints_of(bones, node_positions)[i].cluster == cluster,
    decreases bones.len(),
{
    let rest = bones.drop_last();
    if cluster < rest.len() {
        assert(rest[cluster] == bones[cluster]);
        let i = lemma_joints_complete(rest, node_positions, cluster);
        assert(joints_of(bones, node_positions)[i] == joints_of(rest, node_positions)[i]);
        i
    } else {
        joints_of(rest, node_positions).len() as int
    }
}

} // verus!
