//! Materials: from decoded properties and texture references to the record
//! an engine's standard material is filled from.

use vstd::prelude::*;
use vstd::string::*;
use std::collections::HashMap;
use crate::decoded::{
    DecodedMaterial, DecodedScene, DecodedTexture, MaterialData, MaterialProperties, Property,
    TextureData, TextureRefData,
};
use crate::error::FbxError;
use crate::label::{material_label, material_label_of};
use crate::loader::FbxLoaderSettings;
use crate::names::{positions_by_name, NameTable};
use crate::path::{directory, directory_of, join, path_join};
use crate::scalar::{Scalar, INFINITY_BITS, ONE_BITS, SIGN_BIT};

verus! {

/// The bit pattern of `0.98`, the opacity below which a material blends.
pub const BLEND_THRESHOLD_BITS: u64 = 0x3FEF_5C28_F5C2_8F5C;

/// How a material's transparency is rendered.
#[derive(Clone, Copy, PartialEq, Eq, Structural, Debug)]
pub enum AlphaMode {
    Opaque,
    Blend,
}

/// A colour by its three components.
#[derive(Clone, Copy, PartialEq, Eq, Structural, Debug)]
pub struct Color {
    pub red: Scalar,
    pub green: Scalar,
    pub blue: Scalar,
}

/// What a material property name says of the texture connected to it.
#[derive(Clone, Copy, PartialEq, Eq, Structural, Debug)]
pub enum TextureSlot {
    BaseColor,
    NormalMap,
    Metallic,
    Roughness,
    Emissive,
    Occlusion,
}

/// The record a standard material is filled from. A field that is `None`
/// leaves the engine's default in place. A texture slot holds the identity of
/// the texture whose image fills it.
#[derive(Clone, Copy, PartialEq, Eq, Debug)]
pub struct MaterialRecord {
    pub base_color: Option<Color>,
    pub metallic: Option<Scalar>,
    pub perceptual_roughness: Option<Scalar>,
    pub emissive: Option<Color>,
    pub alpha_mode: AlphaMode,
    pub base_color_texture: Option<u32>,
    /// The texture whose UV placement gives the material's UV transform.
    pub uv_transform_texture: Option<u32>,
    pub normal_map_texture: Option<u32>,
    pub metallic_roughness_texture: Option<u32>,
    pub emissive_texture: Option<u32>,
    pub occlusion_texture: Option<u32>,
}

/// The threshold `0.98`.
pub open spec fn blend_threshold() -> Scalar {
    Scalar { bits: BLEND_THRESHOLD_BITS }
}

/// The value `1.0`.
pub open spec fn full_opacity() -> Scalar {
    Scalar { bits: ONE_BITS }
}

/// The colour that a property holds.
pub open spec fn color_of(p: Property) -> Color {
    Color { red: p.x, green: p.y, blue: p.z }
}

/// Base colour: the classic diffuse colour where the file defines it, else
/// the physically-based base colour, else the engine's default.
pub open spec fn base_color_of(p: MaterialProperties) -> Option<Color> {
    if p.diffuse_color.present {
        Some(color_of(p.diffuse_color))
    } else if p.base_color.present {
        Some(color_of(p.base_color))
    } else {
        None
    }
}

/// The first component of a property, where the file defines it.
pub open spec fn factor_of(p: Property) -> Option<Scalar> {
    if p.present {
        Some(p.x)
    } else {
        None
    }
}

/// The colour of a property, where the file defines it.
pub open spec fn optional_color_of(p: Property) -> Option<Color> {
    if p.present {
        Some(color_of(p))
    } else {
        None
    }
}

/// Alpha mode: blend exactly when the file defines an opacity below `0.98`.
pub open spec fn alpha_mode_of(opacity: Property) -> AlphaMode {
    if opacity.present && opacity.x.lt(blend_threshold()) {
        AlphaMode::Blend
    } else {
        AlphaMode::Opaque
    }
}

/// The slot that a material property name stands for, if any.
pub open spec fn slot_of(prop: Seq<char>) -> Option<TextureSlot> {
    if prop == "DiffuseColor"@ || prop == "BaseColor"@ {
        Some(TextureSlot::BaseColor)
    } else if prop == "NormalMap"@ {
        Some(TextureSlot::NormalMap)
    } else if prop == "Metallic"@ {
        Some(TextureSlot::Metallic)
    } else if prop == "Roughness"@ {
        Some(TextureSlot::Roughness)
    } else if prop == "EmissiveColor"@ {
        Some(TextureSlot::Emissive)
    } else if prop == "AmbientOcclusion"@ {
        Some(TextureSlot::Occlusion)
    } else {
        None
    }
}

/// Whether a reference names the slot and its texture has been resolved.
pub open spec fn feeds(r: TextureRefData, resolved: Set<u32>, slot: TextureSlot) -> bool {
    slot_of(r.material_prop) == Some(slot) && resolved.contains(r.texture_id)
}

/// The texture of the last reference that feeds the slot.
pub open spec fn last_in_slot(
    refs: Seq<TextureRefData>,
    resolved: Set<u32>,
    slot: TextureSlot,
) -> Option<u32>
    decreases refs.len(),
{
    if refs.len() == 0 {
        None
    } else if feeds(refs.last(), resolved, slot) {
        Some(refs.last().texture_id)
    } else {
        last_in_slot(refs.drop_last(), resolved, slot)
    }
}

/// The texture of the first reference that feeds the slot.
pub open spec fn first_in_slot(
    refs: Seq<TextureRefData>,
    resolved: Set<u32>,
    slot: TextureSlot,
) -> Option<u32>
    decreases refs.len(),
{
    if refs.len() == 0 {
        None
    } else if feeds(refs.first(), resolved, slot) {
        Some(refs.first().texture_id)
    } else {
        first_in_slot(refs.drop_first(), resolved, slot)
    }
}

/// The metallic-roughness slot: the last metallic texture where there is one,
/// else the first roughness texture.
pub open spec fn metallic_roughness_slot(refs: Seq<TextureRefData>, resolved: Set<u32>) -> Option<
    u32,
> {
    match last_in_slot(refs, resolved, TextureSlot::Metallic) {
        Some(id) => Some(id),
        None => first_in_slot(refs, resolved, TextureSlot::Roughness),
    }
}

/// The record of a material, given the identities of the textures that have
/// been resolved.
pub open spec fn material_record(m: MaterialData, resolved: Set<u32>) -> MaterialRecord {
    MaterialRecord {
        base_color: base_color_of(m.properties),
        metallic: factor_of(m.properties.metalness),
        perceptual_roughness: factor_of(m.properties.roughness),
        emissive: optional_color_of(m.properties.emission_color),
        alpha_mode: alpha_mode_of(m.properties.opacity),
        base_color_texture: last_in_slot(m.textures, resolved, TextureSlot::BaseColor),
        uv_transform_texture: last_in_slot(m.textures, resolved, TextureSlot::BaseColor),
        normal_map_texture: last_in_slot(m.textures, resolved, TextureSlot::NormalMap),
        metallic_roughness_texture: metallic_roughness_slot(m.textures, resolved),
        emissive_texture: last_in_slot(m.textures, resolved, TextureSlot::Emissive),
        occlusion_texture: last_in_slot(m.textures, resolved, TextureSlot::Occlusion),
    }
}

/// Appending a reference leaves the first feeding texture in place where
/// there is one, and else makes the new reference the first if it feeds.
pub proof fn lemma_first_in_slot_push(
    refs: Seq<TextureRefData>,
    r: TextureRefData,
    resolved: Set<u32>,
    slot: TextureSlot,
)
    ensures
        first_in_slot(refs.push(r), resolved, slot) == match first_in_slot(refs, resolved, slot) {
            Some(id) => Some(id),
            None => if feeds(r, resolved, slot) {
                Some(r.texture_id)
            } else {
                None
            },
        },
    decreases refs.len(),
{
    if refs.len() == 0 {
        assert(refs.push(r).drop_first() =~= refs);
    } else {
        assert(refs.push(r).first() == refs.first());
        assert(refs.push(r).drop_first() =~= refs.drop_first().push(r));
        lemma_first_in_slot_push(refs.drop_first(), r, resolved, slot);
    }
}

/// Appending a reference makes it the last feeding texture if it feeds, and
/// else changes nothing.
pub proof fn lemma_last_in_slot_push(
    refs: Seq<TextureRefData>,
    r: TextureRefData,
    resolved: Set<u32>,
    slot: TextureSlot,
)
    ensures
        last_in_slot(refs.push(r), resolved, slot) == if feeds(r, resolved, slot) {
            Some(r.texture_id)
        } else {
            last_in_slot(refs, resolved, slot)
        },
{
    assert(refs.push(r).last() == r);
    assert(refs.push(r).drop_last() =~= refs);
}

/// The texture slots while the references are read in order.
struct Slots {
    base_color: Option<u32>,
    normal_map: Option<u32>,
    metallic_roughness: Option<u32>,
    emissive: Option<u32>,
    occlusion: Option<u32>,
}

impl Slots {
    spec fn holds(self, refs: Seq<TextureRefData>, resolved: Set<u32>) -> bool {
        &&& self.base_color == last_in_slot(refs, resolved, TextureSlot::BaseColor)
        &&& self.normal_map == last_in_slot(refs, resolved, TextureSlot::NormalMap)
        &&& self.metallic_roughness == metallic_roughness_slot(refs, resolved)
        &&& self.emissive == last_in_slot(refs, resolved, TextureSlot::Emissive)
        &&& self.occlusion == last_in_slot(refs, resolved, TextureSlot::Occlusion)
    }
}

/// The property names that stand for a slot.
struct SlotNames {
    diffuse_color: String,
    base_color: String,
    normal_map: String,
    metallic: String,
    roughness: String,
    emissive_color: String,
    ambient_occlusion: String,
}

impl SlotNames {
    spec fn wf(self) -> bool {
        &&& self.diffuse_color@ == "DiffuseColor"@
        &&& self.base_color@ == "BaseColor"@
        &&& self.normal_map@ == "NormalMap"@
        &&& self.metallic@ == "Metallic"@
        &&& self.roughness@ == "Roughness"@
        &&& self.emissive_color@ == "EmissiveColor"@
        &&& self.ambient_occlusion@ == "AmbientOcclusion"@
    }

    fn new() -> (r: SlotNames)
        ensures
            r.wf(),
    {
        SlotNames {
            diffuse_color: String::from_str("DiffuseColor"),
            base_color: String::from_str("BaseColor"),
            normal_map: String::from_str("NormalMap"),
            metallic: String::from_str("Metallic"),
            roughness: String::from_str("Roughness"),
            emissive_color: String::from_str("EmissiveColor"),
            ambient_occlusion: String::from_str("AmbientOcclusion"),
        }
    }

    fn classify(&self, prop: &String) -> (r: Option<TextureSlot>)
        requires
            self.wf(),
        ensures
            r == slot_of(prop@),
    {
        if *prop == self.diffuse_color || *prop == self.base_color {
            Some(TextureSlot::BaseColor)
        } else if *prop == self.normal_map {
            Some(TextureSlot::NormalMap)
        } else if *prop == self.metallic {
            Some(TextureSlot::Metallic)
        } else if *prop == self.roughness {
            Some(TextureSlot::Roughness)
        } else if *prop == self.emissive_color {
            Some(TextureSlot::Emissive)
        } else if *prop == self.ambient_occlusion {
            Some(TextureSlot::Occlusion)
        } else {
            None
        }
    }
}

/// The slot that a material property name stands for, if any.
pub fn texture_slot(prop: &String) -> (r: Option<TextureSlot>)
    ensures
        r == slot_of(prop@),
{
    let names = SlotNames::new();
    names.classify(prop)
}

/// The alpha mode that an opacity property asks for.
pub fn alpha_mode(opacity: Property) -> (r: AlphaMode)
    ensures
        r == alpha_mode_of(opacity),
{
    let mut mode = AlphaMode::Opaque;
    if opacity.present && opacity.x.less_than(Scalar::one()) {
        mode = if opacity.x.less_than(Scalar::from_bits(BLEND_THRESHOLD_BITS)) {
            AlphaMode::Blend
        } else {
            AlphaMode::Opaque
        };
    }
    proof {
        lemma_threshold_below_one();
        if opacity.x.lt(blend_threshold()) {
            crate::scalar::lemma_lt_transitive(opacity.x, blend_threshold(), full_opacity());
        }
    }
    mode
}

/// `0.98 < 1.0`.
pub proof fn lemma_threshold_below_one()
    ensures
        blend_threshold().lt(full_opacity()),
{
    assert(BLEND_THRESHOLD_BITS < ONE_BITS < INFINITY_BITS < SIGN_BIT);
}

/// Fills a material record from a decoded material. A texture reference
/// counts only if its texture is a key of `texture_handles`; any other is
/// passed over.
pub fn create_standard_material(
    material: &DecodedMaterial,
    texture_handles: &HashMap<u32, String>,
) -> (r: Result<MaterialRecord, FbxError>)
    ensures
        r == Ok::<MaterialRecord, FbxError>(material_record(material@, texture_handles@.dom())),
{
    let properties = material.properties;
    let base_color = if properties.diffuse_color.present {
        Some(color(properties.diffuse_color))
    } else if properties.base_color.present {
        Some(color(properties.base_color))
    } else {
        None
    };
    let metallic = if properties.metalness.present {
        Some(properties.metalness.x)
    } else {
        None
    };
    let perceptual_roughness = if properties.roughness.present {
        Some(properties.roughness.x)
    } else {
        None
    };
    let emissive = if properties.emission_color.present {
        Some(color(properties.emission_color))
    } else {
        None
    };
    let mode = alpha_mode(properties.opacity);

    let names = SlotNames::new();
    let ghost refs = material@.textures;
    let ghost resolved = texture_handles@.dom();
    let mut slots = Slots {
        base_color: None,
        normal_map: None,
        metallic_roughness: None,
        emissive: None,
        occlusion: None,
    };
    let count: usize = material.textures.len();
    let mut i: usize = 0;
    assert(refs.take(0) =~= Seq::<TextureRefData>::empty());
    while i < count
        invariant
            i <= count,
            count == material.textures.len(),
            refs == material@.textures,
            refs.len() == count,
            resolved == texture_handles@.dom(),
            names.wf(),
            slots.holds(refs.take(i as int), resolved),
        decreases count - i,
    {
        let texture_ref = &material.textures[i];
        let ghost r = refs[i as int];
        assert(r == texture_ref@);
        proof {
            assert(refs.take(i as int + 1) =~= refs.take(i as int).push(r));
            lemma_last_in_slot_push(refs.take(i as int), r, resolved, TextureSlot::BaseColor);
            lemma_last_in_slot_push(refs.take(i as int), r, resolved, TextureSlot::NormalMap);
            lemma_last_in_slot_push(refs.take(i as int), r, resolved, TextureSlot::Metallic);
            lemma_last_in_slot_push(refs.take(i as int), r, resolved, TextureSlot::Emissive);
            lemma_last_in_slot_push(refs.take(i as int), r, resolved, TextureSlot::Occlusion);
            lemma_first_in_slot_push(refs.take(i as int), r, resolved, TextureSlot::Roughness);
        }
        if texture_handles.contains_key(&texture_ref.texture_id) {
            let id: u32 = texture_ref.texture_id;
            match names.classify(&texture_ref.material_prop) {
                Some(TextureSlot::BaseColor) => {
                    slots.base_color = Some(id);
                },
                Some(TextureSlot::NormalMap) => {
                    slots.normal_map = Some(id);
                },
                Some(TextureSlot::Metallic) => {
                    slots.metallic_roughness = Some(id);
                },
                Some(TextureSlot::Roughness) => {
                    if slots.metallic_roughness.is_none() {
                        slots.metallic_roughness = Some(id);
                    }
                },
                Some(TextureSlot::Emissive) => {
                    slots.emissive = Some(id);
                },
                Some(TextureSlot::Occlusion) => {
                    slots.occlusion = Some(id);
                },
                None => {},
            }
        }
        i = i + 1;
    }
    assert(refs.take(count as int) =~= refs);
    Ok(
        MaterialRecord {
            base_color,
            metallic,
            perceptual_roughness,
            emissive,
            alpha_mode: mode,
            base_color_texture: slots.base_color,
            uv_transform_texture: slots.base_color,
            normal_map_texture: slots.normal_map,
            metallic_roughness_texture: slots.metallic_roughness,
            emissive_texture: slots.emissive,
            occlusion_texture: slots.occlusion,
        },
    )
}

/// The colour that a property holds.
pub fn color(p: Property) -> (c: Color)
    ensures
        c == color_of(p),
{
    Color { red: p.x, green: p.y, blue: p.z }
}

/// The path from which a texture's image is loaded: the absolute file name
/// where the model gives one, else the texture's file name joined to the
/// directory of the model's own file.
pub open spec fn load_path_of(t: TextureData, fbx_path: Seq<char>) -> Seq<char> {
    if t.absolute_filename.len() > 0 {
        t.absolute_filename
    } else {
        path_join(directory_of(fbx_path), t.filename)
    }
}

/// The load path of each texture that has a file name, by the texture's
/// identity. Of two textures with one identity the later counts.
pub open spec fn texture_paths(textures: Seq<TextureData>, fbx_path: Seq<char>) -> Map<
    u32,
    Seq<char>,
>
    decreases textures.len(),
{
    if textures.len() == 0 {
        Map::empty()
    } else {
        let rest = texture_paths(textures.drop_last(), fbx_path);
        let t = textures.last();
        if t.filename.len() > 0 {
            rest.insert(t.element_id, load_path_of(t, fbx_path))
        } else {
            rest
        }
    }
}

/// A table of paths, each path as its characters.
pub open spec fn path_texts(table: Map<u32, String>) -> Map<u32, Seq<char>> {
    table.map_values(|s: String| s@)
}

/// The path from which a texture's image is loaded.
pub fn texture_load_path(texture: &DecodedTexture, fbx_path: &str) -> (r: String)
    ensures
        r@ == load_path_of(texture@, fbx_path@),
        texture@.absolute_filename.len() > 0 ==> r@ == texture@.absolute_filename,
        texture@.absolute_filename.len() == 0 ==> r@ == path_join(
            directory_of(fbx_path@),
            texture@.filename,
        ),
{
    if !texture.absolute_filename.as_str().is_empty() {
        texture.absolute_filename.clone()
    } else {
        let dir = directory(fbx_path);
        join(dir.as_str(), texture.filename.as_str())
    }
}

/// Resolves the load path of every texture that has a file name, keyed by
/// the texture's identity. A texture without a file name is passed over.
pub fn process_textures(scene: &DecodedScene, fbx_path: &str) -> (r: Result<
    HashMap<u32, String>,
    FbxError,
>)
    ensures
        r is Ok,
        path_texts(r->Ok_0@) == texture_paths(scene@.textures, fbx_path@),
{
    let mut texture_handles: HashMap<u32, String> = HashMap::new();
    let ghost textures = scene@.textures;
    let count: usize = scene.textures.len();
    let mut i: usize = 0;
    assert(textures.take(0) =~= Seq::<TextureData>::empty());
    assert(path_texts(texture_handles@) =~= Map::<u32, Seq<char>>::empty());
    while i < count
        invariant
            i <= count,
            count == scene.textures.len(),
            textures == scene@.textures,
            textures.len() == count,
            path_texts(texture_handles@) == texture_paths(textures.take(i as int), fbx_path@),
        decreases count - i,
    {
        let texture = &scene.textures[i];
        assert(texture@ == textures[i as int]);
        assert(textures.take(i as int + 1).drop_last() =~= textures.take(i as int));
        assert(textures.take(i as int + 1).last() == textures[i as int]);
        if !texture.filename.as_str().is_empty() {
            let texture_path = texture_load_path(texture, fbx_path);
            let ghost before = texture_handles@;
            texture_handles.insert(texture.element_id, texture_path);
            assert(path_texts(texture_handles@) =~= path_texts(before).insert(
                texture.element_id,
                texture_path@,
            ));
        }
        i = i + 1;
    }
    assert(textures.take(count as int) =~= textures);
    Ok(texture_handles)
}

/// A texture's identity is a key of the table exactly when some texture of
/// that identity has a file name, and the table then holds the load path of
/// the last such texture.
pub proof fn lemma_texture_paths(textures: Seq<TextureData>, fbx_path: Seq<char>, id: u32)
    ensures
        texture_paths(textures, fbx_path).contains_key(id) <==> exists|i: int|
            0 <= i < textures.len() && (#[trigger] textures[i]).element_id == id
                && textures[i].filename.len() > 0,
        texture_paths(textures, fbx_path).contains_key(id) ==> exists|i: int|
            0 <= i < textures.len() && (#[trigger] textures[i]).element_id == id
                && textures[i].filename.len() > 0 && texture_paths(textures, fbx_path)[id]
                == load_path_of(textures[i], fbx_path) && forall|j: int|
                i < j < textures.len() ==> !((#[trigger] textures[j]).element_id == id
                    && textures[j].filename.len() > 0),
    decreases textures.len(),
{
    if textures.len() > 0 {
        let rest = textures.drop_last();
        let last = textures.len() - 1;
        lemma_texture_paths(rest, fbx_path, id);
        if textures[last].element_id == id && textures[last].filename.len() > 0 {
        } else if texture_paths(textures, fbx_path).contains_key(id) {
            let i = choose|i: int|
                0 <= i < rest.len() && (#[trigger] rest[i]).element_id == id && rest[i].filename.len()
                    > 0 && texture_paths(rest, fbx_path)[id] == load_path_of(rest[i], fbx_path)
                    && forall|j: int|
                    i < j < rest.len() ==> !((#[trigger] rest[j]).element_id == id
                        && rest[j].filename.len() > 0);
            assert(textures[i] == rest[i]);
            assert forall|j: int| i < j < textures.len() implies !((#[trigger] textures[j]).element_id
                == id && textures[j].filename.len() > 0) by {
                if j < rest.len() {
                    assert(textures[j] == rest[j]);
                }
            }
        }
        if exists|i: int|
            0 <= i < textures.len() && (#[trigger] textures[i]).element_id == id
                && textures[i].filename.len() > 0 {
            let i = choose|i: int|
                0 <= i < textures.len() && (#[trigger] textures[i]).element_id == id
                    && textures[i].filename.len() > 0;
            if i < rest.len() {
                assert(rest[i] == textures[i]);
            }
        }
    }
}

/// View of a [`MaterialEntry`].
pub struct MaterialEntryData {
    pub index: usize,
    pub element_id: u32,
    pub label: Seq<char>,
    pub name: Seq<char>,
    pub record: MaterialRecord,
}

/// A material to register: where it stood in the decoder's list, its
/// identity, the label to register it under, its name in the file, and the
/// record to fill the engine's material from.
#[derive(Debug)]
pub struct MaterialEntry {
    pub index: usize,
    pub element_id: u32,
    pub label: String,
    pub name: String,
    pub record: MaterialRecord,
}

impl View for MaterialEntry {
    type V = MaterialEntryData;

    open spec fn view(&self) -> MaterialEntryData {
        MaterialEntryData {
            index: self.index,
            element_id: self.element_id,
            label: self.label@,
            name: self.name@,
            record: self.record,
        }
    }
}

/// The views of a list of entries.
pub open spec fn entry_views(entries: Seq<MaterialEntry>) -> Seq<MaterialEntryData> {
    entries.map_values(|e: MaterialEntry| e@)
}

/// The entry of the material at `index` of the decoder's list.
pub open spec fn material_entry_of(
    m: MaterialData,
    index: usize,
    resolved: Set<u32>,
) -> MaterialEntryData {
    MaterialEntryData {
        index,
        element_id: m.element_id,
        label: material_label_of(index as nat),
        name: m.name,
        record: material_record(m, resolved),
    }
}

/// The entries of the decoder's materials, in order, without those of the
/// reserved identity 0.
pub open spec fn material_entries(materials: Seq<MaterialData>, resolved: Set<u32>) -> Seq<
    MaterialEntryData,
>
    decreases materials.len(),
{
    if materials.len() == 0 {
        Seq::empty()
    } else {
        let rest = material_entries(materials.drop_last(), resolved);
        let m = materials.last();
        if m.element_id != 0 {
            rest.push(material_entry_of(m, (materials.len() - 1) as usize, resolved))
        } else {
            rest
        }
    }
}

/// The names of a list of entries, in order.
pub open spec fn entry_names(entries: Seq<MaterialEntryData>) -> Seq<Seq<char>> {
    entries.map_values(|e: MaterialEntryData| e.name)
}

/// The identities of a list of entries, in order.
pub open spec fn entry_identities(entries: Seq<MaterialEntryData>) -> Seq<u32> {
    entries.map_values(|e: MaterialEntryData| e.element_id)
}

/// Maps every material of the scene but those of the reserved identity 0.
/// Returns the entries in the decoder's order, the position of each named
/// entry by its name, and the load path of each texture by its identity.
pub fn process_materials(
    scene: &DecodedScene,
    _settings: &FbxLoaderSettings,
    fbx_path: &str,
) -> (r: Result<(Vec<MaterialEntry>, NameTable, HashMap<u32, String>), FbxError>)
    ensures
        r is Ok,
        path_texts(r->Ok_0.2@) == texture_paths(scene@.textures, fbx_path@),
        entry_views(r->Ok_0.0@) == material_entries(
            scene@.materials,
            texture_paths(scene@.textures, fbx_path@).dom(),
        ),
        r->Ok_0.1@ == positions_by_name(entry_names(entry_views(r->Ok_0.0@))),
        forall|i: int| 0 <= i < r->Ok_0.0@.len() ==> (#[trigger] r->Ok_0.0@[i]).element_id != 0,
{
    let mut materials: Vec<MaterialEntry> = Vec::new();
    let mut named_materials = NameTable::new();
    let texture_handles = match process_textures(scene, fbx_path) {
        Ok(table) => table,
        Err(e) => {
            return Err(e);
        },
    };
    let ghost decoded = scene@.materials;
    let ghost resolved = texture_paths(scene@.textures, fbx_path@).dom();
    assert(texture_handles@.dom() =~= resolved);
    let count: usize = scene.materials.len();
    let mut index: usize = 0;
    assert(decoded.take(0) =~= Seq::<MaterialData>::empty());
    assert(entry_views(materials@) =~= Seq::<MaterialEntryData>::empty());
    assert(entry_names(entry_views(materials@)) =~= Seq::<Seq<char>>::empty());
    while index < count
        invariant
            index <= count,
            count == scene.materials.len(),
            decoded == scene@.materials,
            decoded.len() == count,
            resolved == texture_handles@.dom(),
            entry_views(materials@) == material_entries(decoded.take(index as int), resolved),
            named_materials@ == positions_by_name(entry_names(entry_views(materials@))),
            materials@.len() <= index,
            forall|i: int| 0 <= i < materials@.len() ==> (#[trigger] materials@[i]).element_id != 0,
        decreases count - index,
    {
        let material = &scene.materials[index];
        assert(material@ == decoded[index as int]);
        assert(decoded.take(index as int + 1).drop_last() =~= decoded.take(index as int));
        assert(decoded.take(index as int + 1).last() == decoded[index as int]);
        if material.element_id != 0 {
            let record = match create_standard_material(material, &texture_handles) {
                Ok(record) => record,
                Err(e) => {
                    return Err(e);
                },
            };
            let entry = MaterialEntry {
                index,
                element_id: material.element_id,
                label: material_label(index),
                name: material.name.clone(),
                record,
            };
            assert(entry@ == material_entry_of(decoded[index as int], index, resolved));
            let ghost before = materials@;
            named_materials.record(&material.name, materials.len());
            materials.push(entry);
            assert(entry_views(materials@) =~= entry_views(before).push(entry@));
            assert(entry_names(entry_views(materials@)).drop_last() =~= entry_names(
                entry_views(before),
            ));
            assert(entry_names(entry_views(materials@)).last() == entry@.name);
        }
        index = index + 1;
    }
    assert(decoded.take(count as int) =~= decoded);
    Ok((materials, named_materials, texture_handles))
}

/// No entry has the reserved identity 0, and each entry is the entry of the
/// material at its index.
pub proof fn lemma_material_entries_sound(
    materials: Seq<MaterialData>,
    resolved: Set<u32>,
    i: int,
)
    requires
        materials.len() <= usize::MAX,
        0 <= i < material_entries(materials, resolved).len(),
    ensures
        material_entries(materials, resolved).len() <= materials.len(),
        material_entries(materials, resolved)[i].element_id != 0,
        i <= material_entries(materials, resolved)[i].index < materials.len(),
        material_entries(materials, resolved)[i] == material_entry_of(
            materials[material_entries(materials, resolved)[i].index as int],
            material_entries(materials, resolved)[i].index,
            resolved,
        ),
    decreases materials.len(),
{
    let rest = materials.drop_last();
    let before = material_entries(rest, resolved);
    lemma_material_entries_len(rest, resolved);
    if i < before.len() {
        lemma_material_entries_sound(rest, resolved, i);
        assert(material_entries(materials, resolved)[i] == before[i]);
        assert(rest[before[i].index as int] == materials[before[i].index as int]);
    }
}

/// There are at most as many entries as materials.
pub proof fn lemma_material_entries_len(materials: Seq<MaterialData>, resolved: Set<u32>)
    ensures
        material_entries(materials, resolved).len() <= materials.len(),
    decreases materials.len(),
{
    if materials.len() > 0 {
        lemma_material_entries_len(materials.drop_last(), resolved);
    }
}

/// The entries stand in the order of the decoder's list.
pub proof fn lemma_material_entries_ordered(
    materials: Seq<MaterialData>,
    resolved: Set<u32>,
    i: int,
    j: int,
)
    requires
        materials.len() <= usize::MAX,
        0 <= i < j < material_entries(materials, resolved).len(),
    ensures
        material_entries(materials, resolved)[i].index < material_entries(
            materials,
            resolved,
        )[j].index,
    decreases materials.len(),
{
    let rest = materials.drop_last();
    let before = material_entries(rest, resolved);
    assert(material_entries(materials, resolved)[i] == before[i]);
    if j < before.len() {
        lemma_material_entries_ordered(rest, resolved, i, j);
        assert(material_entries(materials, resolved)[j] == before[j]);
    } else {
        lemma_material_entries_sound(rest, resolved, i);
    }
}

/// Every material whose identity is not the reserved 0 has its entry.
pub proof fn lemma_material_entries_complete(
    materials: Seq<MaterialData>,
    resolved: Set<u32>,
    k: int,
) -> (i: int)
    requires
        materials.len() <= usize::MAX,
        0 <= k < materials.len(),
        materials[k].element_id != 0,
    ensures
        0 <= i < material_entries(materials, resolved).len(),
        material_entries(materials, resolved)[i].index == k,
    decreases materials.len(),
{
    let rest = materials.drop_last();
    let before = material_entries(rest, resolved);
    if k < rest.len() {
        assert(rest[k] == materials[k]);
        let i = lemma_material_entries_complete(rest, resolved, k);
        assert(material_entries(materials, resolved)[i] == before[i]);
        i
    } else {
        before.len() as int
    }
}

/// Each property name that the mapping knows stands for its own slot.
pub proof fn lemma_slot_names()
    ensures
        slot_of("DiffuseColor"@) == Some(TextureSlot::BaseColor),
        slot_of("BaseColor"@) == Some(TextureSlot::BaseColor),
        slot_of("NormalMap"@) == Some(TextureSlot::NormalMap),
        slot_of("Metallic"@) == Some(TextureSlot::Metallic),
        slot_of("Roughness"@) == Some(TextureSlot::Roughness),
        slot_of("EmissiveColor"@) == Some(TextureSlot::Emissive),
        slot_of("AmbientOcclusion"@) == Some(TextureSlot::Occlusion),
{
    reveal_strlit("DiffuseColor");
    reveal_strlit("BaseColor");
    reveal_strlit("NormalMap");
    reveal_strlit("Metallic");
    reveal_strlit("Roughness");
    reveal_strlit("EmissiveColor");
    reveal_strlit("AmbientOcclusion");
    assert("DiffuseColor"@.len() == 12);
    assert("BaseColor"@.len() == 9);
    assert("NormalMap"@.len() == 9);
    assert("Metallic"@.len() == 8);
    assert("Roughness"@.len() == 9);
    assert("EmissiveColor"@.len() == 13);
    assert("AmbientOcclusion"@.len() == 16);
    assert("BaseColor"@[0] == 'B');
    assert("NormalMap"@[0] == 'N');
    assert("Roughness"@[0] == 'R');
}

/// A material whose opacity is exactly `1.0` is opaque.
pub proof fn lemma_full_opacity_is_opaque(m: MaterialData, resolved: Set<u32>)
    requires
        m.properties.opacity.x == full_opacity(),
    ensures
        material_record(m, resolved).alpha_mode == AlphaMode::Opaque,
{
    lemma_threshold_below_one();
}

/// A material whose opacity is at least `0.98` and below `1.0` is opaque.
pub proof fn lemma_near_full_opacity_is_opaque(m: MaterialData, resolved: Set<u32>)
    requires
        blend_threshold().le(m.properties.opacity.x),
        m.properties.opacity.x.lt(full_opacity()),
    ensures
        material_record(m, resolved).alpha_mode == AlphaMode::Opaque,
{
}

/// A material whose opacity is `0.98` itself is opaque.
pub proof fn lemma_threshold_opacity_is_opaque(m: MaterialData, resolved: Set<u32>)
    requires
        m.properties.opacity.x == blend_threshold(),
    ensures
        material_record(m, resolved).alpha_mode == AlphaMode::Opaque,
{
}

/// A material whose opacity is below `0.98` blends.
pub proof fn lemma_low_opacity_blends(m: MaterialData, resolved: Set<u32>)
    requires
        m.properties.opacity.present,
        m.properties.opacity.x.lt(blend_threshold()),
    ensures
        material_record(m, resolved).alpha_mode == AlphaMode::Blend,
{
}

/// Where some reference feeds a slot, the slot's last texture is that of a
/// reference that feeds it, and no later reference does.
pub proof fn lemma_last_in_slot_some(
    refs: Seq<TextureRefData>,
    resolved: Set<u32>,
    slot: TextureSlot,
    i: int,
) -> (k: int)
    requires
        0 <= i < refs.len(),
        feeds(refs[i], resolved, slot),
    ensures
        i <= k < refs.len(),
        feeds(refs[k], resolved, slot),
        last_in_slot(refs, resolved, slot) == Some(refs[k].texture_id),
        forall|j: int| k < j < refs.len() ==> !feeds(#[trigger] refs[j], resolved, slot),
    decreases refs.len(),
{
    if feeds(refs.last(), resolved, slot) {
        refs.len() - 1
    } else {
        let rest = refs.drop_last();
        let k = lemma_last_in_slot_some(rest, resolved, slot, i);
        assert forall|j: int| k < j < refs.len() implies !feeds(
            #[trigger] refs[j],
            resolved,
            slot,
        ) by {
            if j < rest.len() {
                assert(refs[j] == rest[j]);
            }
        }
        k
    }
}

/// Where a metallic and a roughness reference both feed the
/// metallic-roughness slot, the slot holds the texture of the last metallic
/// reference, whatever the order of the two.
pub proof fn lemma_metallic_over_roughness(
    refs: Seq<TextureRefData>,
    resolved: Set<u32>,
    metallic: int,
    roughness: int,
) -> (k: int)
    requires
        0 <= metallic < refs.len(),
        0 <= roughness < refs.len(),
        feeds(refs[metallic], resolved, TextureSlot::Metallic),
        feeds(refs[roughness], resolved, TextureSlot::Roughness),
    ensures
        metallic <= k < refs.len(),
        feeds(refs[k], resolved, TextureSlot::Metallic),
        metallic_roughness_slot(refs, resolved) == Some(refs[k].texture_id),
        forall|j: int|
            k < j < refs.len() ==> !feeds(#[trigger] refs[j], resolved, TextureSlot::Metallic),
{
    lemma_last_in_slot_some(refs, resolved, TextureSlot::Metallic, metallic)
}

/// A reference whose texture has not been resolved changes no slot.
pub proof fn lemma_unresolved_reference_is_skipped(
    refs: Seq<TextureRefData>,
    r: TextureRefData,
    resolved: Set<u32>,
    slot: TextureSlot,
)
    requires
        !resolved.contains(r.texture_id),
    ensures
        last_in_slot(refs.push(r), resolved, slot) == last_in_slot(refs, resolved, slot),
        first_in_slot(refs.push(r), resolved, slot) == first_in_slot(refs, resolved, slot),
        metallic_roughness_slot(refs.push(r), resolved) == metallic_roughness_slot(refs, resolved),
{
    lemma_last_in_slot_push(refs, r, resolved, slot);
    lemma_first_in_slot_push(refs, r, resolved, slot);
    lemma_last_in_slot_push(refs, r, resolved, TextureSlot::Metallic);
    lemma_first_in_slot_push(refs, r, resolved, TextureSlot::Roughness);
}

} // verus!
