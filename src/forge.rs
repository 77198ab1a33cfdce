//! Forge objects: the manifest's categories become a tree whose nodes carry
//! the objects filed under them, each object with its representations; a
//! representation's model is found through a fixed table from the group
//! code of the definition it references.
use vstd::prelude::*;
use std::collections::HashMap;
use crate::category::{attached_entries, children_in, entries_in, CategoryRecord};
use crate::keyed::KeyedList;
use crate::strings::{text_spec, StringTable};

verus! {

broadcast use vstd::std_specs::hash::group_hash_axioms;

/// The parent ID that marks a top-level category.
pub const ROOT_CATEGORY: u32 = 3112307346;

/// Group codes: the four ASCII letters of the group, little-endian.
pub const GROUP_CRATE: u32 = 0x636f_6c62;
pub const GROUP_WEAPON: u32 = 0x7061_6577;
pub const GROUP_VEHICLE: u32 = 0x6968_6576;
pub const GROUP_EQUIPMENT: u32 = 0x7069_7165;
pub const GROUP_SCENERY: u32 = 0x6e65_6373;

/// A category of the manifest.
#[derive(PartialEq, Eq, Structural, Debug, Clone, Copy)]
pub struct ForgeObjectCategoryEntry {
    pub title: i32,
    pub description: i32,
    pub category_id: i32,
    pub parent_category_id: i32,
}

/// An object of the manifest; its first metadata entry names its category.
pub struct ForgeObjectManifestEntry {
    pub element_id: u64,
    pub forge_object: i32,
    pub name: i32,
    pub description: i32,
    pub object_metadata: Vec<ForgeObjectCategoryEntry>,
}

/// The forge object manifest: the categories and the objects filed in them.
pub struct ForgeObjectManifest {
    pub categories: Vec<ForgeObjectCategoryEntry>,
    pub entries: Vec<ForgeObjectManifestEntry>,
}

/// A representation of a forge object: the definition it shows, by group
/// code and global ID, and the variant of that definition's model.
#[derive(PartialEq, Eq, Structural, Debug, Clone, Copy)]
pub struct ObjectRepresentation {
    pub representation_name: i32,
    pub group: u32,
    pub definition: i32,
    pub crate_variant: i32,
}

/// A variant of a forge object that is shown by runtime geometry.
#[derive(PartialEq, Eq, Structural, Debug, Clone, Copy)]
pub struct ForgeAssetVariant {
    pub variant_name: i32,
    pub underlying_geo: i32,
}

/// The definition of a forge object.
pub struct ForgeObjectData {
    pub default_representation: i32,
    pub object_representations: Vec<ObjectRepresentation>,
    pub forge_asset_variants: Vec<ForgeAssetVariant>,
}

/// A named variant of a model and the style it uses.
#[derive(PartialEq, Eq, Structural, Debug, Clone, Copy)]
pub struct ModelVariant {
    pub name: i32,
    pub style: i32,
}

/// A model: its render model and its variants.
pub struct ModelDefinition {
    pub render_model: i32,
    pub variants: Vec<ModelVariant>,
}

/// The object groups a representation can reference.
#[derive(PartialEq, Eq, Structural, Debug, Clone, Copy)]
pub enum ObjectGroup {
    Crate,
    Weapon,
    Vehicle,
    Equipment,
    Scenery,
    Unrecognized,
}

/// For each object group, the model of each definition, by global ID.
pub struct ObjectModels {
    pub crates: HashMap<i32, i32>,
    pub weapons: HashMap<i32, i32>,
    pub vehicles: HashMap<i32, i32>,
    pub equipment: HashMap<i32, i32>,
    pub scenery: HashMap<i32, i32>,
}

/// Everything the forge documents are built from, but the manifest.
pub struct ForgeCatalog {
    pub objects: KeyedList<ForgeObjectData>,
    pub definitions: ObjectModels,
    pub models: HashMap<i32, ModelDefinition>,
    pub strings: StringTable,
}

/// The numbers of a representation in a forge document; its name is the
/// text of `name_int`. A representation whose definition or model is not
/// known keeps the definition's global ID in `unresolved_definition`, with
/// model and style `0`.
#[derive(PartialEq, Eq, Structural, Debug, Clone, Copy)]
pub struct RepresentationKey {
    pub name_int: i32,
    pub model: i32,
    pub variant: i32,
    pub style: i32,
    pub is_rtgo: bool,
    pub unresolved_definition: Option<i32>,
}

pub struct ForgeObjectRepresentation {
    pub name: String,
    pub name_int: i32,
    pub model: i32,
    pub variant: i32,
    pub style: i32,
    pub is_rtgo: bool,
    pub unresolved_definition: Option<i32>,
}

pub struct ForgeObject {
    pub id: i32,
    pub name: String,
    pub default_variant: i32,
    pub representations: Vec<ForgeObjectRepresentation>,
}

/// An object filed under a category: its document, or, where the object it
/// references is not defined, that object's global ID.
pub enum CategoryObject {
    Resolved(ForgeObject),
    Unresolved(i32),
}

pub struct ForgeObjectCategory {
    pub name: String,
    pub sub_categories: Option<Vec<ForgeObjectCategory>>,
    pub objects: Option<Vec<CategoryObject>>,
}

/// The forge document: the category tree and every object.
pub struct ForgeObjectDefinition {
    pub root_categories: Vec<ForgeObjectCategory>,
    pub objects: Vec<ForgeObject>,
}

pub open spec fn group_spec(code: u32) -> ObjectGroup {
    if code == GROUP_CRATE {
        ObjectGroup::Crate
    } else if code == GROUP_WEAPON {
        ObjectGroup::Weapon
    } else if code == GROUP_VEHICLE {
        ObjectGroup::Vehicle
    } else if code == GROUP_EQUIPMENT {
        ObjectGroup::Equipment
    } else if code == GROUP_SCENERY {
        ObjectGroup::Scenery
    } else {
        ObjectGroup::Unrecognized
    }
}

/// The object group a group code names.
pub fn object_group(code: u32) -> (r: ObjectGroup)
    ensures
        r == group_spec(code),
{
    if code == GROUP_CRATE {
        ObjectGroup::Crate
    } else if code == GROUP_WEAPON {
        ObjectGroup::Weapon
    } else if code == GROUP_VEHICLE {
        ObjectGroup::Vehicle
    } else if code == GROUP_EQUIPMENT {
        ObjectGroup::Equipment
    } else if code == GROUP_SCENERY {
        ObjectGroup::Scenery
    } else {
        ObjectGroup::Unrecognized
    }
}

/// The model of the definition `id` of the group with code `group`.
pub open spec fn model_spec(defs: ObjectModels, group: u32, id: i32) -> Option<i32> {
    let m = match group_spec(group) {
        ObjectGroup::Crate => defs.crates@,
        ObjectGroup::Weapon => defs.weapons@,
        ObjectGroup::Vehicle => defs.vehicles@,
        ObjectGroup::Equipment => defs.equipment@,
        ObjectGroup::Scenery => defs.scenery@,
        ObjectGroup::Unrecognized => Map::empty(),
    };
    if m.contains_key(id) {
        Some(m[id])
    } else {
        None
    }
}

/// The style of the first variant from `k` on named `v`; `0` where none is.
pub open spec fn style_in(vs: Seq<ModelVariant>, v: i32, k: int) -> i32
    decreases vs.len() - k,
{
    if k < 0 || k >= vs.len() {
        0
    } else if vs[k].name == v {
        vs[k].style
    } else {
        style_in(vs, v, k + 1)
    }
}

/// The first `n` representations: with their model where it is known, else
/// with their unresolved definition ID.
pub open spec fn def_keys(
    reps: Seq<ObjectRepresentation>,
    defs: ObjectModels,
    models: Map<i32, ModelDefinition>,
    n: int,
) -> Seq<RepresentationKey>
    decreases n,
{
    if n <= 0 || n > reps.len() {
        Seq::empty()
    } else {
        let before = def_keys(reps, defs, models, n - 1);
        let r = reps[n - 1];
        match model_spec(defs, r.group, r.definition) {
            Some(mid) => if models.contains_key(mid) {
                before.push(
                    RepresentationKey {
                        name_int: r.representation_name,
                        model: models[mid].render_model,
                        variant: r.crate_variant,
                        style: style_in(models[mid].variants@, r.crate_variant, 0),
                        is_rtgo: false,
                        unresolved_definition: None,
                    },
                )
            } else {
                before.push(unresolved_key(r))
            },
            None => before.push(unresolved_key(r)),
        }
    }
}

/// A representation whose definition or model is not known.
pub open spec fn unresolved_key(r: ObjectRepresentation) -> RepresentationKey {
    RepresentationKey {
        name_int: r.representation_name,
        model: 0,
        variant: r.crate_variant,
        style: 0,
        is_rtgo: false,
        unresolved_definition: Some(r.definition),
    }
}

/// The first `n` runtime-geometry variants as representations.
pub open spec fn asset_keys(vs: Seq<ForgeAssetVariant>, n: int) -> Seq<RepresentationKey>
    decreases n,
{
    if n <= 0 || n > vs.len() {
        Seq::empty()
    } else {
        asset_keys(vs, n - 1).push(
            RepresentationKey {
                name_int: vs[n - 1].variant_name,
                model: vs[n - 1].underlying_geo,
                variant: 0,
                style: 0,
                is_rtgo: true,
                unresolved_definition: None,
            },
        )
    }
}

/// The representations of a forge object: those of its definitions whose
/// model is known, then its runtime-geometry variants.
pub open spec fn representation_keys(data: ForgeObjectData, cat: ForgeCatalog) -> Seq<
    RepresentationKey,
> {
    def_keys(
        data.object_representations@,
        cat.definitions,
        cat.models@,
        data.object_representations@.len() as int,
    ) + asset_keys(data.forge_asset_variants@, data.forge_asset_variants@.len() as int)
}

pub open spec fn rep_matches(
    r: ForgeObjectRepresentation,
    k: RepresentationKey,
    strings: Map<i32, String>,
) -> bool {
    &&& r.name@ == text_spec(strings, k.name_int)
    &&& r.name_int == k.name_int
    &&& r.model == k.model
    &&& r.variant == k.variant
    &&& r.style == k.style
    &&& r.is_rtgo == k.is_rtgo
    &&& r.unresolved_definition == k.unresolved_definition
}

/// `o` is the document of the forge object `data`, under ID `id`.
pub open spec fn object_matches(o: ForgeObject, id: i32, data: ForgeObjectData, cat: ForgeCatalog) -> bool {
    let keys = representation_keys(data, cat);
    &&& o.id == id
    &&& o.name@ == text_spec(cat.strings@, id)
    &&& o.default_variant == data.default_representation
    &&& o.representations@.len() == keys.len()
    &&& forall|k: int|
        0 <= k < keys.len() ==> rep_matches(
            #[trigger] o.representations@[k],
            keys[k],
            cat.strings@,
        )
}

/// The position of the first object from `k` on with ID `id`.
pub open spec fn find_data(objects: Seq<(i32, ForgeObjectData)>, id: i32, k: int) -> Option<int>
    decreases objects.len() - k,
{
    if k < 0 || k >= objects.len() {
        None
    } else if objects[k].0 == id {
        Some(k)
    } else {
        find_data(objects, id, k + 1)
    }
}

/// The first `n` manifest entries at positions `pos`: each entry's name ID,
/// the global ID of the object it references, and the position of that
/// object's definition where it is defined.
pub open spec fn found_objects(
    entries: Seq<ForgeObjectManifestEntry>,
    pos: Seq<usize>,
    objects: Seq<(i32, ForgeObjectData)>,
    n: int,
) -> Seq<(i32, i32, Option<int>)>
    decreases n,
{
    if n <= 0 || n > pos.len() {
        Seq::empty()
    } else {
        let e = entries[pos[n - 1] as int];
        found_objects(entries, pos, objects, n - 1).push(
            (e.name, e.forge_object, find_data(objects, e.forge_object, 0)),
        )
    }
}

/// `out` documents the objects `found`: each defined one under its entry's
/// name ID, each undefined one as its bare global ID.
pub open spec fn objects_match(
    out: Seq<CategoryObject>,
    found: Seq<(i32, i32, Option<int>)>,
    cat: ForgeCatalog,
) -> bool {
    &&& out.len() == found.len()
    &&& forall|k: int|
        0 <= k < found.len() ==> match found[k].2 {
            Some(d) => (#[trigger] out[k]) matches CategoryObject::Resolved(o) && object_matches(
                o,
                found[k].0,
                cat.objects@[d].1,
                cat,
            ),
            None => out[k] matches CategoryObject::Unresolved(id) && id == found[k].1,
        }
}

/// The two's-complement reading of a 32-bit signed value as unsigned.
pub open spec fn as_unsigned(x: i32) -> u32 {
    if x < 0 {
        (x + 0x1_0000_0000) as u32
    } else {
        x as u32
    }
}

/// The manifest's categories as tree-builder records.
pub open spec fn category_records(m: ForgeObjectManifest) -> Seq<CategoryRecord> {
    Seq::new(
        m.categories@.len(),
        |i: int|
            CategoryRecord {
                id: as_unsigned(m.categories@[i].category_id),
                parent: as_unsigned(m.categories@[i].parent_category_id),
                title: m.categories@[i].title,
            },
    )
}

/// The category key of a manifest entry: that of its first metadata entry.
pub open spec fn entry_key(e: ForgeObjectManifestEntry) -> Option<u32> {
    if e.object_metadata@.len() == 0 {
        None
    } else {
        Some(as_unsigned(e.object_metadata@[0].category_id))
    }
}

pub open spec fn entry_keys(m: ForgeObjectManifest) -> Seq<Option<u32>> {
    Seq::new(m.entries@.len(), |i: int| entry_key(m.entries@[i]))
}


/// `out` is the document of category `idx`, built to depth `depth`.
pub open spec fn category_matches(
    m: ForgeObjectManifest,
    cat: ForgeCatalog,
    idx: int,
    depth: nat,
    out: ForgeObjectCategory,
) -> bool
    decreases depth,
{
    let cats = category_records(m);
    let keys = entry_keys(m);
    let c = cats[idx];
    let kids = children_in(cats, c.id, cats.len() as int);
    let pos = entries_in(keys, c.id, keys.len() as int);
    &&& out.name@ == text_spec(cat.strings@, c.title)
    &&& if pos.len() == 0 {
        out.objects is None
    } else {
        out.objects matches Some(v) && objects_match(
            v@,
            found_objects(m.entries@, pos, cat.objects@, pos.len() as int),
            cat,
        )
    }
    &&& if depth == 0 || kids.len() == 0 {
        out.sub_categories is None
    } else {
        &&& out.sub_categories matches Some(v)
        &&& v@.len() == kids.len()
        &&& forall|k: int|
            0 <= k < kids.len() ==> category_matches(
                m,
                cat,
                kids[k],
                (depth - 1) as nat,
                #[trigger] v@[k],
            )
    }
}

/// Top-level categories left out of the tree.
pub open spec fn blacklisted(id: u32) -> bool {
    id == 2645216826 || id == 4210236789 || id == 114233605
}

/// Among the first `n` categories, the top-level ones not left out.
pub open spec fn forge_roots(cats: Seq<CategoryRecord>, n: int) -> Seq<int>
    decreases n,
{
    if n <= 0 || n > cats.len() {
        Seq::empty()
    } else {
        let before = forge_roots(cats, n - 1);
        if cats[n - 1].parent == ROOT_CATEGORY && !blacklisted(cats[n - 1].id) {
            before.push(n - 1)
        } else {
            before
        }
    }
}

/// Whether a top-level category is left out of the tree.
pub fn is_blacklisted(id: u32) -> (r: bool)
    ensures
        r == blacklisted(id),
{
    id == 2645216826 || id == 4210236789 || id == 114233605
}

fn unsigned_of(x: i32) -> (r: u32)
    ensures
        r == as_unsigned(x),
{
    if x < 0 {
        (x as i64 + 0x1_0000_0000) as u32
    } else {
        x as u32
    }
}

impl ObjectModels {
    /// The model of definition `id` of the group with code `group`.
    pub fn model_for(&self, group: u32, id: i32) -> (r: Option<i32>)
        ensures
            r == model_spec(*self, group, id),
    {
        let found = match object_group(group) {
            ObjectGroup::Crate => self.crates.get(&id),
            ObjectGroup::Weapon => self.weapons.get(&id),
            ObjectGroup::Vehicle => self.vehicles.get(&id),
            ObjectGroup::Equipment => self.equipment.get(&id),
            ObjectGroup::Scenery => self.scenery.get(&id),
            ObjectGroup::Unrecognized => None,
        };
        match found {
            Some(m) => Some(*m),
            None => None,
        }
    }
}

/// The style of the first variant named `v`; `0` where none is.
fn style_for(vs: &Vec<ModelVariant>, v: i32) -> (r: i32)
    ensures
        r == style_in(vs@, v, 0),
{
    let mut k: usize = 0;
    while k < vs.len()
        invariant
            k <= vs@.len(),
            style_in(vs@, v, 0) == style_in(vs@, v, k as int),
        decreases vs@.len() - k,
    {
        if vs[k].name == v {
            return vs[k].style;
        }
        k = k + 1;
    }
    0
}

/// The representations of a forge object: each representation whose
/// definition's model is known, then each runtime-geometry variant.
fn object_representations(data: &ForgeObjectData, cat: &ForgeCatalog) -> (r: Vec<
    ForgeObjectRepresentation,
>)
    ensures
        r@.len() == representation_keys(*data, *cat).len(),
        forall|k: int|
            0 <= k < r@.len() ==> rep_matches(
                #[trigger] r@[k],
                representation_keys(*data, *cat)[k],
                cat.strings@,
            ),
{
    let reps = &data.object_representations;
    let mut out: Vec<ForgeObjectRepresentation> = Vec::new();
    let mut k: usize = 0;
    while k < reps.len()
        invariant
            k <= reps@.len(),
            *reps == data.object_representations,
            out@.len() == def_keys(reps@, cat.definitions, cat.models@, k as int).len(),
            forall|m: int|
                0 <= m < out@.len() ==> rep_matches(
                    #[trigger] out@[m],
                    def_keys(reps@, cat.definitions, cat.models@, k as int)[m],
                    cat.strings@,
                ),
        decreases reps@.len() - k,
    {
        let r = reps[k];
        let model = match cat.definitions.model_for(r.group, r.definition) {
            Some(mid) => cat.models.get(&mid),
            None => None,
        };
        let rep = match model {
            Some(model) => ForgeObjectRepresentation {
                name: cat.strings.text_for(r.representation_name),
                name_int: r.representation_name,
                model: model.render_model,
                variant: r.crate_variant,
                style: style_for(&model.variants, r.crate_variant),
                is_rtgo: false,
                unresolved_definition: None,
            },
            None => ForgeObjectRepresentation {
                name: cat.strings.text_for(r.representation_name),
                name_int: r.representation_name,
                model: 0,
                variant: r.crate_variant,
                style: 0,
                is_rtgo: false,
                unresolved_definition: Some(r.definition),
            },
        };
        out.push(rep);
        k = k + 1;
    }
    let ghost defs = def_keys(reps@, cat.definitions, cat.models@, reps@.len() as int);
    let vs = &data.forge_asset_variants;
    let mut j: usize = 0;
    while j < vs.len()
        invariant
            j <= vs@.len(),
            *vs == data.forge_asset_variants,
            defs == def_keys(
                data.object_representations@,
                cat.definitions,
                cat.models@,
                data.object_representations@.len() as int,
            ),
            out@.len() == defs.len() + asset_keys(vs@, j as int).len(),
            forall|m: int|
                0 <= m < out@.len() ==> rep_matches(
                    #[trigger] out@[m],
                    (defs + asset_keys(vs@, j as int))[m],
                    cat.strings@,
                ),
        decreases vs@.len() - j,
    {
        let v = vs[j];
        out.push(
            ForgeObjectRepresentation {
                name: cat.strings.text_for(v.variant_name),
                name_int: v.variant_name,
                model: v.underlying_geo,
                variant: 0,
                style: 0,
                is_rtgo: true,
                unresolved_definition: None,
            },
        );
        j = j + 1;
        assert(defs + asset_keys(vs@, j as int) =~= (defs + asset_keys(vs@, j - 1)).push(
            asset_keys(vs@, j as int).last(),
        ));
    }
    out
}

/// The document of the forge object `data` under ID `id`.
fn forge_object(id: i32, data: &ForgeObjectData, cat: &ForgeCatalog) -> (r: ForgeObject)
    ensures
        object_matches(r, id, *data, *cat),
{
    ForgeObject {
        id,
        name: cat.strings.text_for(id),
        default_variant: data.default_representation,
        representations: object_representations(data, cat),
    }
}

/// The position of the first object with ID `id`.
fn find_object_data(cat: &ForgeCatalog, id: i32) -> (r: Option<usize>)
    ensures
        match r {
            Some(k) => find_data(cat.objects@, id, 0) == Some(k as int) && k < cat.objects@.len(),
            None => find_data(cat.objects@, id, 0) is None,
        },
{
    let mut k: usize = 0;
    while k < cat.objects.len()
        invariant
            k <= cat.objects@.len(),
            find_data(cat.objects@, id, 0) == find_data(cat.objects@, id, k as int),
        decreases cat.objects@.len() - k,
    {
        if cat.objects.entry(k).0 == id {
            return Some(k);
        }
        k = k + 1;
    }
    None
}

/// The objects of the manifest entries at positions `pos`, in order: the
/// document of each defined object under its entry's name ID, and the bare
/// global ID of each object that is not defined; `None` where `pos` is empty.
pub fn get_object_info(
    cat: &ForgeCatalog,
    entries: &Vec<ForgeObjectManifestEntry>,
    pos: &Vec<usize>,
) -> (r: Option<Vec<CategoryObject>>)
    requires
        forall|k: int| 0 <= k < pos@.len() ==> #[trigger] pos@[k] < entries@.len(),
    ensures
        match r {
            None => pos@.len() == 0,
            Some(v) => pos@.len() > 0 && objects_match(
                v@,
                found_objects(entries@, pos@, cat.objects@, pos@.len() as int),
                *cat,
            ),
        },
{
    if pos.len() == 0 {
        return None;
    }
    let mut out: Vec<CategoryObject> = Vec::new();
    let mut k: usize = 0;
    while k < pos.len()
        invariant
            k <= pos@.len(),
            forall|m: int| 0 <= m < pos@.len() ==> #[trigger] pos@[m] < entries@.len(),
            objects_match(out@, found_objects(entries@, pos@, cat.objects@, k as int), *cat),
        decreases pos@.len() - k,
    {
        let e = &entries[pos[k]];
        match find_object_data(cat, e.forge_object) {
            Some(d) => {
                let o = forge_object(e.name, &cat.objects.entry(d).1, cat);
                out.push(CategoryObject::Resolved(o));
            },
            None => {
                out.push(CategoryObject::Unresolved(e.forge_object));
            },
        }
        k = k + 1;
    }
    Some(out)
}

/// The manifest's categories as tree-builder records.
pub fn category_records_of(m: &ForgeObjectManifest) -> (r: Vec<CategoryRecord>)
    ensures
        r@ == category_records(*m),
{
    let mut out: Vec<CategoryRecord> = Vec::new();
    let mut k: usize = 0;
    while k < m.categories.len()
        invariant
            k <= m.categories@.len(),
            out@ == category_records(*m).subrange(0, k as int),
        decreases m.categories@.len() - k,
    {
        let c = m.categories[k];
        out.push(
            CategoryRecord {
                id: unsigned_of(c.category_id),
                parent: unsigned_of(c.parent_category_id),
                title: c.title,
            },
        );
        k = k + 1;
        assert(out@ =~= category_records(*m).subrange(0, k as int));
    }
    assert(out@ =~= category_records(*m));
    out
}

/// The category keys of the manifest's entries.
pub fn entry_keys_of(m: &ForgeObjectManifest) -> (r: Vec<Option<u32>>)
    ensures
        r@ == entry_keys(*m),
{
    let mut out: Vec<Option<u32>> = Vec::new();
    let mut k: usize = 0;
    while k < m.entries.len()
        invariant
            k <= m.entries@.len(),
            out@ == entry_keys(*m).subrange(0, k as int),
        decreases m.entries@.len() - k,
    {
        let e = &m.entries[k];
        let key = if e.object_metadata.len() == 0 {
            None
        } else {
            Some(unsigned_of(e.object_metadata[0].category_id))
        };
        out.push(key);
        k = k + 1;
        assert(out@ =~= entry_keys(*m).subrange(0, k as int));
    }
    assert(out@ =~= entry_keys(*m));
    out
}

/// The document of category `idx` of the manifest, built to depth `depth`:
/// its name, its sub-categories (in manifest order) and the objects filed
/// under it. Either list is absent where it would be empty.
pub fn process_category_recursively(
    m: &ForgeObjectManifest,
    cat: &ForgeCatalog,
    cats: &Vec<CategoryRecord>,
    keys: &Vec<Option<u32>>,
    idx: usize,
    depth: usize,
) -> (r: ForgeObjectCategory)
    requires
        cats@ == category_records(*m),
        keys@ == entry_keys(*m),
        idx < cats@.len(),
    ensures
        category_matches(*m, *cat, idx as int, depth as nat, r),
    decreases depth,
{
    let c = cats[idx];
    let mut subs: Vec<ForgeObjectCategory> = Vec::new();
    if depth > 0 {
        let mut k: usize = 0;
        while k < cats.len()
            invariant
                cats@ == category_records(*m),
                keys@ == entry_keys(*m),
                c == cats@[idx as int],
                depth > 0,
                k <= cats@.len(),
                subs@.len() == children_in(cats@, c.id, k as int).len(),
                forall|j: int|
                    0 <= j < subs@.len() ==> category_matches(
                        *m,
                        *cat,
                        children_in(cats@, c.id, k as int)[j],
                        (depth - 1) as nat,
                        #[trigger] subs@[j],
                    ),
            decreases cats@.len() - k,
        {
            if cats[k].parent == c.id {
                let sub = process_category_recursively(m, cat, cats, keys, k, depth - 1);
                subs.push(sub);
            }
            k = k + 1;
        }
    }
    let pos = attached_entries(keys, c.id);
    let objects = get_object_info(cat, &m.entries, &pos);
    let name = cat.strings.text_for(c.title);
    let sub_categories = if subs.len() == 0 {
        None
    } else {
        Some(subs)
    };
    ForgeObjectCategory { name, sub_categories, objects }
}

/// The forge document: the trees of the top-level categories that are not
/// left out, each built to the depth of the number of categories, and the
/// document of every defined object under its own ID.
pub fn process_forge_objects(m: &ForgeObjectManifest, cat: &ForgeCatalog) -> (r:
    ForgeObjectDefinition)
    ensures
        ({
            let cats = category_records(*m);
            let roots = forge_roots(cats, cats.len() as int);
            &&& r.root_categories@.len() == roots.len()
            &&& forall|k: int|
                0 <= k < roots.len() ==> category_matches(
                    *m,
                    *cat,
                    roots[k],
                    cats.len(),
                    #[trigger] r.root_categories@[k],
                )
        }),
        r.objects@.len() == cat.objects@.len(),
        forall|k: int|
            0 <= k < cat.objects@.len() ==> object_matches(
                #[trigger] r.objects@[k],
                cat.objects@[k].0,
                cat.objects@[k].1,
                *cat,
            ),
{
    let cats = category_records_of(m);
    let keys = entry_keys_of(m);
    let mut roots: Vec<ForgeObjectCategory> = Vec::new();
    let mut k: usize = 0;
    while k < cats.len()
        invariant
            cats@ == category_records(*m),
            keys@ == entry_keys(*m),
            k <= cats@.len(),
            roots@.len() == forge_roots(cats@, k as int).len(),
            forall|j: int|
                0 <= j < roots@.len() ==> category_matches(
                    *m,
                    *cat,
                    forge_roots(cats@, k as int)[j],
                    cats@.len() as nat,
                    #[trigger] roots@[j],
                ),
        decreases cats@.len() - k,
    {
        if cats[k].parent == ROOT_CATEGORY && !is_blacklisted(cats[k].id) {
            let node = process_category_recursively(m, cat, &cats, &keys, k, cats.len());
            roots.push(node);
        }
        k = k + 1;
    }
    let mut objects: Vec<ForgeObject> = Vec::new();
    let mut j: usize = 0;
    while j < cat.objects.len()
        invariant
            j <= cat.objects@.len(),
            objects@.len() == j,
            forall|i: int|
                0 <= i < j ==> object_matches(
                    #[trigger] objects@[i],
                    cat.objects@[i].0,
                    cat.objects@[i].1,
                    *cat,
                ),
        decreases cat.objects@.len() - j,
    {
        let o = forge_object(cat.objects.entry(j).0, &cat.objects.entry(j).1, cat);
        objects.push(o);
        j = j + 1;
    }
    ForgeObjectDefinition { root_categories: roots, objects }
}

} // verus!
