//! The layout of material tags as a schema table, and the reading of a
//! decoded material record into a `MaterialTag`.
use vstd::prelude::*;
use vstd::string::StringExecFns;
use crate::decode::{DecodedRecord, FieldValue};
use crate::enums::{
    AlphaMode, MaterialParameterType, MaterialStyleShaderSupportedLayers,
    MaterialStyleShaderSupportsDamageEnum,
};
use crate::material::{
    Float3, Float4, MaterialConstant, MaterialParameter, MaterialPostProcessTexture,
    MaterialPostProcessing, MaterialStyleInfo, MaterialTag,
};
use crate::schema::{disjoint, field_wf, kind_fits, schema_wf, FieldKind, FieldSpec, SchemaSet, TagSchema};

verus! {

/// The type code of material tags: `mat ` as four ASCII bytes, little-endian.
pub const MATERIAL_TYPE_CODE: u32 = 0x2074_616d;

/// Positions of the material schemas in the table.
pub const MATERIAL_SCHEMA: usize = 0;
pub const PARAMETER_SCHEMA: usize = 1;
pub const POST_PROCESSING_SCHEMA: usize = 2;
pub const POST_TEXTURE_SCHEMA: usize = 3;
pub const CONSTANT_SCHEMA: usize = 4;
pub const STYLE_INFO_SCHEMA: usize = 5;

fn field(name: &str, offset: usize, size: usize, kind: FieldKind) -> (r: FieldSpec)
    ensures
        r.offset == offset,
        r.size == size,
        r.kind == kind,
{
    FieldSpec { name: String::from_str(name), offset, size, kind }
}

/// Fields in increasing offset order, each ending before the next begins,
/// are pairwise disjoint.
proof fn lemma_ordered_fields_disjoint(fields: Seq<FieldSpec>)
    requires
        forall|k: int|
            0 <= k < fields.len() - 1 ==> #[trigger] fields[k].offset + fields[k].size
                <= fields[k + 1].offset,
    ensures
        forall|i: int, j: int|
            0 <= i < j < fields.len() ==> disjoint(#[trigger] fields[i], #[trigger] fields[j]),
    decreases fields.len(),
{
    if fields.len() > 1 {
        let rest = fields.drop_first();
        assert forall|k: int| 0 <= k < rest.len() - 1 implies #[trigger] rest[k].offset
            + rest[k].size <= rest[k + 1].offset by {
            assert(rest[k] == fields[k + 1]);
            assert(rest[k + 1] == fields[k + 2]);
        }
        lemma_ordered_fields_disjoint(rest);
        assert forall|j: int| 0 < j < fields.len() implies fields[0].offset + fields[0].size
            <= #[trigger] fields[j].offset by {
            lemma_offsets_grow(fields, j);
        }
        assert forall|i: int, j: int| 0 <= i < j < fields.len() implies disjoint(
            #[trigger] fields[i],
            #[trigger] fields[j],
        ) by {
            if i > 0 {
                assert(fields[i] == rest[i - 1]);
                assert(fields[j] == rest[j - 1]);
            }
        }
    }
}

proof fn lemma_offsets_grow(fields: Seq<FieldSpec>, j: int)
    requires
        0 < j < fields.len(),
        forall|k: int|
            0 <= k < fields.len() - 1 ==> #[trigger] fields[k].offset + fields[k].size
                <= fields[k + 1].offset,
    ensures
        fields[0].offset + fields[0].size <= fields[j].offset,
    decreases j,
{
    if j > 1 {
        lemma_offsets_grow(fields, j - 1);
        assert(fields[j - 1].offset + fields[j - 1].size <= fields[j].offset);
    }
}

/// Offset, size and kind of each field of a layout.
pub type FieldLayout = (usize, usize, FieldKind);

/// Offsets, sizes and kinds of the fields of a schema.
pub open spec fn layout_of(fields: Seq<FieldSpec>) -> Seq<FieldLayout> {
    Seq::new(fields.len(), |i: int| (fields[i].offset, fields[i].size, fields[i].kind))
}

/// The record size of each material schema.
pub open spec fn material_size(s: int) -> usize {
    if s == 0 {
        0x88
    } else if s == 1 {
        0x9C
    } else if s == 2 {
        0xA0
    } else if s == 3 {
        0x38
    } else if s == 4 {
        0x10
    } else if s == 5 {
        0x5C
    } else {
        0
    }
}

/// The fields of each material schema, in offset order.
pub open spec fn material_fields(s: int) -> Seq<FieldLayout> {
    if s == 0 {
        seq![
            (0x10usize, 0x1Cusize, FieldKind::Reference),
            (0x2Cusize, 0x14usize, FieldKind::Block { schema: 1 }),
            (0x40usize, 0x14usize, FieldKind::Block { schema: 2 }),
            (0x68usize, 1usize, FieldKind::Enum { width: 1, variants: 72 }),
            (0x74usize, 0x14usize, FieldKind::Block { schema: 5 }),
        ]
    } else if s == 1 {
        seq![
            (0x00usize, 4usize, FieldKind::StringId),
            (0x04usize, 4usize, FieldKind::Enum { width: 4, variants: 9 }),
            (0x08usize, 0x1Cusize, FieldKind::Reference),
            (0x24usize, 16usize, FieldKind::Vector { components: 4 }),
            (0x34usize, 4usize, FieldKind::Float),
            (0x38usize, 12usize, FieldKind::Vector { components: 3 }),
            (0x94usize, 2usize, FieldKind::Int { width: 2, signed: true }),
            (0x96usize, 2usize, FieldKind::Int { width: 2, signed: true }),
        ]
    } else if s == 2 {
        seq![
            (0x00usize, 0x14usize, FieldKind::Block { schema: 3 }),
            (0x58usize, 0x14usize, FieldKind::Block { schema: 4 }),
        ]
    } else if s == 3 {
        seq![
            (0x00usize, 0x1Cusize, FieldKind::Reference),
            (0x2Ausize, 2usize, FieldKind::Int { width: 2, signed: true }),
        ]
    } else if s == 4 {
        seq![
            (0x00usize, 16usize, FieldKind::Vector { components: 4 }),
        ]
    } else if s == 5 {
        seq![
            (0x00usize, 0x1Cusize, FieldKind::Reference),
            (0x1Cusize, 0x1Cusize, FieldKind::Reference),
            (0x38usize, 4usize, FieldKind::StringId),
            (0x3Cusize, 4usize, FieldKind::StringId),
            (0x40usize, 4usize, FieldKind::StringId),
            (0x44usize, 4usize, FieldKind::StringId),
            (0x48usize, 4usize, FieldKind::StringId),
            (0x4Cusize, 4usize, FieldKind::StringId),
            (0x50usize, 4usize, FieldKind::StringId),
            (0x54usize, 4usize, FieldKind::StringId),
            (0x58usize, 1usize, FieldKind::Enum { width: 1, variants: 4 }),
            (0x59usize, 1usize, FieldKind::Enum { width: 1, variants: 2 }),
        ]
    } else {
        Seq::empty()
    }
}

/// `sch` is the material schema table.
pub open spec fn material_layout(sch: Seq<TagSchema>) -> bool {
    &&& sch.len() == 6
    &&& sch[0].type_code == MATERIAL_TYPE_CODE
    &&& forall|s: int|
        0 <= s < 6 ==> #[trigger] sch[s].size == material_size(s) && layout_of(sch[s].fields@)
            == material_fields(s)
}

/// Every field of the first `n` of `l` fits a record of `size` bytes of
/// schema `s` of `count`, and each ends before the next begins.
pub open spec fn fields_fit(l: Seq<FieldLayout>, size: nat, s: int, count: int, n: int) -> bool
    decreases n,
{
    if n <= 0 || n > l.len() {
        true
    } else {
        let e = l[n - 1];
        &&& fields_fit(l, size, s, count, n - 1)
        &&& kind_fits(e.2, e.1 as nat)
        &&& e.0 + e.1 <= size
        &&& (e.2 matches FieldKind::Block { schema } ==> s < schema < count)
        &&& (n >= 2 ==> l[n - 2].0 + l[n - 2].1 <= e.0)
    }
}

proof fn lemma_fields_fit(l: Seq<FieldLayout>, size: nat, s: int, count: int, n: int)
    requires
        0 <= n <= l.len(),
        fields_fit(l, size, s, count, n),
    ensures
        forall|k: int|
            0 <= k < n ==> {
                &&& kind_fits((#[trigger] l[k]).2, l[k].1 as nat)
                &&& l[k].0 + l[k].1 <= size
                &&& (l[k].2 matches FieldKind::Block { schema } ==> s < schema < count)
            },
        forall|k: int| 0 <= k < n - 1 ==> #[trigger] l[k].0 + l[k].1 <= l[k + 1].0,
    decreases n,
{
    if n > 0 {
        lemma_fields_fit(l, size, s, count, n - 1);
    }
}

/// A schema whose fields fit and follow one another is well formed.
proof fn lemma_schema_from_layout(sch: Seq<TagSchema>, s: int)
    requires
        0 <= s < sch.len(),
        fields_fit(
            layout_of(sch[s].fields@),
            sch[s].size as nat,
            s,
            sch.len() as int,
            sch[s].fields@.len() as int,
        ),
    ensures
        schema_wf(sch, s),
{
    let fields = sch[s].fields@;
    let l = layout_of(fields);
    lemma_fields_fit(l, sch[s].size as nat, s, sch.len() as int, fields.len() as int);
    assert forall|k: int| 0 <= k < fields.len() implies field_wf(sch, s, #[trigger] fields[k]) by {
        assert(l[k] == (fields[k].offset, fields[k].size, fields[k].kind));
    }
    assert forall|k: int| 0 <= k < fields.len() - 1 implies #[trigger] fields[k].offset
        + fields[k].size <= fields[k + 1].offset by {
        assert(l[k] == (fields[k].offset, fields[k].size, fields[k].kind));
        assert(l[k + 1] == (fields[k + 1].offset, fields[k + 1].size, fields[k + 1].kind));
    }
    lemma_ordered_fields_disjoint(fields);
}

fn material_schema() -> (r: TagSchema)
    ensures
        r.size == material_size(0),
        layout_of(r.fields@) == material_fields(0),
        r.type_code == MATERIAL_TYPE_CODE,
{
    let mut f: Vec<FieldSpec> = Vec::new();
    f.push(field("material_shader", 0x10, 0x1C, FieldKind::Reference));
    f.push(field("material_parameters", 0x2C, 0x14, FieldKind::Block { schema: 1 }));
    f.push(field("post_process_definition", 0x40, 0x14, FieldKind::Block { schema: 2 }));
    f.push(field("alpha_blend_mode", 0x68, 1, FieldKind::Enum { width: 1, variants: 72 }));
    f.push(field("style_info", 0x74, 0x14, FieldKind::Block { schema: 5 }));
    assert(layout_of(f@) =~= material_fields(0));
    TagSchema { type_code: MATERIAL_TYPE_CODE, size: 0x88, fields: f }
}

fn parameter_schema() -> (r: TagSchema)
    ensures
        r.size == material_size(1),
        layout_of(r.fields@) == material_fields(1),
{
    let mut f: Vec<FieldSpec> = Vec::new();
    f.push(field("parameter_name", 0x00, 4, FieldKind::StringId));
    f.push(field("parameter_type", 0x04, 4, FieldKind::Enum { width: 4, variants: 9 }));
    f.push(field("bitmap", 0x08, 0x1C, FieldKind::Reference));
    f.push(field("color", 0x24, 16, FieldKind::Vector { components: 4 }));
    f.push(field("real", 0x34, 4, FieldKind::Float));
    f.push(field("vector", 0x38, 12, FieldKind::Vector { components: 3 }));
    f.push(field("register_offset", 0x94, 2, FieldKind::Int { width: 2, signed: true }));
    f.push(field("register_size", 0x96, 2, FieldKind::Int { width: 2, signed: true }));
    assert(layout_of(f@) =~= material_fields(1));
    TagSchema { type_code: 0, size: 0x9C, fields: f }
}

fn post_processing_schema() -> (r: TagSchema)
    ensures
        r.size == material_size(2),
        layout_of(r.fields@) == material_fields(2),
{
    let mut f: Vec<FieldSpec> = Vec::new();
    f.push(field("textures", 0x00, 0x14, FieldKind::Block { schema: 3 }));
    f.push(field("material_constants", 0x58, 0x14, FieldKind::Block { schema: 4 }));
    assert(layout_of(f@) =~= material_fields(2));
    TagSchema { type_code: 0, size: 0xA0, fields: f }
}

fn post_texture_schema() -> (r: TagSchema)
    ensures
        r.size == material_size(3),
        layout_of(r.fields@) == material_fields(3),
{
    let mut f: Vec<FieldSpec> = Vec::new();
    f.push(field("bitmap_reference", 0x00, 0x1C, FieldKind::Reference));
    f.push(field("parameter_index", 0x2A, 2, FieldKind::Int { width: 2, signed: true }));
    assert(layout_of(f@) =~= material_fields(3));
    TagSchema { type_code: 0, size: 0x38, fields: f }
}

fn constant_schema() -> (r: TagSchema)
    ensures
        r.size == material_size(4),
        layout_of(r.fields@) == material_fields(4),
{
    let mut f: Vec<FieldSpec> = Vec::new();
    f.push(field("register", 0x00, 16, FieldKind::Vector { components: 4 }));
    assert(layout_of(f@) =~= material_fields(4));
    TagSchema { type_code: 0, size: 0x10, fields: f }
}

fn style_info_schema() -> (r: TagSchema)
    ensures
        r.size == material_size(5),
        layout_of(r.fields@) == material_fields(5),
{
    let mut f: Vec<FieldSpec> = Vec::new();
    f.push(field("material_style", 0x00, 0x1C, FieldKind::Reference));
    f.push(field("material_style_tag", 0x1C, 0x1C, FieldKind::Reference));
    f.push(field("region_name", 0x38, 4, FieldKind::StringId));
    f.push(field("base_intention", 0x3C, 4, FieldKind::StringId));
    f.push(field("mask0_red_channel_intention", 0x40, 4, FieldKind::StringId));
    f.push(field("mask0_green_channel_intention", 0x44, 4, FieldKind::StringId));
    f.push(field("mask0_blue_channel_intention", 0x48, 4, FieldKind::StringId));
    f.push(field("mask1_red_channel_intention", 0x4C, 4, FieldKind::StringId));
    f.push(field("mask1_green_channel_intention", 0x50, 4, FieldKind::StringId));
    f.push(field("mask1_blue_channel_intention", 0x54, 4, FieldKind::StringId));
    f.push(field("supported_layers", 0x58, 1, FieldKind::Enum { width: 1, variants: 4 }));
    f.push(field("requires_damage", 0x59, 1, FieldKind::Enum { width: 1, variants: 2 }));
    assert(layout_of(f@) =~= material_fields(5));
    TagSchema { type_code: 0, size: 0x5C, fields: f }
}

/// The schema table of material tags: the material record, then the
/// records of its parameter, post-processing, post-processing texture,
/// constant register and style information blocks.
pub fn material_schemas() -> (r: SchemaSet)
    ensures
        r.wf(),
        material_layout(r.schemas@),
{
    let mut schemas: Vec<TagSchema> = Vec::new();
    schemas.push(material_schema());
    schemas.push(parameter_schema());
    schemas.push(post_processing_schema());
    schemas.push(post_texture_schema());
    schemas.push(constant_schema());
    schemas.push(style_info_schema());
    let r = SchemaSet { schemas };
    proof {
        let sch = r.schemas@;
        assert forall|s: int| 0 <= s < 6 implies #[trigger] schema_wf(sch, s) by {
            assert(sch[s].size == material_size(s));
            assert(layout_of(sch[s].fields@) == material_fields(s));
            assert(fields_fit(material_fields(s), material_size(s) as nat, s, 6, material_fields(s).len() as int)) by {
                reveal_with_fuel(fields_fit, 13);
            }
            lemma_schema_from_layout(sch, s);
        }
    }
    r
}

pub open spec fn ref_id(v: FieldValue) -> Option<i32> {
    match v {
        FieldValue::Reference(r) => Some(r.global_id),
        _ => None,
    }
}

pub open spec fn string_id(v: FieldValue) -> Option<i32> {
    match v {
        FieldValue::StringId(x) => Some(x),
        _ => None,
    }
}

pub open spec fn enum_raw(v: FieldValue) -> Option<u32> {
    match v {
        FieldValue::Enum(x) => Some(x),
        _ => None,
    }
}

pub open spec fn short_of(v: FieldValue) -> Option<i16> {
    match v {
        FieldValue::Signed(x) => if -0x8000 <= x < 0x8000 {
            Some(x as i16)
        } else {
            None
        },
        _ => None,
    }
}

pub open spec fn float_of(v: FieldValue) -> Option<u32> {
    match v {
        FieldValue::Float(x) => Some(x),
        _ => None,
    }
}

pub open spec fn float3_of(v: FieldValue) -> Option<Float3> {
    match v {
        FieldValue::Vector(ws) => if ws@.len() == 3 {
            Some(Float3 { x: ws@[0], y: ws@[1], z: ws@[2] })
        } else {
            None
        },
        _ => None,
    }
}

pub open spec fn float4_of(v: FieldValue) -> Option<Float4> {
    match v {
        FieldValue::Vector(ws) => if ws@.len() == 4 {
            Some(Float4 { x: ws@[0], y: ws@[1], z: ws@[2], w: ws@[3] })
        } else {
            None
        },
        _ => None,
    }
}

pub open spec fn elements_of(v: FieldValue) -> Option<Seq<DecodedRecord>> {
    match v {
        FieldValue::Block(b) => Some(b.elements@),
        _ => None,
    }
}

/// The variant of a one-byte enum that a decoded raw value stands for.
pub open spec fn byte_enum<T>(raw: u32, conv: spec_fn(u8) -> Option<T>) -> Option<T> {
    if raw < 256 {
        conv(raw as u8)
    } else {
        None
    }
}

pub open spec fn texture_spec(r: DecodedRecord) -> Option<MaterialPostProcessTexture> {
    let f = r.fields@;
    if f.len() == 2 && ref_id(f[0]) is Some && short_of(f[1]) is Some {
        Some(
            MaterialPostProcessTexture {
                bitmap_reference: ref_id(f[0])->0,
                parameter_index: short_of(f[1])->0,
            },
        )
    } else {
        None
    }
}

pub open spec fn constant_spec(r: DecodedRecord) -> Option<MaterialConstant> {
    let f = r.fields@;
    if f.len() == 1 && float4_of(f[0]) is Some {
        Some(MaterialConstant { register: float4_of(f[0])->0 })
    } else {
        None
    }
}

pub open spec fn parameter_spec(r: DecodedRecord) -> Option<MaterialParameter> {
    let f = r.fields@;
    if f.len() == 8 && string_id(f[0]) is Some && enum_raw(f[1]) is Some
        && MaterialParameterType::from_raw_spec(enum_raw(f[1])->0) is Some && ref_id(f[2]) is Some
        && float4_of(f[3]) is Some && float_of(f[4]) is Some && float3_of(f[5]) is Some && short_of(
        f[6],
    ) is Some && short_of(f[7]) is Some {
        Some(
            MaterialParameter {
                parameter_name: string_id(f[0])->0,
                parameter_type: MaterialParameterType::from_raw_spec(enum_raw(f[1])->0)->0,
                bitmap: ref_id(f[2])->0,
                color: float4_of(f[3])->0,
                real: float_of(f[4])->0,
                vector: float3_of(f[5])->0,
                register_offset: short_of(f[6])->0,
                register_size: short_of(f[7])->0,
            },
        )
    } else {
        None
    }
}

pub open spec fn style_spec(r: DecodedRecord) -> Option<MaterialStyleInfo> {
    let f = r.fields@;
    if f.len() == 12 && ref_id(f[0]) is Some && ref_id(f[1]) is Some && string_id(f[2]) is Some
        && string_id(f[3]) is Some && string_id(f[4]) is Some && string_id(f[5]) is Some
        && string_id(f[6]) is Some && string_id(f[7]) is Some && string_id(f[8]) is Some
        && string_id(f[9]) is Some && enum_raw(f[10]) is Some && byte_enum(
        enum_raw(f[10])->0,
        |b: u8| MaterialStyleShaderSupportedLayers::from_raw_spec(b),
    ) is Some && enum_raw(f[11]) is Some && byte_enum(
        enum_raw(f[11])->0,
        |b: u8| MaterialStyleShaderSupportsDamageEnum::from_raw_spec(b),
    ) is Some {
        Some(
            MaterialStyleInfo {
                material_style: ref_id(f[0])->0,
                material_style_tag: ref_id(f[1])->0,
                region_name: string_id(f[2])->0,
                base_intention: string_id(f[3])->0,
                mask0_red_channel_intention: string_id(f[4])->0,
                mask0_green_channel_intention: string_id(f[5])->0,
                mask0_blue_channel_intention: string_id(f[6])->0,
                mask1_red_channel_intention: string_id(f[7])->0,
                mask1_green_channel_intention: string_id(f[8])->0,
                mask1_blue_channel_intention: string_id(f[9])->0,
                supported_layers: byte_enum(
                    enum_raw(f[10])->0,
                    |b: u8| MaterialStyleShaderSupportedLayers::from_raw_spec(b),
                )->0,
                requires_damage: byte_enum(
                    enum_raw(f[11])->0,
                    |b: u8| MaterialStyleShaderSupportsDamageEnum::from_raw_spec(b),
                )->0,
            },
        )
    } else {
        None
    }
}

/// Every element of `es` reads as a value of the element type.
pub open spec fn all_read<T>(es: Seq<DecodedRecord>, read: spec_fn(DecodedRecord) -> Option<T>) -> bool {
    forall|k: int| 0 <= k < es.len() ==> read(#[trigger] es[k]) is Some
}

/// The values the elements of `es` read as.
pub open spec fn read_all<T>(es: Seq<DecodedRecord>, read: spec_fn(DecodedRecord) -> Option<T>) -> Seq<T> {
    es.map_values(|e: DecodedRecord| read(e)->0)
}

/// `r` is a decoded post-processing record that reads as `pp`.
pub open spec fn post_extracted(r: DecodedRecord, pp: MaterialPostProcessing) -> bool {
    let f = r.fields@;
    &&& post_readable(r)
    &&& pp.textures@ == read_all(elements_of(f[0])->0, |e: DecodedRecord| texture_spec(e))
    &&& pp.material_constants@ == read_all(elements_of(f[1])->0, |e: DecodedRecord| constant_spec(e))
}

/// `r` is a decoded post-processing record whose elements all read.
pub open spec fn post_readable(r: DecodedRecord) -> bool {
    let f = r.fields@;
    &&& f.len() == 2
    &&& elements_of(f[0]) is Some
    &&& elements_of(f[1]) is Some
    &&& all_read(elements_of(f[0])->0, |e: DecodedRecord| texture_spec(e))
    &&& all_read(elements_of(f[1])->0, |e: DecodedRecord| constant_spec(e))
}

/// `r` is a decoded material record whose fields and elements all read.
pub open spec fn material_readable(r: DecodedRecord) -> bool {
    let f = r.fields@;
    &&& f.len() == 5
    &&& ref_id(f[0]) is Some
    &&& elements_of(f[1]) is Some
    &&& all_read(elements_of(f[1])->0, |e: DecodedRecord| parameter_spec(e))
    &&& elements_of(f[2]) is Some
    &&& forall|k: int|
        0 <= k < (elements_of(f[2])->0).len() ==> post_readable(#[trigger] (elements_of(f[2])->0)[k])
    &&& enum_raw(f[3]) is Some
    &&& byte_enum(enum_raw(f[3])->0, |b: u8| AlphaMode::from_raw_spec(b)) is Some
    &&& elements_of(f[4]) is Some
    &&& all_read(elements_of(f[4])->0, |e: DecodedRecord| style_spec(e))
}

/// `r` is a decoded material record that reads as `m`.
pub open spec fn material_extracted(r: DecodedRecord, m: MaterialTag) -> bool {
    let f = r.fields@;
    let pps = elements_of(f[2])->0;
    &&& material_readable(r)
    &&& m.material_shader == ref_id(f[0])->0
    &&& m.material_parameters@ == read_all(elements_of(f[1])->0, |e: DecodedRecord| parameter_spec(e))
    &&& m.post_process_definition@.len() == pps.len()
    &&& forall|k: int|
        0 <= k < pps.len() ==> post_extracted(pps[k], #[trigger] m.post_process_definition@[k])
    &&& m.alpha_blend_mode == byte_enum(enum_raw(f[3])->0, |b: u8| AlphaMode::from_raw_spec(b))->0
    &&& m.style_info@ == read_all(elements_of(f[4])->0, |e: DecodedRecord| style_spec(e))
}

fn ref_id_of(v: &FieldValue) -> (r: Option<i32>)
    ensures
        r == ref_id(*v),
{
    match v {
        FieldValue::Reference(t) => Some(t.global_id),
        _ => None,
    }
}

fn string_id_of(v: &FieldValue) -> (r: Option<i32>)
    ensures
        r == string_id(*v),
{
    match v {
        FieldValue::StringId(x) => Some(*x),
        _ => None,
    }
}

fn enum_raw_of(v: &FieldValue) -> (r: Option<u32>)
    ensures
        r == enum_raw(*v),
{
    match v {
        FieldValue::Enum(x) => Some(*x),
        _ => None,
    }
}

fn short_value(v: &FieldValue) -> (r: Option<i16>)
    ensures
        r == short_of(*v),
{
    match v {
        FieldValue::Signed(x) => if -0x8000 <= *x && *x < 0x8000 {
            Some(*x as i16)
        } else {
            None
        },
        _ => None,
    }
}

fn float_value(v: &FieldValue) -> (r: Option<u32>)
    ensures
        r == float_of(*v),
{
    match v {
        FieldValue::Float(x) => Some(*x),
        _ => None,
    }
}

fn float3_value(v: &FieldValue) -> (r: Option<Float3>)
    ensures
        r == float3_of(*v),
{
    match v {
        FieldValue::Vector(ws) => if ws.len() == 3 {
            Some(Float3 { x: ws[0], y: ws[1], z: ws[2] })
        } else {
            None
        },
        _ => None,
    }
}

fn float4_value(v: &FieldValue) -> (r: Option<Float4>)
    ensures
        r == float4_of(*v),
{
    match v {
        FieldValue::Vector(ws) => if ws.len() == 4 {
            Some(Float4 { x: ws[0], y: ws[1], z: ws[2], w: ws[3] })
        } else {
            None
        },
        _ => None,
    }
}

fn texture_from(r: &DecodedRecord) -> (out: Option<MaterialPostProcessTexture>)
    ensures
        out == texture_spec(*r),
{
    if r.fields.len() != 2 {
        return None;
    }
    match (ref_id_of(&r.fields[0]), short_value(&r.fields[1])) {
        (Some(b), Some(p)) => Some(MaterialPostProcessTexture { bitmap_reference: b, parameter_index: p }),
        _ => None,
    }
}

fn constant_from(r: &DecodedRecord) -> (out: Option<MaterialConstant>)
    ensures
        out == constant_spec(*r),
{
    if r.fields.len() != 1 {
        return None;
    }
    match float4_value(&r.fields[0]) {
        Some(register) => Some(MaterialConstant { register }),
        None => None,
    }
}

fn parameter_from(r: &DecodedRecord) -> (out: Option<MaterialParameter>)
    ensures
        out == parameter_spec(*r),
{
    if r.fields.len() != 8 {
        return None;
    }
    let f = &r.fields;
    let parameter_type = match enum_raw_of(&f[1]) {
        Some(raw) => MaterialParameterType::from_raw(raw),
        None => None,
    };
    match (
        string_id_of(&f[0]),
        parameter_type,
        ref_id_of(&f[2]),
        float4_value(&f[3]),
        float_value(&f[4]),
        float3_value(&f[5]),
        short_value(&f[6]),
        short_value(&f[7]),
    ) {
        (
            Some(parameter_name),
            Some(parameter_type),
            Some(bitmap),
            Some(color),
            Some(real_bits),
            Some(vector),
            Some(register_offset),
            Some(register_size),
        ) => Some(
            MaterialParameter {
                parameter_name,
                parameter_type,
                bitmap,
                color,
                real: real_bits,
                vector,
                register_offset,
                register_size,
            },
        ),
        _ => None,
    }
}

fn style_from(r: &DecodedRecord) -> (out: Option<MaterialStyleInfo>)
    ensures
        out == style_spec(*r),
{
    if r.fields.len() != 12 {
        return None;
    }
    let f = &r.fields;
    let layers = match enum_raw_of(&f[10]) {
        Some(raw) => if raw < 256 {
            MaterialStyleShaderSupportedLayers::from_raw(raw as u8)
        } else {
            None
        },
        None => None,
    };
    let damage = match enum_raw_of(&f[11]) {
        Some(raw) => if raw < 256 {
            MaterialStyleShaderSupportsDamageEnum::from_raw(raw as u8)
        } else {
            None
        },
        None => None,
    };
    let ids = (
        string_id_of(&f[2]),
        string_id_of(&f[3]),
        string_id_of(&f[4]),
        string_id_of(&f[5]),
        string_id_of(&f[6]),
        string_id_of(&f[7]),
        string_id_of(&f[8]),
        string_id_of(&f[9]),
    );
    match (ref_id_of(&f[0]), ref_id_of(&f[1]), ids, layers, damage) {
        (
            Some(material_style),
            Some(material_style_tag),
            (Some(a), Some(b), Some(c), Some(d), Some(e), Some(g), Some(h), Some(i)),
            Some(supported_layers),
            Some(requires_damage),
        ) => Some(
            MaterialStyleInfo {
                material_style,
                material_style_tag,
                region_name: a,
                base_intention: b,
                mask0_red_channel_intention: c,
                mask0_green_channel_intention: d,
                mask0_blue_channel_intention: e,
                mask1_red_channel_intention: g,
                mask1_green_channel_intention: h,
                mask1_blue_channel_intention: i,
                supported_layers,
                requires_damage,
            },
        ),
        _ => None,
    }
}

/// Reads every element of `es` as a post-processing texture; `None` where one does not read.
fn textures_from(es: &Vec<DecodedRecord>) -> (out: Option<Vec<MaterialPostProcessTexture>>)
    ensures
        out is Some <==> all_read(es@, |e: DecodedRecord| texture_spec(e)),
        out matches Some(v) ==> v@ == read_all(es@, |e: DecodedRecord| texture_spec(e)),
{
    let mut v: Vec<MaterialPostProcessTexture> = Vec::new();
    let mut k: usize = 0;
    while k < es.len()
        invariant
            k <= es@.len(),
            forall|j: int| 0 <= j < k ==> (texture_spec(#[trigger] es@[j])) is Some,
            v@ == read_all(es@.subrange(0, k as int), |e: DecodedRecord| texture_spec(e)),
        decreases es@.len() - k,
    {
        match texture_from(&es[k]) {
            Some(x) => v.push(x),
            None => {
                assert(texture_spec(es@[k as int]) is None);
                assert(!all_read(es@, |e: DecodedRecord| texture_spec(e)));
                return None;
            },
        }
        k = k + 1;
        assert(v@ =~= read_all(es@.subrange(0, k as int), |e: DecodedRecord| texture_spec(e)));
    }
    assert(es@.subrange(0, k as int) =~= es@);
    Some(v)
}

/// Reads every element of `es` as a constant register; `None` where one does not read.
fn constants_from(es: &Vec<DecodedRecord>) -> (out: Option<Vec<MaterialConstant>>)
    ensures
        out is Some <==> all_read(es@, |e: DecodedRecord| constant_spec(e)),
        out matches Some(v) ==> v@ == read_all(es@, |e: DecodedRecord| constant_spec(e)),
{
    let mut v: Vec<MaterialConstant> = Vec::new();
    let mut k: usize = 0;
    while k < es.len()
        invariant
            k <= es@.len(),
            forall|j: int| 0 <= j < k ==> (constant_spec(#[trigger] es@[j])) is Some,
            v@ == read_all(es@.subrange(0, k as int), |e: DecodedRecord| constant_spec(e)),
        decreases es@.len() - k,
    {
        match constant_from(&es[k]) {
            Some(x) => v.push(x),
            None => {
                assert(constant_spec(es@[k as int]) is None);
                assert(!all_read(es@, |e: DecodedRecord| constant_spec(e)));
                return None;
            },
        }
        k = k + 1;
        assert(v@ =~= read_all(es@.subrange(0, k as int), |e: DecodedRecord| constant_spec(e)));
    }
    assert(es@.subrange(0, k as int) =~= es@);
    Some(v)
}

/// Reads every element of `es` as a material parameter; `None` where one does not read.
fn parameters_from(es: &Vec<DecodedRecord>) -> (out: Option<Vec<MaterialParameter>>)
    ensures
        out is Some <==> all_read(es@, |e: DecodedRecord| parameter_spec(e)),
        out matches Some(v) ==> v@ == read_all(es@, |e: DecodedRecord| parameter_spec(e)),
{
    let mut v: Vec<MaterialParameter> = Vec::new();
    let mut k: usize = 0;
    while k < es.len()
        invariant
            k <= es@.len(),
            forall|j: int| 0 <= j < k ==> (parameter_spec(#[trigger] es@[j])) is Some,
            v@ == read_all(es@.subrange(0, k as int), |e: DecodedRecord| parameter_spec(e)),
        decreases es@.len() - k,
    {
        match parameter_from(&es[k]) {
            Some(x) => v.push(x),
            None => {
                assert(parameter_spec(es@[k as int]) is None);
                assert(!all_read(es@, |e: DecodedRecord| parameter_spec(e)));
                return None;
            },
        }
        k = k + 1;
        assert(v@ =~= read_all(es@.subrange(0, k as int), |e: DecodedRecord| parameter_spec(e)));
    }
    assert(es@.subrange(0, k as int) =~= es@);
    Some(v)
}

/// Reads every element of `es` as a style information entry; `None` where one does not read.
fn styles_from(es: &Vec<DecodedRecord>) -> (out: Option<Vec<MaterialStyleInfo>>)
    ensures
        out is Some <==> all_read(es@, |e: DecodedRecord| style_spec(e)),
        out matches Some(v) ==> v@ == read_all(es@, |e: DecodedRecord| style_spec(e)),
{
    let mut v: Vec<MaterialStyleInfo> = Vec::new();
    let mut k: usize = 0;
    while k < es.len()
        invariant
            k <= es@.len(),
            forall|j: int| 0 <= j < k ==> (style_spec(#[trigger] es@[j])) is Some,
            v@ == read_all(es@.subrange(0, k as int), |e: DecodedRecord| style_spec(e)),
        decreases es@.len() - k,
    {
        match style_from(&es[k]) {
            Some(x) => v.push(x),
            None => {
                assert(style_spec(es@[k as int]) is None);
                assert(!all_read(es@, |e: DecodedRecord| style_spec(e)));
                return None;
            },
        }
        k = k + 1;
        assert(v@ =~= read_all(es@.subrange(0, k as int), |e: DecodedRecord| style_spec(e)));
    }
    assert(es@.subrange(0, k as int) =~= es@);
    Some(v)
}

fn elements_ref(v: &FieldValue) -> (r: Option<&Vec<DecodedRecord>>)
    ensures
        match r {
            Some(es) => elements_of(*v) == Some(es@),
            None => elements_of(*v) is None,
        },
{
    match v {
        FieldValue::Block(b) => Some(&b.elements),
        _ => None,
    }
}

fn post_from(r: &DecodedRecord) -> (out: Option<MaterialPostProcessing>)
    ensures
        out is Some <==> post_readable(*r),
        out matches Some(pp) ==> post_extracted(*r, pp),
{
    if r.fields.len() != 2 {
        return None;
    }
    let ts = match elements_ref(&r.fields[0]) {
        Some(es) => es,
        None => {
            return None;
        },
    };
    let cs = match elements_ref(&r.fields[1]) {
        Some(es) => es,
        None => {
            return None;
        },
    };
    match (textures_from(ts), constants_from(cs)) {
        (Some(textures), Some(material_constants)) => Some(
            MaterialPostProcessing { textures, material_constants },
        ),
        _ => None,
    }
}

/// Reads a decoded material record (of the first schema of
/// `material_schemas`) as a `MaterialTag`; `None` where a field or element
/// does not hold what the material layout puts there.
pub fn material_from_record(r: &DecodedRecord) -> (out: Option<MaterialTag>)
    ensures
        out is Some <==> material_readable(*r),
        out matches Some(m) ==> material_extracted(*r, m),
{
    if r.fields.len() != 5 {
        return None;
    }
    let f = &r.fields;
    let shader = match ref_id_of(&f[0]) {
        Some(x) => x,
        None => {
            return None;
        },
    };
    let params = match elements_ref(&f[1]) {
        Some(es) => match parameters_from(es) {
            Some(v) => v,
            None => {
                return None;
            },
        },
        None => {
            return None;
        },
    };
    let pps = match elements_ref(&f[2]) {
        Some(es) => es,
        None => {
            return None;
        },
    };
    let mut posts: Vec<MaterialPostProcessing> = Vec::new();
    let mut k: usize = 0;
    while k < pps.len()
        invariant
            k <= pps@.len(),
            r.fields@.len() == 5,
            elements_of(r.fields@[2]) == Some(pps@),
            posts@.len() == k,
            forall|j: int| 0 <= j < k ==> post_readable(#[trigger] pps@[j]),
            forall|j: int| 0 <= j < k ==> post_extracted(pps@[j], #[trigger] posts@[j]),
        decreases pps@.len() - k,
    {
        match post_from(&pps[k]) {
            Some(pp) => posts.push(pp),
            None => {
                assert(!post_readable(pps@[k as int]));
                assert((elements_of(r.fields@[2])->0)[k as int] == pps@[k as int]);
                return None;
            },
        }
        k = k + 1;
    }
    let alpha = match enum_raw_of(&f[3]) {
        Some(raw) => if raw < 256 {
            AlphaMode::from_raw(raw as u8)
        } else {
            None
        },
        None => None,
    };
    let alpha_blend_mode = match alpha {
        Some(a) => a,
        None => {
            assert(byte_enum(enum_raw(f@[3])->0, |b: u8| AlphaMode::from_raw_spec(b)) is None
                || enum_raw(f@[3]) is None);
            return None;
        },
    };
    let styles = match elements_ref(&f[4]) {
        Some(es) => match styles_from(es) {
            Some(v) => v,
            None => {
                return None;
            },
        },
        None => {
            return None;
        },
    };
    Some(
        MaterialTag {
            material_shader: shader,
            material_parameters: params,
            post_process_definition: posts,
            alpha_blend_mode,
            style_info: styles,
        },
    )
}

/// A blend-mode value outside the variant set makes a decoded material
/// record unreadable: it never becomes a material with some default mode.
pub proof fn lemma_unknown_blend_mode_not_read(r: DecodedRecord)
    requires
        r.fields@.len() == 5,
        enum_raw(r.fields@[3]) matches Some(v) && v >= 72,
    ensures
        !material_readable(r),
{
}

/// A supported-layers or damage value outside its variant set makes a
/// decoded style record unreadable: it is never read as a default variant.
pub proof fn lemma_unknown_style_enum_not_read(r: DecodedRecord)
    requires
        r.fields@.len() == 12,
        (enum_raw(r.fields@[10]) matches Some(v) && v >= 4) || (enum_raw(r.fields@[11]) matches Some(
            v,
        ) && v >= 2),
    ensures
        style_spec(r) is None,
{
}

} // verus!
