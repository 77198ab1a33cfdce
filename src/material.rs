//! Material records and the shader classifier: a material's shader ID picks,
//! from a fixed table, the family handler that reads the family's values out
//! of the material's constant registers. Single-precision values are kept
//! as their raw IEEE bits.
use vstd::prelude::*;
use crate::bytes::{le_bytes, lemma_le_value_bound, lemma_pow256_values, push_le, read_le};
use crate::decode::{le_at, DecodeError};
use crate::keyed::KeyedList;
use crate::enums::{
    AlphaMode, MaterialParameterType, MaterialStyleShaderSupportedLayers,
    MaterialStyleShaderSupportsDamageEnum, TextureType,
};

verus! {

/// Three single-precision values, as raw bits.
#[derive(PartialEq, Eq, Structural, Debug, Clone, Copy)]
pub struct Float3 {
    pub x: u32,
    pub y: u32,
    pub z: u32,
}

/// Four single-precision values, as raw bits.
#[derive(PartialEq, Eq, Structural, Debug, Clone, Copy)]
pub struct Float4 {
    pub x: u32,
    pub y: u32,
    pub z: u32,
    pub w: u32,
}

/// A parameter of a material.
#[derive(PartialEq, Eq, Structural, Debug, Clone, Copy)]
pub struct MaterialParameter {
    pub parameter_name: i32,
    pub parameter_type: MaterialParameterType,
    pub bitmap: i32,
    pub color: Float4,
    pub real: u32,
    pub vector: Float3,
    pub register_offset: i16,
    pub register_size: i16,
}

/// A texture of a post-processing definition: the bitmap it references.
#[derive(PartialEq, Eq, Structural, Debug, Clone, Copy)]
pub struct MaterialPostProcessTexture {
    pub bitmap_reference: i32,
    pub parameter_index: i16,
}

/// One constant register: four single-precision values.
#[derive(PartialEq, Eq, Structural, Debug, Clone, Copy)]
pub struct MaterialConstant {
    pub register: Float4,
}

/// The textures and constant registers a material's shader reads.
pub struct MaterialPostProcessing {
    pub textures: Vec<MaterialPostProcessTexture>,
    pub material_constants: Vec<MaterialConstant>,
}

/// The style information of a material.
#[derive(PartialEq, Eq, Structural, Debug, Clone, Copy)]
pub struct MaterialStyleInfo {
    pub material_style: i32,
    pub material_style_tag: i32,
    pub region_name: i32,
    pub base_intention: i32,
    pub mask0_red_channel_intention: i32,
    pub mask0_green_channel_intention: i32,
    pub mask0_blue_channel_intention: i32,
    pub mask1_red_channel_intention: i32,
    pub mask1_green_channel_intention: i32,
    pub mask1_blue_channel_intention: i32,
    pub supported_layers: MaterialStyleShaderSupportedLayers,
    pub requires_damage: MaterialStyleShaderSupportsDamageEnum,
}

/// A decoded material tag.
pub struct MaterialTag {
    pub material_shader: i32,
    pub material_parameters: Vec<MaterialParameter>,
    pub post_process_definition: Vec<MaterialPostProcessing>,
    pub alpha_blend_mode: AlphaMode,
    pub style_info: Vec<MaterialStyleInfo>,
}

/// The shader family a material was classified into.
#[derive(PartialEq, Eq, Structural, Debug, Clone, Copy)]
pub enum ShaderType {
    Unknown,
    Diffuse,
    Decal,
    SelfIllum,
    ColorDecal,
    ConesteppedDecal,
    Meter,
}

/// The style information carried into a classified material.
#[derive(PartialEq, Eq, Structural, Debug, Clone, Copy)]
pub struct StyleInfo {
    pub stylelist: i32,
    pub region_name: i32,
    pub base_intention: i32,
    pub mask0_red_intention: i32,
    pub mask0_green_intention: i32,
    pub mask0_blue_intention: i32,
    pub mask1_red_intention: i32,
    pub mask1_green_intention: i32,
    pub mask1_blue_intention: i32,
    pub supported_layers: u8,
    pub enable_damage: bool,
}

#[derive(PartialEq, Eq, Structural, Debug, Clone, Copy)]
pub struct DiffuseInfo {
    pub metallic_white: u32,
    pub metallic_black: u32,
    pub roughness_white: u32,
    pub roughness_black: u32,
    pub si_color_tint: Float3,
    pub si_intensity: u32,
    pub si_amount: u32,
    pub color_tint: Float3,
}

#[derive(PartialEq, Eq, Structural, Debug, Clone, Copy)]
pub struct DecalSlot {
    pub top_color: Float3,
    pub mid_color: Float3,
    pub bot_color: Float3,
    pub roughness_white: u32,
    pub roughness_black: u32,
    pub metallic: u32,
}

#[derive(PartialEq, Eq, Structural, Debug, Clone, Copy)]
pub struct SelfIllum {
    pub color: Float3,
    pub intensity: u32,
    pub opacity: u32,
}

#[derive(PartialEq, Eq, Structural, Debug, Clone, Copy)]
pub struct ColorDecal {
    pub opacity: u32,
    pub metallic: u32,
    pub roughness: u32,
}

#[derive(PartialEq, Eq, Structural, Debug, Clone, Copy)]
pub struct ConesteppedDecal {
    pub parallax_depth: u32,
    pub parallax_height_offset: u32,
    pub normal_intensity: u32,
}

#[derive(PartialEq, Eq, Structural, Debug, Clone, Copy)]
pub struct Meter {
    pub meter_off_color: Float3,
    pub meter_on_color: Float3,
    pub meter_value: u32,
    pub meter_intensity: u32,
}

/// A classified material: its shader, the bitmaps bound to texture slots,
/// its family with that family's values, its style information and its
/// constant registers as bytes.
pub struct Material {
    pub shader: i32,
    pub textures: Vec<(TextureType, i32)>,
    pub shader_type: ShaderType,
    pub alpha_blend_mode: AlphaMode,
    pub style_info: Option<StyleInfo>,
    pub diffuse_info: Option<DiffuseInfo>,
    pub illum_info: Option<SelfIllum>,
    pub decal_slots: Option<DecalSlot>,
    pub color_decal: Option<ColorDecal>,
    pub conestepped_decal: Option<ConesteppedDecal>,
    pub meter: Option<Meter>,
    pub material_constants: Vec<u8>,
}

/// The family handler that a shader ID selects.
pub open spec fn family_spec(id: i32) -> ShaderType {
    if id == 1102829229 || id == 52809748 || id == 340368681 || id == -1051699871 || id
        == -1659664443 || id == 2055304184 || id == 1014564527 || id == -1648222720 || id
        == 1656409392 || id == -1492085200 || id == -1185995257 || id == -232573636 {
        ShaderType::Diffuse
    } else if id == -51713036 || id == 690034699 || id == 2003821059 || id == -2003821059 || id
        == 1996403871 || id == -131335022 || id == -93074746 {
        ShaderType::Decal
    } else if id == -79437929 || id == 2006960401 {
        ShaderType::SelfIllum
    } else if id == 317783742 || id == 1081175655 {
        ShaderType::ColorDecal
    } else if id == -557915351 {
        ShaderType::ConesteppedDecal
    } else if id == -648442023 {
        ShaderType::Meter
    } else {
        ShaderType::Unknown
    }
}

/// The family handler that a shader ID selects; `Unknown` for IDs outside the table.
pub fn family_for(id: i32) -> (r: ShaderType)
    ensures
        r == family_spec(id),
{
    match id {
        1102829229 | 52809748 | 340368681 | -1051699871 | -1659664443 | 2055304184 | 1014564527
        | -1648222720 | 1656409392 | -1492085200 | -1185995257 | -232573636 => ShaderType::Diffuse,
        -51713036 | 690034699 | 2003821059 | -2003821059 | 1996403871 | -131335022 | -93074746 => {
            ShaderType::Decal
        },
        -79437929 | 2006960401 => ShaderType::SelfIllum,
        317783742 | 1081175655 => ShaderType::ColorDecal,
        -557915351 => ShaderType::ConesteppedDecal,
        -648442023 => ShaderType::Meter,
        _ => ShaderType::Unknown,
    }
}

/// The bytes of one constant register.
pub open spec fn register_bytes(r: MaterialConstant) -> Seq<u8> {
    le_bytes(r.register.x as nat, 4) + le_bytes(r.register.y as nat, 4) + le_bytes(
        r.register.z as nat,
        4,
    ) + le_bytes(r.register.w as nat, 4)
}

/// The bytes of a run of constant registers.
pub open spec fn registers_bytes(rs: Seq<MaterialConstant>) -> Seq<u8>
    decreases rs.len(),
{
    if rs.len() == 0 {
        Seq::empty()
    } else {
        registers_bytes(rs.drop_last()) + register_bytes(rs.last())
    }
}

/// The constant registers of a material's first post-processing definition, as bytes.
pub open spec fn constants_of(mat: MaterialTag) -> Seq<u8> {
    if mat.post_process_definition@.len() == 0 {
        Seq::empty()
    } else {
        registers_bytes(mat.post_process_definition@[0].material_constants@)
    }
}

/// The style information of a material's first style entry.
pub open spec fn style_of(mat: MaterialTag) -> Option<StyleInfo> {
    if mat.style_info@.len() == 0 {
        None
    } else {
        let s = mat.style_info@[0];
        Some(
            StyleInfo {
                stylelist: s.material_style,
                region_name: s.region_name,
                base_intention: s.base_intention,
                mask0_red_intention: s.mask0_red_channel_intention,
                mask0_green_intention: s.mask0_green_channel_intention,
                mask0_blue_intention: s.mask0_blue_channel_intention,
                mask1_red_intention: s.mask1_red_channel_intention,
                mask1_green_intention: s.mask1_green_channel_intention,
                mask1_blue_intention: s.mask1_blue_channel_intention,
                supported_layers: s.supported_layers.raw_spec(),
                enable_damage: s.requires_damage == MaterialStyleShaderSupportsDamageEnum::Yes,
            },
        )
    }
}

/// The single-precision value (as raw bits) at byte `off` of the constants.
pub open spec fn f32_at(c: Seq<u8>, off: int) -> u32 {
    le_at(c, off, 4) as u32
}

pub open spec fn vec3_at(c: Seq<u8>, off: int) -> Float3 {
    Float3 { x: f32_at(c, off), y: f32_at(c, off + 4), z: f32_at(c, off + 8) }
}

/// The family a material ends up in: the one its shader selects, except
/// that a cone-stepped decal without a post-processing definition has
/// nothing to read and stays unknown.
pub open spec fn family_of(mat: MaterialTag) -> ShaderType {
    let f = family_spec(mat.material_shader);
    if f == ShaderType::ConesteppedDecal && mat.post_process_definition@.len() == 0 {
        ShaderType::Unknown
    } else {
        f
    }
}

/// How many constant bytes the handler of a family reads.
pub open spec fn bytes_needed(f: ShaderType) -> nat {
    match f {
        ShaderType::Unknown => 0,
        ShaderType::Diffuse => 48,
        ShaderType::Decal => 48,
        ShaderType::SelfIllum => 20,
        ShaderType::ColorDecal => 12,
        ShaderType::ConesteppedDecal => 116,
        ShaderType::Meter => 32,
    }
}

/// The error classifying `mat` meets: its handler reads past its constants.
pub open spec fn classify_error(mat: MaterialTag) -> Option<DecodeError> {
    if constants_of(mat).len() < bytes_needed(family_of(mat)) {
        Some(DecodeError::MalformedRecord)
    } else {
        None
    }
}

pub open spec fn diffuse_spec(c: Seq<u8>) -> DiffuseInfo {
    DiffuseInfo {
        metallic_white: f32_at(c, 0),
        metallic_black: f32_at(c, 4),
        roughness_white: f32_at(c, 8),
        roughness_black: f32_at(c, 12),
        si_color_tint: vec3_at(c, 16),
        si_intensity: f32_at(c, 28),
        si_amount: f32_at(c, 32),
        color_tint: vec3_at(c, 36),
    }
}

pub open spec fn decal_spec(c: Seq<u8>) -> DecalSlot {
    DecalSlot {
        top_color: vec3_at(c, 0),
        mid_color: vec3_at(c, 12),
        bot_color: vec3_at(c, 24),
        roughness_white: f32_at(c, 36),
        roughness_black: f32_at(c, 40),
        metallic: f32_at(c, 44),
    }
}

pub open spec fn illum_spec(c: Seq<u8>) -> SelfIllum {
    SelfIllum { color: vec3_at(c, 0), intensity: f32_at(c, 12), opacity: f32_at(c, 16) }
}

pub open spec fn color_decal_spec(c: Seq<u8>) -> ColorDecal {
    ColorDecal { opacity: f32_at(c, 0), metallic: f32_at(c, 4), roughness: f32_at(c, 8) }
}

pub open spec fn conestepped_spec(c: Seq<u8>) -> ConesteppedDecal {
    ConesteppedDecal {
        parallax_depth: f32_at(c, 0),
        parallax_height_offset: f32_at(c, 4),
        normal_intensity: f32_at(c, 112),
    }
}

pub open spec fn meter_spec(c: Seq<u8>) -> Meter {
    Meter {
        meter_off_color: vec3_at(c, 0),
        meter_on_color: vec3_at(c, 12),
        meter_value: f32_at(c, 24),
        meter_intensity: f32_at(c, 28),
    }
}

/// The bitmap bound by the texture index at byte `off` of the constants:
/// the post-processing texture at that index, where there is one.
pub open spec fn binding(pp: MaterialPostProcessing, c: Seq<u8>, off: int) -> Option<i32> {
    let idx = le_at(c, off, 4);
    if idx < pp.textures@.len() {
        Some(pp.textures@[idx as int].bitmap_reference)
    } else {
        None
    }
}

pub open spec fn push_binding(
    ts: Seq<(TextureType, i32)>,
    kind: TextureType,
    b: Option<i32>,
) -> Seq<(TextureType, i32)> {
    match b {
        Some(id) => ts.push((kind, id)),
        None => ts,
    }
}

/// The texture bindings a classified material gets.
pub open spec fn textures_spec(mat: MaterialTag) -> Seq<(TextureType, i32)> {
    if family_of(mat) == ShaderType::ConesteppedDecal {
        let pp = mat.post_process_definition@[0];
        let c = constants_of(mat);
        push_binding(
            push_binding(
                push_binding(Seq::empty(), TextureType::MacroConemap, binding(pp, c, 20)),
                TextureType::Control,
                binding(pp, c, 48),
            ),
            TextureType::Normal,
            binding(pp, c, 80),
        )
    } else {
        Seq::empty()
    }
}

/// `m` is the classification of `mat`.
pub open spec fn classified(mat: MaterialTag, m: Material) -> bool {
    let f = family_of(mat);
    let c = constants_of(mat);
    &&& m.shader == mat.material_shader
    &&& m.material_constants@ == c
    &&& m.alpha_blend_mode == mat.alpha_blend_mode
    &&& m.style_info == style_of(mat)
    &&& m.shader_type == f
    &&& m.textures@ == textures_spec(mat)
    &&& m.diffuse_info == if f == ShaderType::Diffuse {
        Some(diffuse_spec(c))
    } else {
        None
    }
    &&& m.decal_slots == if f == ShaderType::Decal {
        Some(decal_spec(c))
    } else {
        None
    }
    &&& m.illum_info == if f == ShaderType::SelfIllum {
        Some(illum_spec(c))
    } else {
        None
    }
    &&& m.color_decal == if f == ShaderType::ColorDecal {
        Some(color_decal_spec(c))
    } else {
        None
    }
    &&& m.conestepped_decal == if f == ShaderType::ConesteppedDecal {
        Some(conestepped_spec(c))
    } else {
        None
    }
    &&& m.meter == if f == ShaderType::Meter {
        Some(meter_spec(c))
    } else {
        None
    }
}

/// The constant registers of the first post-processing definition, as bytes.
fn collect_constants(mat: &MaterialTag) -> (r: Vec<u8>)
    ensures
        r@ == constants_of(*mat),
{
    let mut out: Vec<u8> = Vec::new();
    if mat.post_process_definition.len() == 0 {
        return out;
    }
    let rs = &mat.post_process_definition[0].material_constants;
    let mut k: usize = 0;
    while k < rs.len()
        invariant
            k <= rs@.len(),
            out@ == registers_bytes(rs@.subrange(0, k as int)),
        decreases rs@.len() - k,
    {
        let r = rs[k].register;
        push_le(&mut out, r.x as u64, 4);
        push_le(&mut out, r.y as u64, 4);
        push_le(&mut out, r.z as u64, 4);
        push_le(&mut out, r.w as u64, 4);
        assert(rs@.subrange(0, k + 1).drop_last() =~= rs@.subrange(0, k as int));
        assert(out@ =~= registers_bytes(rs@.subrange(0, k as int)) + register_bytes(rs@[k as int]));
        k = k + 1;
    }
    assert(rs@.subrange(0, k as int) =~= rs@);
    out
}

/// The single-precision value (as raw bits) at byte `off` of `c`.
fn float_at(c: &Vec<u8>, off: usize) -> (r: u32)
    requires
        off + 4 <= c@.len(),
    ensures
        r == f32_at(c@, off as int),
{
    proof {
        lemma_le_value_bound(c@.subrange(off as int, off + 4));
        lemma_pow256_values();
    }
    read_le(c, off, 4) as u32
}

fn vec3(c: &Vec<u8>, off: usize) -> (r: Float3)
    requires
        off + 12 <= c@.len(),
    ensures
        r == vec3_at(c@, off as int),
{
    let len = c.len();
    Float3 { x: float_at(c, off), y: float_at(c, off + 4), z: float_at(c, off + 8) }
}

/// The bitmap bound by the texture index at byte `off` of `c`.
fn bind(pp: &MaterialPostProcessing, c: &Vec<u8>, off: usize) -> (r: Option<i32>)
    requires
        off + 4 <= c@.len(),
    ensures
        r == binding(*pp, c@, off as int),
{
    let idx = read_le(c, off, 4);
    if idx < pp.textures.len() as u64 {
        Some(pp.textures[idx as usize].bitmap_reference)
    } else {
        None
    }
}

fn push_bound(ts: &mut Vec<(TextureType, i32)>, kind: TextureType, b: Option<i32>)
    ensures
        final(ts)@ == push_binding(old(ts)@, kind, b),
{
    match b {
        Some(id) => ts.push((kind, id)),
        None => {},
    }
}

/// The style information of the first style entry.
fn style_info_of(mat: &MaterialTag) -> (r: Option<StyleInfo>)
    ensures
        r == style_of(*mat),
{
    if mat.style_info.len() == 0 {
        return None;
    }
    let s = mat.style_info[0];
    Some(
        StyleInfo {
            stylelist: s.material_style,
            region_name: s.region_name,
            base_intention: s.base_intention,
            mask0_red_intention: s.mask0_red_channel_intention,
            mask0_green_intention: s.mask0_green_channel_intention,
            mask0_blue_intention: s.mask0_blue_channel_intention,
            mask1_red_intention: s.mask1_red_channel_intention,
            mask1_green_intention: s.mask1_green_channel_intention,
            mask1_blue_intention: s.mask1_blue_channel_intention,
            supported_layers: s.supported_layers.raw(),
            enable_damage: s.requires_damage == MaterialStyleShaderSupportsDamageEnum::Yes,
        },
    )
}

/// The cone-stepped decal handler. Where the material has a post-processing
/// definition, it reads the parallax depth and height offset at bytes 0 and
/// 4 of the constants and the normal intensity at byte 112, binds the bitmaps
/// named by the texture indices at bytes 20, 48 and 80 of the first
/// definition, and marks the material a cone-stepped decal. Constants too
/// short for these reads make the record malformed, and nothing is written.
/// Without a post-processing definition the material is left as it is.
fn handle_conestepped_decal(mat: &MaterialTag, m: &mut Material) -> (r: Result<(), DecodeError>)
    ensures
        mat.post_process_definition@.len() == 0 ==> r is Ok && *final(m) == *old(m),
        mat.post_process_definition@.len() > 0 && old(m).material_constants@.len() < 116 ==> r
            == Err::<(), DecodeError>(DecodeError::MalformedRecord) && *final(m) == *old(m),
        mat.post_process_definition@.len() > 0 && old(m).material_constants@.len() >= 116 ==> {
            let pp = mat.post_process_definition@[0];
            let c = old(m).material_constants@;
            &&& r is Ok
            &&& final(m).conestepped_decal == Some(conestepped_spec(c))
            &&& final(m).shader_type == ShaderType::ConesteppedDecal
            &&& final(m).textures@ == push_binding(
                push_binding(
                    push_binding(old(m).textures@, TextureType::MacroConemap, binding(pp, c, 20)),
                    TextureType::Control,
                    binding(pp, c, 48),
                ),
                TextureType::Normal,
                binding(pp, c, 80),
            )
            &&& final(m).shader == old(m).shader
            &&& final(m).alpha_blend_mode == old(m).alpha_blend_mode
            &&& final(m).style_info == old(m).style_info
            &&& final(m).diffuse_info == old(m).diffuse_info
            &&& final(m).illum_info == old(m).illum_info
            &&& final(m).decal_slots == old(m).decal_slots
            &&& final(m).color_decal == old(m).color_decal
            &&& final(m).meter == old(m).meter
            &&& final(m).material_constants == old(m).material_constants
        },
{
    if mat.post_process_definition.len() == 0 {
        return Ok(());
    }
    if m.material_constants.len() < 116 {
        return Err(DecodeError::MalformedRecord);
    }
    let pp = &mat.post_process_definition[0];
    let decal = ConesteppedDecal {
        parallax_depth: float_at(&m.material_constants, 0),
        parallax_height_offset: float_at(&m.material_constants, 4),
        normal_intensity: float_at(&m.material_constants, 112),
    };
    let conemap = bind(pp, &m.material_constants, 20);
    let control = bind(pp, &m.material_constants, 48);
    let normal = bind(pp, &m.material_constants, 80);
    push_bound(&mut m.textures, TextureType::MacroConemap, conemap);
    push_bound(&mut m.textures, TextureType::Control, control);
    push_bound(&mut m.textures, TextureType::Normal, normal);
    m.conestepped_decal = Some(decal);
    m.shader_type = ShaderType::ConesteppedDecal;
    Ok(())
}

/// Classifies a material: its shader ID selects a family handler from a
/// fixed table, which reads the family's values at fixed offsets of the
/// constant registers; an ID outside the table leaves the family unknown
/// with only the generic fields filled in. A handler that would read past
/// the constants makes the record malformed.
pub fn classify(mat: &MaterialTag) -> (r: Result<Material, DecodeError>)
    ensures
        match r {
            Ok(m) => classify_error(*mat) is None && classified(*mat, m),
            Err(e) => classify_error(*mat) == Some(e),
        },
{
    let c = collect_constants(mat);
    let chosen = family_for(mat.material_shader);
    let need: usize = match chosen {
        ShaderType::Unknown => 0,
        ShaderType::Diffuse => 48,
        ShaderType::Decal => 48,
        ShaderType::SelfIllum => 20,
        ShaderType::ColorDecal => 12,
        ShaderType::ConesteppedDecal => 0,
        ShaderType::Meter => 32,
    };
    if c.len() < need {
        return Err(DecodeError::MalformedRecord);
    }
    let mut m = Material {
        shader: mat.material_shader,
        textures: Vec::new(),
        shader_type: if chosen == ShaderType::ConesteppedDecal {
            ShaderType::Unknown
        } else {
            chosen
        },
        alpha_blend_mode: mat.alpha_blend_mode,
        style_info: style_info_of(mat),
        diffuse_info: None,
        illum_info: None,
        decal_slots: None,
        color_decal: None,
        conestepped_decal: None,
        meter: None,
        material_constants: c,
    };
    match chosen {
        ShaderType::Unknown => {},
        ShaderType::Diffuse => {
            let c = &m.material_constants;
            let d = DiffuseInfo {
                metallic_white: float_at(c, 0),
                metallic_black: float_at(c, 4),
                roughness_white: float_at(c, 8),
                roughness_black: float_at(c, 12),
                si_color_tint: vec3(c, 16),
                si_intensity: float_at(c, 28),
                si_amount: float_at(c, 32),
                color_tint: vec3(c, 36),
            };
            m.diffuse_info = Some(d);
        },
        ShaderType::Decal => {
            let c = &m.material_constants;
            let d = DecalSlot {
                top_color: vec3(c, 0),
                mid_color: vec3(c, 12),
                bot_color: vec3(c, 24),
                roughness_white: float_at(c, 36),
                roughness_black: float_at(c, 40),
                metallic: float_at(c, 44),
            };
            m.decal_slots = Some(d);
        },
        ShaderType::SelfIllum => {
            let c = &m.material_constants;
            let d = SelfIllum { color: vec3(c, 0), intensity: float_at(c, 12), opacity: float_at(c, 16) };
            m.illum_info = Some(d);
        },
        ShaderType::ColorDecal => {
            let c = &m.material_constants;
            let d = ColorDecal {
                opacity: float_at(c, 0),
                metallic: float_at(c, 4),
                roughness: float_at(c, 8),
            };
            m.color_decal = Some(d);
        },
        ShaderType::ConesteppedDecal => {
            match handle_conestepped_decal(mat, &mut m) {
                Ok(()) => {},
                Err(e) => {
                    return Err(e);
                },
            }
        },
        ShaderType::Meter => {
            let c = &m.material_constants;
            let d = Meter {
                meter_off_color: vec3(c, 0),
                meter_on_color: vec3(c, 12),
                meter_value: float_at(c, 24),
                meter_intensity: float_at(c, 28),
            };
            m.meter = Some(d);
        },
    }
    Ok(m)
}

/// The texture bindings of the first `n` materials that classify.
pub open spec fn all_textures(mats: Seq<(i32, MaterialTag)>, n: int) -> Seq<(TextureType, i32)>
    decreases n,
{
    if n <= 0 || n > mats.len() {
        Seq::empty()
    } else {
        let before = all_textures(mats, n - 1);
        if classify_error(mats[n - 1].1) is None {
            before + textures_spec(mats[n - 1].1)
        } else {
            before
        }
    }
}

/// Classifies each material, keyed by its tag ID, and gathers the texture
/// bindings of all that classify. A material that fails to classify keeps
/// its error and adds no bindings; the others go on.
pub fn process_materials(mats: &KeyedList<MaterialTag>) -> (r: (
    Vec<(i32, Result<Material, DecodeError>)>,
    Vec<(TextureType, i32)>,
))
    ensures
        r.0@.len() == mats@.len(),
        forall|i: int|
            0 <= i < mats@.len() ==> {
                &&& (#[trigger] r.0@[i]).0 == mats@[i].0
                &&& match r.0@[i].1 {
                    Ok(m) => classify_error(mats@[i].1) is None && classified(mats@[i].1, m),
                    Err(e) => classify_error(mats@[i].1) == Some(e),
                }
            },
        r.1@ == all_textures(mats@, mats@.len() as int),
{
    let mut out: Vec<(i32, Result<Material, DecodeError>)> = Vec::new();
    let mut textures: Vec<(TextureType, i32)> = Vec::new();
    let mut i: usize = 0;
    while i < mats.len()
        invariant
            i <= mats@.len(),
            out@.len() == i,
            forall|k: int|
                0 <= k < i ==> {
                    &&& (#[trigger] out@[k]).0 == mats@[k].0
                    &&& match out@[k].1 {
                        Ok(m) => classify_error(mats@[k].1) is None && classified(mats@[k].1, m),
                        Err(e) => classify_error(mats@[k].1) == Some(e),
                    }
                },
            textures@ == all_textures(mats@, i as int),
        decreases mats@.len() - i,
    {
        let e = mats.entry(i);
        let (id, mat) = (e.0, &e.1);
        let res = classify(mat);
        if let Ok(m) = &res {
            let mut k: usize = 0;
            let ghost start = textures@;
            while k < m.textures.len()
                invariant
                    k <= m.textures@.len(),
                    textures@ == start + m.textures@.subrange(0, k as int),
                decreases m.textures@.len() - k,
            {
                textures.push(m.textures[k]);
                k = k + 1;
                assert(textures@ =~= start + m.textures@.subrange(0, k as int));
            }
            assert(m.textures@.subrange(0, k as int) =~= m.textures@);
        }
        out.push((id, res));
        i = i + 1;
    }
    (out, textures)
}

/// A material whose shader ID is in the diffuse table (and whose constants
/// hold what the handler reads) is classified diffuse, its metallic white
/// value read at byte 0 of its constants; one whose shader ID is in no
/// table is classified unknown, with no family values and no texture bindings.
pub proof fn lemma_shader_classification(mat: MaterialTag, m: Material)
    requires
        classify_error(mat) is None,
        classified(mat, m),
    ensures
        family_spec(mat.material_shader) == ShaderType::Diffuse ==> {
            &&& m.shader_type == ShaderType::Diffuse
            &&& m.diffuse_info matches Some(d)
            &&& d.metallic_white == f32_at(constants_of(mat), 0)
        },
        family_spec(mat.material_shader) == ShaderType::Unknown ==> {
            &&& m.shader_type == ShaderType::Unknown
            &&& m.diffuse_info is None
            &&& m.decal_slots is None
            &&& m.illum_info is None
            &&& m.color_decal is None
            &&& m.conestepped_decal is None
            &&& m.meter is None
            &&& m.textures@.len() == 0
        },
{
}

/// A material whose shader ID is in the diffuse table and whose constants
/// hold at least the 48 bytes the diffuse handler reads classifies without
/// error; with `process_materials`' contract, its entry is then `Ok`, of the
/// diffuse family, with its metallic white value read at byte 0.
pub proof fn lemma_diffuse_constants_suffice(mat: MaterialTag)
    requires
        family_spec(mat.material_shader) == ShaderType::Diffuse,
        constants_of(mat).len() >= 48,
    ensures
        classify_error(mat) is None,
        family_of(mat) == ShaderType::Diffuse,
{
}

} // verus!
