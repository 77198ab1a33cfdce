use ekur::decode::{decode, DecodeError};
use ekur::keyed::KeyedList;
use ekur::material_layout::{material_from_record, material_schemas, MATERIAL_SCHEMA, MATERIAL_TYPE_CODE};
use ekur::enums::{
    AlphaMode, MaterialParameterType, MaterialStyleShaderSupportedLayers,
    MaterialStyleShaderSupportsDamageEnum, TextureType,
};
use ekur::material::{
    classify, family_for, process_materials, Float4, MaterialConstant, MaterialPostProcessTexture,
    MaterialPostProcessing, MaterialStyleInfo, MaterialTag, ShaderType,
};

fn reg(a: f32, b: f32, c: f32, d: f32) -> MaterialConstant {
    MaterialConstant { register: Float4 { x: a.to_bits(), y: b.to_bits(), z: c.to_bits(), w: d.to_bits() } }
}

fn raw_reg(a: u32, b: u32, c: u32, d: u32) -> MaterialConstant {
    MaterialConstant { register: Float4 { x: a, y: b, z: c, w: d } }
}

fn material(shader: i32, constants: Vec<MaterialConstant>, textures: Vec<i32>) -> MaterialTag {
    MaterialTag {
        material_shader: shader,
        material_parameters: vec![],
        post_process_definition: vec![MaterialPostProcessing {
            textures: textures
                .into_iter()
                .map(|b| MaterialPostProcessTexture { bitmap_reference: b, parameter_index: 0 })
                .collect(),
            material_constants: constants,
        }],
        alpha_blend_mode: AlphaMode::AlphaBlend,
        style_info: vec![],
    }
}

fn diffuse_constants() -> Vec<MaterialConstant> {
    vec![
        reg(1.0, 0.5, 0.25, 0.125),
        reg(0.1, 0.2, 0.3, 2.0),
        reg(3.0, 0.4, 0.5, 0.6),
    ]
}

#[test]
fn diffuse_shader_reads_its_values() {
    let m = classify(&material(1102829229, diffuse_constants(), vec![])).unwrap();
    assert_eq!(m.shader_type, ShaderType::Diffuse);
    let d = m.diffuse_info.unwrap();
    assert_eq!(f32::from_bits(d.metallic_white), 1.0);
    assert_eq!(f32::from_bits(d.metallic_black), 0.5);
    assert_eq!(f32::from_bits(d.roughness_black), 0.125);
    assert_eq!(f32::from_bits(d.si_color_tint.z), 0.3);
    assert_eq!(f32::from_bits(d.si_intensity), 2.0);
    assert_eq!(f32::from_bits(d.color_tint.x), 0.4);
    assert!(m.decal_slots.is_none());
    assert_eq!(m.material_constants.len(), 48);
    assert_eq!(m.material_constants[0..4].to_vec(), 1.0f32.to_bits().to_le_bytes().to_vec());
    assert_eq!(m.shader, 1102829229);
}

#[test]
fn unmapped_shader_is_unknown_with_generic_fields_only() {
    let mut tag = material(12345, diffuse_constants(), vec![7]);
    tag.style_info.push(MaterialStyleInfo {
        material_style: 40,
        material_style_tag: 41,
        region_name: 42,
        base_intention: 43,
        mask0_red_channel_intention: 44,
        mask0_green_channel_intention: 45,
        mask0_blue_channel_intention: 46,
        mask1_red_channel_intention: 47,
        mask1_green_channel_intention: 48,
        mask1_blue_channel_intention: 49,
        supported_layers: MaterialStyleShaderSupportedLayers::Supports7Layers,
        requires_damage: MaterialStyleShaderSupportsDamageEnum::Yes,
    });
    let m = classify(&tag).unwrap();
    assert_eq!(m.shader_type, ShaderType::Unknown);
    assert!(m.diffuse_info.is_none());
    assert!(m.decal_slots.is_none());
    assert!(m.illum_info.is_none());
    assert!(m.color_decal.is_none());
    assert!(m.conestepped_decal.is_none());
    assert!(m.meter.is_none());
    assert!(m.textures.is_empty());
    assert_eq!(m.alpha_blend_mode, AlphaMode::AlphaBlend);
    let s = m.style_info.unwrap();
    assert_eq!(s.stylelist, 40);
    assert_eq!(s.mask1_blue_intention, 49);
    assert_eq!(s.supported_layers, 2);
    assert!(s.enable_damage);
}

#[test]
fn handler_reading_past_the_constants_is_malformed() {
    let tag = material(-648442023, vec![reg(1.0, 1.0, 1.0, 1.0)], vec![]);
    assert_eq!(classify(&tag).err(), Some(DecodeError::MalformedRecord));
}

#[test]
fn conestepped_decal_binds_textures_by_index() {
    let mut constants = vec![reg(0.75, 0.25, 0.0, 0.0)];
    constants.push(raw_reg(0, 1, 0, 0));
    constants.push(raw_reg(0, 0, 0, 0));
    constants.push(raw_reg(0, 0, 0, 0));
    constants.push(raw_reg(0, 0, 0, 0));
    constants.push(raw_reg(5, 0, 0, 0));
    constants.push(raw_reg(0, 0, 0, 0));
    constants.push(reg(4.0, 0.0, 0.0, 0.0));
    let tag = material(-557915351, constants, vec![100, 200]);
    let m = classify(&tag).unwrap();
    assert_eq!(m.shader_type, ShaderType::ConesteppedDecal);
    let c = m.conestepped_decal.unwrap();
    assert_eq!(f32::from_bits(c.parallax_depth), 0.75);
    assert_eq!(f32::from_bits(c.parallax_height_offset), 0.25);
    assert_eq!(f32::from_bits(c.normal_intensity), 4.0);
    assert_eq!(m.textures, vec![(TextureType::MacroConemap, 200), (TextureType::Control, 100)]);
}

#[test]
fn conestepped_decal_without_post_processing_stays_unknown() {
    let mut tag = material(-557915351, vec![], vec![]);
    tag.post_process_definition.clear();
    let m = classify(&tag).unwrap();
    assert_eq!(m.shader_type, ShaderType::Unknown);
    assert!(m.conestepped_decal.is_none());
}

#[test]
fn family_table_groups_ids() {
    assert_eq!(family_for(-1492085200), ShaderType::Diffuse);
    assert_eq!(family_for(-2003821059), ShaderType::Decal);
    assert_eq!(family_for(2006960401), ShaderType::SelfIllum);
    assert_eq!(family_for(1081175655), ShaderType::ColorDecal);
    assert_eq!(family_for(-648442023), ShaderType::Meter);
    assert_eq!(family_for(0), ShaderType::Unknown);
}

#[test]
fn processing_keeps_going_past_a_bad_material() {
    let mut consts = vec![reg(0.0, 0.0, 0.0, 0.0); 7];
    consts[1] = raw_reg(0, 0, 0, 0);
    consts.push(reg(1.0, 0.0, 0.0, 0.0));
    let mut mats = KeyedList::new();
    mats.insert(1, material(-648442023, vec![], vec![]));
    mats.insert(2, material(-557915351, consts, vec![55]));
    let (results, textures) = process_materials(&mats);
    assert_eq!(results.len(), 2);
    assert_eq!(results[0].0, 1);
    assert_eq!(results[0].1.as_ref().err(), Some(&DecodeError::MalformedRecord));
    assert!(results[1].1.is_ok());
    assert_eq!(
        textures,
        vec![(TextureType::MacroConemap, 55), (TextureType::Control, 55), (TextureType::Normal, 55)]
    );
}

#[test]
fn enums_convert_from_raw_values() {
    assert_eq!(AlphaMode::from_raw(0), Some(AlphaMode::Opaque));
    assert_eq!(AlphaMode::from_raw(71), Some(AlphaMode::HudDamageAlphaBlend));
    assert_eq!(AlphaMode::from_raw(72), None);
    assert_eq!(AlphaMode::HudDamageAlphaBlend.raw(), 71);
    assert_eq!(MaterialParameterType::from_raw(8), Some(MaterialParameterType::Preset));
    assert_eq!(MaterialParameterType::from_raw(9), None);
    assert_eq!(MaterialStyleShaderSupportedLayers::from_raw(4), None);
    assert_eq!(MaterialStyleShaderSupportsDamageEnum::from_raw(1), Some(MaterialStyleShaderSupportsDamageEnum::Yes));
    assert_eq!(TextureType::from_raw(26), Some(TextureType::Cubemap));
    assert_eq!(TextureType::from_raw(27), None);
}

fn put(buf: &mut Vec<u8>, at: usize, bytes: &[u8]) {
    buf[at..at + bytes.len()].copy_from_slice(bytes);
}

#[test]
fn decoded_material_bytes_read_and_classify() {
    let set = material_schemas();
    assert!(set.check());
    let mut buf = vec![0u8; 0x190];
    put(&mut buf, 0x10, &0x6873_6d72u32.to_le_bytes());
    put(&mut buf, 0x14, &1102829229i32.to_le_bytes());
    put(&mut buf, 0x40, &1u32.to_le_bytes());
    put(&mut buf, 0x44, &0x88u32.to_le_bytes());
    buf[0x68] = 3;
    put(&mut buf, 0x88, &1u32.to_le_bytes());
    put(&mut buf, 0x8C, &0x128u32.to_le_bytes());
    put(&mut buf, 0x88 + 0x58, &3u32.to_le_bytes());
    put(&mut buf, 0x88 + 0x5C, &0x160u32.to_le_bytes());
    put(&mut buf, 0x128 + 4, &777i32.to_le_bytes());
    put(&mut buf, 0x128 + 0x2A, &5i16.to_le_bytes());
    let floats = [1.0f32, 0.5, 0.25, 0.125, 0.0, 0.0, 0.0, 0.0, 0.0, 0.0, 0.0, 0.0];
    for (i, x) in floats.iter().enumerate() {
        put(&mut buf, 0x160 + 4 * i, &x.to_bits().to_le_bytes());
    }
    let tag = decode(&set, MATERIAL_SCHEMA, 42, &buf).unwrap();
    assert_eq!(tag.type_code, MATERIAL_TYPE_CODE);
    let mat = material_from_record(&tag.record).unwrap();
    assert_eq!(mat.material_shader, 1102829229);
    assert_eq!(mat.alpha_blend_mode, AlphaMode::AlphaBlend);
    assert_eq!(mat.post_process_definition.len(), 1);
    assert_eq!(mat.post_process_definition[0].textures[0].bitmap_reference, 777);
    assert_eq!(mat.post_process_definition[0].textures[0].parameter_index, 5);
    assert_eq!(mat.post_process_definition[0].material_constants.len(), 3);
    let m = classify(&mat).unwrap();
    assert_eq!(m.shader_type, ShaderType::Diffuse);
    assert_eq!(f32::from_bits(m.diffuse_info.unwrap().metallic_white), 1.0);
    assert_eq!(f32::from_bits(m.diffuse_info.unwrap().metallic_black), 0.5);
}

#[test]
fn material_record_with_invalid_blend_mode_is_refused_by_decoding() {
    let set = material_schemas();
    let mut buf = vec![0u8; 0x88];
    buf[0x68] = 72;
    assert_eq!(decode(&set, MATERIAL_SCHEMA, 1, &buf).err(), Some(DecodeError::UnknownEnumValue(72)));
}

#[test]
fn keyed_list_replaces_in_place() {
    let mut l = KeyedList::new();
    l.insert(5, "a");
    l.insert(7, "b");
    l.insert(5, "c");
    assert_eq!(l.len(), 2);
    assert_eq!(*l.entry(0), (5, "c"));
    assert_eq!(*l.entry(1), (7, "b"));
    assert_eq!(l.position(7), Some(1));
    assert_eq!(l.position(9), None);
}

#[test]
fn conestepped_decal_with_short_constants_is_malformed() {
    let tag = material(-557915351, vec![reg(1.0, 1.0, 1.0, 1.0)], vec![1]);
    assert_eq!(classify(&tag).err(), Some(DecodeError::MalformedRecord));
}
