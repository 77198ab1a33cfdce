use ekur::codec_laws::encode_field;
use ekur::decode::{decode, DecodeError, FieldValue};
use ekur::schema::{FieldKind, FieldSpec, SchemaSet, TagSchema};

fn field(name: &str, offset: usize, size: usize, kind: FieldKind) -> FieldSpec {
    FieldSpec { name: name.to_string(), offset, size, kind }
}

/// A record of 24 bytes: an unsigned u16, a signed i32, a float, an enum of
/// three variants, a string ID, and a block of 2-byte elements; elements
/// hold one unsigned byte and one signed byte.
fn sample_schemas() -> SchemaSet {
    let outer = TagSchema {
        type_code: 0x2074_616d,
        size: 24,
        fields: vec![
            field("count", 0, 2, FieldKind::Int { width: 2, signed: false }),
            field("delta", 2, 4, FieldKind::Int { width: 4, signed: true }),
            field("scale", 6, 4, FieldKind::Float),
            field("mode", 10, 1, FieldKind::Enum { width: 1, variants: 3 }),
            field("label", 11, 4, FieldKind::StringId),
            field("items", 15, 8, FieldKind::Block { schema: 1 }),
        ],
    };
    let inner = TagSchema {
        type_code: 0,
        size: 2,
        fields: vec![
            field("a", 0, 1, FieldKind::Int { width: 1, signed: false }),
            field("b", 1, 1, FieldKind::Int { width: 1, signed: true }),
        ],
    };
    SchemaSet { schemas: vec![outer, inner] }
}

fn sample_buffer() -> Vec<u8> {
    let mut b = Vec::new();
    b.extend_from_slice(&0x1234u16.to_le_bytes());
    b.extend_from_slice(&(-5i32).to_le_bytes());
    b.extend_from_slice(&1.5f32.to_bits().to_le_bytes());
    b.push(2);
    b.extend_from_slice(&(-7i32).to_le_bytes());
    b.extend_from_slice(&2u32.to_le_bytes());
    b.extend_from_slice(&24u32.to_le_bytes());
    b.push(0);
    b.extend_from_slice(&[9, 0xff, 10, 0x80]);
    b
}

#[test]
fn schema_check_accepts_sample_and_rejects_overlap() {
    assert!(sample_schemas().check());
    let mut bad = sample_schemas();
    bad.schemas[0].fields[1].offset = 1;
    assert!(!bad.check());
    let mut backwards = sample_schemas();
    backwards.schemas[0].fields[5].kind = FieldKind::Block { schema: 0 };
    assert!(!backwards.check());
}

#[test]
fn decode_reads_every_kind() {
    let set = sample_schemas();
    let buf = sample_buffer();
    let tag = decode(&set, 0, 77, &buf).unwrap();
    assert_eq!(tag.global_id, 77);
    assert_eq!(tag.type_code, 0x2074_616d);
    let f = &tag.record.fields;
    assert!(matches!(f[0], FieldValue::Unsigned(0x1234)));
    assert!(matches!(f[1], FieldValue::Signed(-5)));
    match f[2] {
        FieldValue::Float(bits) => assert_eq!(f32::from_bits(bits), 1.5),
        _ => panic!("not a float"),
    }
    assert!(matches!(f[3], FieldValue::Enum(2)));
    assert!(matches!(f[4], FieldValue::StringId(-7)));
    match &f[5] {
        FieldValue::Block(b) => {
            assert_eq!(b.count, 2);
            assert_eq!(b.pointer, 24);
            assert_eq!(b.elements.len(), 2);
            assert!(matches!(b.elements[0].fields[0], FieldValue::Unsigned(9)));
            assert!(matches!(b.elements[0].fields[1], FieldValue::Signed(-1)));
            assert!(matches!(b.elements[1].fields[0], FieldValue::Unsigned(10)));
            assert!(matches!(b.elements[1].fields[1], FieldValue::Signed(-128)));
        }
        _ => panic!("not a block"),
    }
}

#[test]
fn reencoding_decoded_fields_gives_back_their_bytes() {
    let set = sample_schemas();
    let buf = sample_buffer();
    let tag = decode(&set, 0, 1, &buf).unwrap();
    for (spec, value) in set.schemas[0].fields.iter().zip(tag.record.fields.iter()) {
        let bytes = encode_field(spec, value).unwrap();
        assert_eq!(bytes, buf[spec.offset..spec.offset + spec.size].to_vec());
    }
}

#[test]
fn encode_refuses_a_value_of_another_kind() {
    let spec = field("x", 0, 4, FieldKind::Float);
    assert!(encode_field(&spec, &FieldValue::StringId(3)).is_none());
    let small = field("y", 0, 1, FieldKind::Int { width: 1, signed: false });
    assert!(encode_field(&small, &FieldValue::Unsigned(256)).is_none());
    assert_eq!(encode_field(&small, &FieldValue::Unsigned(255)), Some(vec![255]));
}

#[test]
fn enum_value_outside_variants_is_unknown_enum_value() {
    let set = sample_schemas();
    let mut buf = sample_buffer();
    buf[10] = 3;
    assert_eq!(decode(&set, 0, 1, &buf).err(), Some(DecodeError::UnknownEnumValue(3)));
    buf[10] = 200;
    assert_eq!(decode(&set, 0, 1, &buf).err(), Some(DecodeError::UnknownEnumValue(200)));
}

#[test]
fn short_buffer_is_malformed() {
    let set = sample_schemas();
    let buf = sample_buffer();
    assert_eq!(decode(&set, 0, 1, &buf[..20].to_vec()).err(), Some(DecodeError::MalformedRecord));
}

#[test]
fn block_run_outside_buffer_is_malformed() {
    let set = sample_schemas();
    let mut buf = sample_buffer();
    buf[15] = 3;
    assert_eq!(decode(&set, 0, 1, &buf).err(), Some(DecodeError::MalformedRecord));
}

#[test]
fn empty_block_is_valid() {
    let set = sample_schemas();
    let mut buf = sample_buffer();
    buf[15] = 0;
    buf[19] = 0xff;
    buf[20] = 0xff;
    let tag = decode(&set, 0, 1, &buf[..24].to_vec()).unwrap();
    match &tag.record.fields[5] {
        FieldValue::Block(b) => assert!(b.elements.is_empty()),
        _ => panic!("not a block"),
    }
}
