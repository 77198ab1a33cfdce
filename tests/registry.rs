use ekur::decode::{DecodeError, FieldValue};
use ekur::registry::{Archive, ArchiveRecord, ModuleRegistry};
use ekur::resolve::{reference_at, resolve, ResolvedReference};
use ekur::schema::{FieldKind, FieldSpec, SchemaSet, TagSchema};

const MAT: u32 = 0x2074_616d;
const BITM: u32 = 0x6d74_6962;

/// Materials hold a value and a reference to a bitmap; bitmaps hold a value.
fn schemas() -> SchemaSet {
    let mat = TagSchema {
        type_code: MAT,
        size: 12,
        fields: vec![
            FieldSpec {
                name: "value".to_string(),
                offset: 0,
                size: 4,
                kind: FieldKind::Int { width: 4, signed: false },
            },
            FieldSpec { name: "bitmap".to_string(), offset: 4, size: 8, kind: FieldKind::Reference },
        ],
    };
    let bitm = TagSchema {
        type_code: BITM,
        size: 1,
        fields: vec![FieldSpec {
            name: "value".to_string(),
            offset: 0,
            size: 1,
            kind: FieldKind::Enum { width: 1, variants: 4 },
        }],
    };
    SchemaSet { schemas: vec![mat, bitm] }
}

fn mat_bytes(value: u32, target: i32) -> Vec<u8> {
    let mut b = value.to_le_bytes().to_vec();
    b.extend_from_slice(&BITM.to_le_bytes());
    b.extend_from_slice(&target.to_le_bytes());
    b
}

fn record(type_code: u32, global_id: i32, data: Vec<u8>) -> ArchiveRecord {
    ArchiveRecord { type_code, global_id, data }
}

fn registry() -> ModuleRegistry {
    let mut r = ModuleRegistry::new(schemas());
    r.register(Archive {
        records: vec![
            record(MAT, 10, mat_bytes(1, 500)),
            record(MAT, 11, mat_bytes(2, 999)),
            record(BITM, 500, vec![3]),
            record(BITM, 501, vec![9]),
        ],
    });
    r.register(Archive { records: vec![record(MAT, 10, mat_bytes(7, 500)), record(MAT, 12, vec![1])] });
    r
}

#[test]
fn lookup_twice_gives_the_same_handle() {
    let mut r = registry();
    let first = r.lookup(MAT, 10).unwrap().unwrap();
    let second = r.lookup(MAT, 10).unwrap().unwrap();
    assert_eq!(first, second);
    assert!(matches!(r.get(first).record.fields[0], FieldValue::Unsigned(1)));
}

#[test]
fn lookup_of_missing_id_is_none_both_times() {
    let mut r = registry();
    assert_eq!(r.lookup(MAT, 404), Ok(None));
    assert_eq!(r.lookup(MAT, 404), Ok(None));
    assert_eq!(r.lookup(0x1234_5678, 10), Ok(None));
}

#[test]
fn lookup_reports_decode_errors() {
    let mut r = registry();
    assert_eq!(r.lookup(BITM, 501), Err(DecodeError::UnknownEnumValue(9)));
    assert_eq!(r.lookup(MAT, 12), Err(DecodeError::MalformedRecord));
}

#[test]
fn lookup_all_lets_the_last_archive_win_and_skips_bad_tags() {
    let r = registry();
    let all = r.lookup_all(MAT);
    assert_eq!(all.len(), 2);
    assert!(matches!(all[&10].record.fields[0], FieldValue::Unsigned(7)));
    assert!(matches!(all[&11].record.fields[0], FieldValue::Unsigned(2)));
    assert!(!all.contains_key(&12));
    assert!(r.lookup_all(0x1234_5678).is_empty());
}

#[test]
fn resolve_present_and_absent_targets() {
    let mut r = registry();
    let h = r.lookup(MAT, 10).unwrap().unwrap();
    let (group, id) = reference_at(&r.get(h).record, 1).unwrap();
    assert_eq!((group, id), (BITM, 500));
    match resolve(&mut r, group, id) {
        ResolvedReference::Present(t) => assert_eq!(r.get(t).global_id, 500),
        ResolvedReference::Absent(_) => panic!("target exists"),
    }
    let h11 = r.lookup(MAT, 11).unwrap().unwrap();
    let (group, id) = reference_at(&r.get(h11).record, 1).unwrap();
    assert_eq!(resolve(&mut r, group, id), ResolvedReference::Absent(999));
    assert_eq!(reference_at(&r.get(h11).record, 0), None);
    assert_eq!(reference_at(&r.get(h11).record, 5), None);
}
