//! The binary field decoder: a record's bytes and its schema give typed
//! field values, with block elements decoded recursively.
use vstd::prelude::*;
use vstd::arithmetic::div_mod::lemma_fundamental_div_mod;
use crate::bytes::{
    le_value, lemma_le_value_bound, lemma_pow256_values, pow256, to_signed, valid_width, read_le,
};
use crate::schema::{FieldKind, FieldSpec, SchemaSet, TagSchema, field_wf, schema_wf};
use vstd::arithmetic::div_mod::lemma_mod_pos_bound;

verus! {

/// Why a record could not be decoded.
#[derive(PartialEq, Eq, Structural, Debug, Clone, Copy)]
pub enum DecodeError {
    /// The buffer is too short, or a position points outside it.
    MalformedRecord,
    /// An enum-backed field holds a value outside its variant set.
    UnknownEnumValue(u32),
}

/// A stored reference to another tag, resolved later.
pub struct TagReference {
    pub group: u32,
    pub global_id: i32,
    pub extra: Vec<u8>,
}

/// A decoded block: its header and its decoded elements.
pub struct BlockValue {
    pub count: u32,
    pub pointer: u32,
    pub extra: Vec<u8>,
    pub elements: Vec<DecodedRecord>,
}

/// The value of one decoded field.
pub enum FieldValue {
    Unsigned(u64),
    Signed(i64),
    Float(u32),
    Vector(Vec<u32>),
    Color(u8, u8, u8, u8),
    Enum(u32),
    StringId(i32),
    Reference(TagReference),
    Block(BlockValue),
}

/// The field values of one record, in schema order.
pub struct DecodedRecord {
    pub fields: Vec<FieldValue>,
}

/// A decoded tag: its type code, its global ID and its top-level record.
pub struct DecodedTag {
    pub type_code: u32,
    pub global_id: i32,
    pub record: DecodedRecord,
}

/// The `size` bytes of `buf` from `at`.
pub open spec fn span(buf: Seq<u8>, at: int, size: int) -> Seq<u8> {
    buf.subrange(at, at + size)
}

/// The unsigned little-endian value of the `n` bytes of `buf` at `at`.
pub open spec fn le_at(buf: Seq<u8>, at: int, n: int) -> nat {
    le_value(span(buf, at, n))
}

/// The first error met when decoding a record of schema `s` at `base`, if any.
pub open spec fn record_error(sch: Seq<TagSchema>, s: int, buf: Seq<u8>, base: int) -> Option<
    DecodeError,
>
    decreases sch.len() - s, 2int, 0int,
{
    if !(0 <= s < sch.len()) || base < 0 || base + sch[s].size > buf.len() {
        Some(DecodeError::MalformedRecord)
    } else {
        fields_error(sch, s, buf, base, 0)
    }
}

/// The first error met in the fields `i ..` of a record of schema `s` at `base`.
pub open spec fn fields_error(
    sch: Seq<TagSchema>,
    s: int,
    buf: Seq<u8>,
    base: int,
    i: int,
) -> Option<DecodeError>
    decreases sch.len() - s, 1int, sch[s].fields@.len() - i,
{
    if !(0 <= s < sch.len()) || i < 0 || i >= sch[s].fields@.len() {
        None
    } else {
        let f = sch[s].fields@[i];
        let here = field_error(sch, s, f, buf, base + f.offset);
        if here is Some {
            here
        } else {
            fields_error(sch, s, buf, base, i + 1)
        }
    }
}

/// The error met when decoding field `f` (of a record of schema `s`) at `at`, if any.
pub open spec fn field_error(sch: Seq<TagSchema>, s: int, f: FieldSpec, buf: Seq<u8>, at: int) -> Option<
    DecodeError,
>
    decreases sch.len() - s, 0int, 0int,
{
    match f.kind {
        FieldKind::Enum { width, variants } => {
            let raw = le_at(buf, at, width as int);
            if raw >= variants {
                Some(DecodeError::UnknownEnumValue(raw as u32))
            } else {
                None
            }
        },
        FieldKind::Block { schema } => {
            let count = le_at(buf, at, 4);
            let ptr = le_at(buf, at + 4, 4);
            if !(0 <= s < schema < sch.len()) || (count > 0 && ptr + count * sch[schema as int].size
                > buf.len()) {
                Some(DecodeError::MalformedRecord)
            } else {
                elems_error(sch, schema as int, buf, ptr as int, count as int, 0)
            }
        },
        _ => None,
    }
}

/// The first error met in the elements `j .. count` of a run of schema `n` at `ptr`.
pub open spec fn elems_error(
    sch: Seq<TagSchema>,
    n: int,
    buf: Seq<u8>,
    ptr: int,
    count: int,
    j: int,
) -> Option<DecodeError>
    decreases sch.len() - n, 3int, count - j,
{
    if !(0 <= n < sch.len()) || j < 0 || j >= count {
        None
    } else {
        let e = record_error(sch, n, buf, ptr + j * sch[n].size);
        if e is Some {
            e
        } else {
            elems_error(sch, n, buf, ptr, count, j + 1)
        }
    }
}

/// `rec` is the decoding of a record of schema `s` at `base`.
pub open spec fn record_matches(
    sch: Seq<TagSchema>,
    s: int,
    buf: Seq<u8>,
    base: int,
    rec: DecodedRecord,
) -> bool
    decreases sch.len() - s, 1int,
{
    &&& 0 <= s < sch.len()
    &&& rec.fields@.len() == sch[s].fields@.len()
    &&& forall|i: int|
        0 <= i < sch[s].fields@.len() ==> field_matches(
            sch,
            s,
            sch[s].fields@[i],
            buf,
            base + sch[s].fields@[i].offset,
            #[trigger] rec.fields@[i],
        )
}

/// `v` is the decoding of field `f` (of a record of schema `s`) at `at`.
pub open spec fn field_matches(
    sch: Seq<TagSchema>,
    s: int,
    f: FieldSpec,
    buf: Seq<u8>,
    at: int,
    v: FieldValue,
) -> bool
    decreases sch.len() - s, 0int,
{
    match f.kind {
        FieldKind::Int { width, signed } => if signed {
            v == FieldValue::Signed(to_signed(le_at(buf, at, width as int), width as nat) as i64)
        } else {
            v == FieldValue::Unsigned(le_at(buf, at, width as int) as u64)
        },
        FieldKind::Float => v == FieldValue::Float(le_at(buf, at, 4) as u32),
        FieldKind::Vector { components } => match v {
            FieldValue::Vector(ws) => {
                &&& ws@.len() == components
                &&& forall|k: int|
                    0 <= k < components ==> #[trigger] ws@[k] == le_at(buf, at + 4 * k, 4)
            },
            _ => false,
        },
        FieldKind::Color => v == FieldValue::Color(buf[at], buf[at + 1], buf[at + 2], buf[at + 3]),
        FieldKind::Enum { width, .. } => v == FieldValue::Enum(le_at(buf, at, width as int) as u32),
        FieldKind::StringId => v == FieldValue::StringId(to_signed(le_at(buf, at, 4), 4) as i32),
        FieldKind::Reference => match v {
            FieldValue::Reference(r) => {
                &&& r.group == le_at(buf, at, 4)
                &&& r.global_id == to_signed(le_at(buf, at + 4, 4), 4)
                &&& r.extra@ == buf.subrange(at + 8, at + f.size)
            },
            _ => false,
        },
        FieldKind::Block { schema } => match v {
            FieldValue::Block(b) => {
                &&& s < schema < sch.len()
                &&& b.count == le_at(buf, at, 4)
                &&& b.pointer == le_at(buf, at + 4, 4)
                &&& b.extra@ == buf.subrange(at + 8, at + f.size)
                &&& b.elements@.len() == b.count
                &&& forall|j: int|
                    0 <= j < b.count ==> record_matches(
                        sch,
                        schema as int,
                        buf,
                        b.pointer + j * sch[schema as int].size,
                        #[trigger] b.elements@[j],
                    )
            },
            _ => false,
        },
    }
}

/// Copies the bytes `from .. to` of `buf`.
fn copy_span(buf: &Vec<u8>, from: usize, to: usize) -> (r: Vec<u8>)
    requires
        from <= to <= buf@.len(),
    ensures
        r@ == buf@.subrange(from as int, to as int),
{
    let mut out: Vec<u8> = Vec::new();
    let mut k: usize = from;
    while k < to
        invariant
            from <= k <= to <= buf@.len(),
            out@ == buf@.subrange(from as int, k as int),
        decreases to - k,
    {
        out.push(buf[k]);
        k = k + 1;
    }
    out
}

/// The two's-complement reading of the `w`-byte value `raw`.
fn signed_of(raw: u64, w: usize) -> (r: i64)
    requires
        valid_width(w as nat),
        raw < pow256(w as nat),
    ensures
        r == to_signed(raw as nat, w as nat),
{
    proof {
        lemma_pow256_values();
    }
    if w == 8 {
        if raw >= 0x8000_0000_0000_0000 {
            let low = (raw - 0x8000_0000_0000_0000) as i64;
            low - 0x7fff_ffff_ffff_ffff - 1
        } else {
            raw as i64
        }
    } else {
        let full: u64 = if w == 1 {
            0x100
        } else if w == 2 {
            0x1_0000
        } else {
            0x1_0000_0000
        };
        if raw >= full / 2 {
            raw as i64 - full as i64
        } else {
            raw as i64
        }
    }
}

/// A run of `count` elements of `ns` bytes fits in `avail` bytes exactly when
/// `count` is at most `avail / ns`.
proof fn lemma_run_fits(avail: int, ns: int, count: int)
    requires
        avail >= 0,
        ns > 0,
        count >= 0,
    ensures
        (count <= avail / ns) <==> (count * ns <= avail),
{
    lemma_fundamental_div_mod(avail, ns);
    lemma_mod_pos_bound(avail, ns);
    let q = avail / ns;
    let m = avail % ns;
    assert((count <= q) <==> (count * ns <= avail)) by (nonlinear_arith)
        requires
            avail == ns * q + m,
            0 <= m < ns,
            ns > 0,
    ;
}

/// Element `j` of a run of `count` elements of `ns` bytes ends inside the run.
proof fn lemma_elem_in_run(j: int, count: int, ns: int)
    requires
        0 <= j < count,
        ns >= 0,
    ensures
        j * ns + ns <= count * ns,
{
    assert(j * ns + ns <= count * ns) by (nonlinear_arith)
        requires
            0 <= j < count,
            ns >= 0,
    ;
}

/// Decodes a record of schema `s` whose bytes start at `base` in `buf`.
pub fn decode_record(set: &SchemaSet, s: usize, buf: &Vec<u8>, base: usize) -> (r: Result<
    DecodedRecord,
    DecodeError,
>)
    requires
        set.wf(),
        s < set.schemas@.len(),
    ensures
        match r {
            Ok(rec) => record_error(set.schemas@, s as int, buf@, base as int) is None
                && record_matches(set.schemas@, s as int, buf@, base as int, rec),
            Err(e) => record_error(set.schemas@, s as int, buf@, base as int) == Some(e),
        },
    decreases set.schemas@.len() - s, 2int,
{
    let ghost sch = set.schemas@;
    let schema = &set.schemas[s];
    let len = buf.len();
    if base > len || schema.size > len - base {
        return Err(DecodeError::MalformedRecord);
    }
    let mut vals: Vec<FieldValue> = Vec::new();
    let nf = schema.fields.len();
    let mut i: usize = 0;
    assert(schema_wf(sch, s as int));
    while i < nf
        invariant
            set.wf(),
            sch == set.schemas@,
            s < sch.len(),
            *schema == sch[s as int],
            nf == schema.fields@.len(),
            len == buf@.len(),
            base + schema.size <= len,
            i <= nf,
            vals@.len() == i,
            fields_error(sch, s as int, buf@, base as int, 0) == fields_error(
                sch,
                s as int,
                buf@,
                base as int,
                i as int,
            ),
            forall|k: int|
                0 <= k < i ==> field_matches(
                    sch,
                    s as int,
                    sch[s as int].fields@[k],
                    buf@,
                    base + sch[s as int].fields@[k].offset,
                    #[trigger] vals@[k],
                ),
        decreases nf - i,
    {
        let f = &schema.fields[i];
        assert(schema_wf(sch, s as int));
        assert(field_wf(sch, s as int, sch[s as int].fields@[i as int]));
        let at: usize = base + f.offset;
        match decode_field(set, s, f, buf, at) {
            Ok(v) => {
                vals.push(v);
            },
            Err(e) => {
                return Err(e);
            },
        }
        i = i + 1;
    }
    Ok(DecodedRecord { fields: vals })
}

/// Decodes field `f` of a record of schema `s`; its bytes start at `at`.
fn decode_field(set: &SchemaSet, s: usize, f: &FieldSpec, buf: &Vec<u8>, at: usize) -> (r: Result<
    FieldValue,
    DecodeError,
>)
    requires
        set.wf(),
        s < set.schemas@.len(),
        field_wf(set.schemas@, s as int, *f),
        at + f.size <= buf@.len(),
    ensures
        match r {
            Ok(v) => field_error(set.schemas@, s as int, *f, buf@, at as int) is None
                && field_matches(set.schemas@, s as int, *f, buf@, at as int, v),
            Err(e) => field_error(set.schemas@, s as int, *f, buf@, at as int) == Some(e),
        },
    decreases set.schemas@.len() - s, 1int,
{
    let ghost sch = set.schemas@;
    let len = buf.len();
    match &f.kind {
        FieldKind::Int { width, signed } => {
            let raw = read_le(buf, at, *width);
            if *signed {
                proof {
                    lemma_le_value_bound(buf@.subrange(at as int, at + *width));
                }
                Ok(FieldValue::Signed(signed_of(raw, *width)))
            } else {
                Ok(FieldValue::Unsigned(raw))
            }
        },
        FieldKind::Float => {
            proof {
                lemma_le_value_bound(buf@.subrange(at as int, at + 4));
                lemma_pow256_values();
            }
            Ok(FieldValue::Float(read_le(buf, at, 4) as u32))
        },
        FieldKind::Vector { components } => {
            let mut ws: Vec<u32> = Vec::new();
            let mut k: usize = 0;
            while k < *components
                invariant
                    k <= *components <= 4,
                    at + 4 * *components <= buf@.len(),
                    len == buf@.len(),
                    ws@.len() == k,
                    forall|m: int| 0 <= m < k ==> #[trigger] ws@[m] == le_at(buf@, at + 4 * m, 4),
                decreases *components - k,
            {
                proof {
                    lemma_le_value_bound(buf@.subrange(at + 4 * k, at + 4 * k + 4));
                    lemma_pow256_values();
                }
                ws.push(read_le(buf, at + 4 * k, 4) as u32);
                k = k + 1;
            }
            Ok(FieldValue::Vector(ws))
        },
        FieldKind::Color => Ok(FieldValue::Color(buf[at], buf[at + 1], buf[at + 2], buf[at + 3])),
        FieldKind::Enum { width, variants } => {
            let raw = read_le(buf, at, *width);
            proof {
                lemma_le_value_bound(buf@.subrange(at as int, at + *width));
                lemma_pow256_values();
            }
            if raw >= *variants as u64 {
                Err(DecodeError::UnknownEnumValue(raw as u32))
            } else {
                Ok(FieldValue::Enum(raw as u32))
            }
        },
        FieldKind::StringId => {
            let raw = read_le(buf, at, 4);
            proof {
                lemma_le_value_bound(buf@.subrange(at as int, at + 4));
                lemma_pow256_values();
            }
            Ok(FieldValue::StringId(signed_of(raw, 4) as i32))
        },
        FieldKind::Reference => {
            let group = read_le(buf, at, 4);
            let id = read_le(buf, at + 4, 4);
            proof {
                lemma_le_value_bound(buf@.subrange(at as int, at + 4));
                lemma_le_value_bound(buf@.subrange(at + 4, at + 8));
                lemma_pow256_values();
            }
            let extra = copy_span(buf, at + 8, at + f.size);
            Ok(
                FieldValue::Reference(
                    TagReference { group: group as u32, global_id: signed_of(id, 4) as i32, extra },
                ),
            )
        },
        FieldKind::Block { schema } => {
            let n = *schema;
            let count = read_le(buf, at, 4);
            let ptr = read_le(buf, at + 4, 4);
            proof {
                lemma_le_value_bound(buf@.subrange(at as int, at + 4));
                lemma_le_value_bound(buf@.subrange(at + 4, at + 8));
                lemma_pow256_values();
            }
            let ns = set.schemas[n].size;
            if count > 0 {
                if ptr as usize > len {
                    return Err(DecodeError::MalformedRecord);
                }
                let avail = len - ptr as usize;
                if ns > 0 {
                    proof {
                        lemma_run_fits(avail as int, ns as int, count as int);
                    }
                    if count as usize > avail / ns {
                        return Err(DecodeError::MalformedRecord);
                    }
                }
                assert(count * ns <= avail);
            }
            let extra = copy_span(buf, at + 8, at + f.size);
            match decode_elements(set, s, n, buf, ptr as usize, count as usize) {
                Ok(elements) => Ok(
                    FieldValue::Block(
                        BlockValue { count: count as u32, pointer: ptr as u32, extra, elements },
                    ),
                ),
                Err(e) => Err(e),
            }
        },
    }
}

/// Decodes the `count` records of schema `n` that lie one after the other from `ptr`.
fn decode_elements(
    set: &SchemaSet,
    s: usize,
    n: usize,
    buf: &Vec<u8>,
    ptr: usize,
    count: usize,
) -> (r: Result<Vec<DecodedRecord>, DecodeError>)
    requires
        set.wf(),
        s < n < set.schemas@.len(),
        count == 0 || ptr + count * set.schemas@[n as int].size <= buf@.len(),
    ensures
        match r {
            Ok(elems) => {
                &&& elems_error(set.schemas@, n as int, buf@, ptr as int, count as int, 0) is None
                &&& elems@.len() == count
                &&& forall|j: int|
                    0 <= j < count ==> record_matches(
                        set.schemas@,
                        n as int,
                        buf@,
                        ptr + j * set.schemas@[n as int].size,
                        #[trigger] elems@[j],
                    )
            },
            Err(e) => elems_error(set.schemas@, n as int, buf@, ptr as int, count as int, 0) == Some(
                e,
            ),
        },
    decreases set.schemas@.len() - s, 0int,
{
    let ghost sch = set.schemas@;
    let ns = set.schemas[n].size;
    let len = buf.len();
    let mut elems: Vec<DecodedRecord> = Vec::new();
    let mut j: usize = 0;
    while j < count
        invariant
            set.wf(),
            sch == set.schemas@,
            s < n < sch.len(),
            ns == sch[n as int].size,
            count == 0 || ptr + count * ns <= buf@.len(),
            len == buf@.len(),
            j <= count,
            elems@.len() == j,
            elems_error(sch, n as int, buf@, ptr as int, count as int, 0) == elems_error(
                sch,
                n as int,
                buf@,
                ptr as int,
                count as int,
                j as int,
            ),
            forall|m: int|
                0 <= m < j ==> record_matches(
                    sch,
                    n as int,
                    buf@,
                    ptr + m * ns,
                    #[trigger] elems@[m],
                ),
        decreases count - j,
    {
        proof {
            lemma_elem_in_run(j as int, count as int, ns as int);
        }
        let base: usize = ptr + j * ns;
        match decode_record(set, n, buf, base) {
            Ok(rec) => {
                elems.push(rec);
            },
            Err(e) => {
                return Err(e);
            },
        }
        j = j + 1;
    }
    Ok(elems)
}

/// Decodes a tag whose record of schema `s` starts at the beginning of `buf`.
pub fn decode(set: &SchemaSet, s: usize, global_id: i32, buf: &Vec<u8>) -> (r: Result<
    DecodedTag,
    DecodeError,
>)
    requires
        set.wf(),
        s < set.schemas@.len(),
    ensures
        match r {
            Ok(t) => {
                &&& record_error(set.schemas@, s as int, buf@, 0) is None
                &&& record_matches(set.schemas@, s as int, buf@, 0, t.record)
                &&& t.type_code == set.schemas@[s as int].type_code
                &&& t.global_id == global_id
            },
            Err(e) => record_error(set.schemas@, s as int, buf@, 0) == Some(e),
        },
{
    match decode_record(set, s, buf, 0) {
        Ok(record) => Ok(DecodedTag { type_code: set.schemas[s].type_code, global_id, record }),
        Err(e) => Err(e),
    }
}

} // verus!
