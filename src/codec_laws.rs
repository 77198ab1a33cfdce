//! Re-encoding decoded fields, and what holds between decoding and encoding.
use vstd::prelude::*;
use crate::bytes::{
    from_signed, le_bytes, le_value, lemma_le_round_trip, lemma_le_value_bound,
    lemma_pow256_values, lemma_signed_round_trip, pow256, push_le, signed_fits, to_signed,
};
use crate::decode::{
    field_error, field_matches, fields_error, le_at, record_error, record_matches, span,
    DecodeError, DecodedRecord, FieldValue,
};
use crate::schema::{field_wf, kind_fits, schema_wf, FieldKind, FieldSpec, SchemaSet, TagSchema};

verus! {

/// The bytes of a sequence of 4-byte words, each little-endian.
pub open spec fn words_bytes(ws: Seq<u32>) -> Seq<u8>
    decreases ws.len(),
{
    if ws.len() == 0 {
        Seq::empty()
    } else {
        le_bytes(ws[0] as nat, 4) + words_bytes(ws.drop_first())
    }
}

/// The bytes that field `f` holds when its value is `v`.
pub open spec fn encode_value(f: FieldSpec, v: FieldValue) -> Seq<u8> {
    match v {
        FieldValue::Unsigned(x) => le_bytes(x as nat, f.size as nat),
        FieldValue::Signed(x) => le_bytes(from_signed(x as int, f.size as nat), f.size as nat),
        FieldValue::Float(b) => le_bytes(b as nat, 4),
        FieldValue::Vector(ws) => words_bytes(ws@),
        FieldValue::Color(a, b, c, d) => seq![a, b, c, d],
        FieldValue::Enum(x) => le_bytes(x as nat, f.size as nat),
        FieldValue::StringId(x) => le_bytes(from_signed(x as int, 4), 4),
        FieldValue::Reference(r) => le_bytes(r.group as nat, 4) + le_bytes(
            from_signed(r.global_id as int, 4),
            4,
        ) + r.extra@,
        FieldValue::Block(b) => le_bytes(b.count as nat, 4) + le_bytes(b.pointer as nat, 4)
            + b.extra@,
    }
}

/// `v` is a value that field `f` can hold.
pub open spec fn value_fits(f: FieldSpec, v: FieldValue) -> bool {
    match f.kind {
        FieldKind::Int { signed, .. } => if signed {
            v matches FieldValue::Signed(x) && signed_fits(x as int, f.size as nat)
        } else {
            v matches FieldValue::Unsigned(x) && x < pow256(f.size as nat)
        },
        FieldKind::Float => v is Float,
        FieldKind::Vector { components } => v matches FieldValue::Vector(ws) && ws@.len()
            == components,
        FieldKind::Color => v is Color,
        FieldKind::Enum { variants, .. } => v matches FieldValue::Enum(x) && x < variants && x
            < pow256(f.size as nat),
        FieldKind::StringId => v is StringId,
        FieldKind::Reference => v matches FieldValue::Reference(r) && r.extra@.len() + 8 == f.size,
        FieldKind::Block { .. } => v matches FieldValue::Block(b) && b.extra@.len() + 8 == f.size,
    }
}

/// The bytes that field `f` holds when its value is `v`, or `None` where `f`
/// cannot hold `v`.
pub fn encode_field(f: &FieldSpec, v: &FieldValue) -> (r: Option<Vec<u8>>)
    requires
        kind_fits(f.kind, f.size as nat),
    ensures
        r is Some <==> value_fits(*f, *v),
        r matches Some(b) ==> b@ == encode_value(*f, *v),
{
    proof {
        lemma_pow256_values();
    }
    let mut out: Vec<u8> = Vec::new();
    match (&f.kind, v) {
        (FieldKind::Int { signed, .. }, FieldValue::Unsigned(x)) => {
            if *signed || (f.size < 8 && *x >= pow256_exec(f.size)) {
                return None;
            }
            push_le(&mut out, *x, f.size);
        },
        (FieldKind::Int { signed, .. }, FieldValue::Signed(x)) => {
            if !*signed {
                return None;
            }
            if f.size < 8 {
                let half = (pow256_exec(f.size) / 2) as i64;
                if *x >= half || *x < -half {
                    return None;
                }
            }
            let raw: u64 = if *x < 0 {
                if f.size == 8 {
                    let y = (*x + 0x7fff_ffff_ffff_ffff + 1) as u64;
                    y + 0x8000_0000_0000_0000
                } else {
                    (*x + pow256_exec(f.size) as i64) as u64
                }
            } else {
                *x as u64
            };
            push_le(&mut out, raw, f.size);
        },
        (FieldKind::Float, FieldValue::Float(b)) => {
            push_le(&mut out, *b as u64, 4);
        },
        (FieldKind::Vector { components }, FieldValue::Vector(ws)) => {
            if ws.len() != *components {
                return None;
            }
            let mut k: usize = 0;
            assert(ws@.subrange(0, ws@.len() as int) =~= ws@);
            assert(out@ + words_bytes(ws@) =~= words_bytes(ws@));
            while k < ws.len()
                invariant
                    k <= ws@.len(),
                    out@ + words_bytes(ws@.subrange(k as int, ws@.len() as int)) == words_bytes(
                        ws@,
                    ),
                decreases ws@.len() - k,
            {
                let ghost before = out@;
                let ghost rest = ws@.subrange(k as int, ws@.len() as int);
                assert(rest.drop_first() =~= ws@.subrange(k + 1, ws@.len() as int));
                push_le(&mut out, ws[k] as u64, 4);
                assert(out@ + words_bytes(rest.drop_first()) =~= before + words_bytes(rest));
                k = k + 1;
            }
            assert(ws@.subrange(k as int, ws@.len() as int) =~= Seq::<u32>::empty());
            assert(out@ =~= out@ + words_bytes(Seq::<u32>::empty()));
        },
        (FieldKind::Color, FieldValue::Color(a, b, c, d)) => {
            out.push(*a);
            out.push(*b);
            out.push(*c);
            out.push(*d);
            assert(out@ =~= seq![*a, *b, *c, *d]);
        },
        (FieldKind::Enum { variants, .. }, FieldValue::Enum(x)) => {
            if *x >= *variants || (f.size < 8 && *x as u64 >= pow256_exec(f.size)) {
                return None;
            }
            push_le(&mut out, *x as u64, f.size);
        },
        (FieldKind::StringId, FieldValue::StringId(x)) => {
            let raw: u64 = if *x < 0 {
                (*x as i64 + 0x1_0000_0000) as u64
            } else {
                *x as u64
            };
            push_le(&mut out, raw, 4);
        },
        (FieldKind::Reference, FieldValue::Reference(r)) => {
            if r.extra.len() != f.size - 8 {
                return None;
            }
            let raw: u64 = if r.global_id < 0 {
                (r.global_id as i64 + 0x1_0000_0000) as u64
            } else {
                r.global_id as u64
            };
            push_le(&mut out, r.group as u64, 4);
            push_le(&mut out, raw, 4);
            append_bytes(&mut out, &r.extra);
        },
        (FieldKind::Block { .. }, FieldValue::Block(b)) => {
            if b.extra.len() != f.size - 8 {
                return None;
            }
            push_le(&mut out, b.count as u64, 4);
            push_le(&mut out, b.pointer as u64, 4);
            append_bytes(&mut out, &b.extra);
        },
        _ => {
            return None;
        },
    }
    Some(out)
}

/// `256` to the power `n`, for the widths below 8.
fn pow256_exec(n: usize) -> (r: u64)
    requires
        n < 8,
    ensures
        r == pow256(n as nat),
{
    let mut r: u64 = 1;
    let mut k: usize = 0;
    while k < n
        invariant
            k <= n < 8,
            r == pow256(k as nat),
            r <= 0x100_0000_0000_0000,
        decreases n - k,
    {
        proof {
            crate::bytes::lemma_pow256_monotone(k as nat + 1, 7);
            reveal_with_fuel(pow256, 8);
        }
        r = r * 256;
        k = k + 1;
    }
    r
}

/// Appends the bytes of `extra` to `out`.
fn append_bytes(out: &mut Vec<u8>, extra: &Vec<u8>)
    ensures
        final(out)@ == old(out)@ + extra@,
{
    let mut k: usize = 0;
    while k < extra.len()
        invariant
            k <= extra@.len(),
            out@ == old(out)@ + extra@.subrange(0, k as int),
        decreases extra@.len() - k,
    {
        out.push(extra[k]);
        k = k + 1;
        assert(out@ =~= old(out)@ + extra@.subrange(0, k as int));
    }
    assert(extra@.subrange(0, k as int) =~= extra@);
}

/// Where decoding succeeds from field `0`, no field from `i` on fails.
proof fn lemma_fields_error_none(sch: Seq<TagSchema>, s: int, buf: Seq<u8>, base: int, i: int)
    requires
        0 <= s < sch.len(),
        0 <= i <= sch[s].fields@.len(),
        fields_error(sch, s, buf, base, 0) is None,
    ensures
        fields_error(sch, s, buf, base, i) is None,
        i < sch[s].fields@.len() ==> field_error(
            sch,
            s,
            sch[s].fields@[i],
            buf,
            base + sch[s].fields@[i].offset,
        ) is None,
    decreases i,
{
    if i > 0 {
        lemma_fields_error_none(sch, s, buf, base, i - 1);
    }
}

/// An error from field `i` on is an error from any earlier field on, and the
/// same error where no field in between fails.
proof fn lemma_fields_error_from(
    sch: Seq<TagSchema>,
    s: int,
    buf: Seq<u8>,
    base: int,
    k: int,
    i: int,
)
    requires
        0 <= s < sch.len(),
        0 <= k <= i < sch[s].fields@.len(),
        fields_error(sch, s, buf, base, i) is Some,
    ensures
        fields_error(sch, s, buf, base, k) is Some,
        (forall|m: int|
            k <= m < i ==> field_error(
                sch,
                s,
                #[trigger] sch[s].fields@[m],
                buf,
                base + sch[s].fields@[m].offset,
            ) is None) ==> fields_error(sch, s, buf, base, k) == fields_error(sch, s, buf, base, i),
    decreases i - k,
{
    if k < i {
        lemma_fields_error_from(sch, s, buf, base, k + 1, i);
    }
}

/// The bytes of consecutive little-endian words read from `buf` at `at`.
proof fn lemma_words_round_trip(buf: Seq<u8>, at: int, ws: Seq<u32>)
    requires
        0 <= at,
        at + 4 * ws.len() <= buf.len(),
        forall|k: int| 0 <= k < ws.len() ==> #[trigger] ws[k] == le_at(buf, at + 4 * k, 4),
    ensures
        words_bytes(ws) == buf.subrange(at, at + 4 * ws.len()),
    decreases ws.len(),
{
    if ws.len() > 0 {
        let rest = ws.drop_first();
        assert forall|k: int| 0 <= k < rest.len() implies #[trigger] rest[k] == le_at(
            buf,
            (at + 4) + 4 * k,
            4,
        ) by {
            assert(rest[k] == ws[k + 1]);
        }
        lemma_words_round_trip(buf, at + 4, rest);
        lemma_le_round_trip(span(buf, at, 4));
        assert(ws[0] == le_at(buf, at, 4));
        assert(buf.subrange(at, at + 4 * ws.len()) =~= span(buf, at, 4) + buf.subrange(
            at + 4,
            at + 4 + 4 * rest.len(),
        ));
    }
}

/// Re-encoding any field of a decoded record gives back exactly the bytes
/// found at that field's declared offset.
pub proof fn lemma_decode_round_trip(
    set: SchemaSet,
    s: int,
    buf: Seq<u8>,
    base: int,
    rec: DecodedRecord,
    i: int,
)
    requires
        set.wf(),
        0 <= s < set.schemas@.len(),
        record_error(set.schemas@, s, buf, base) is None,
        record_matches(set.schemas@, s, buf, base, rec),
        0 <= i < set.schemas@[s].fields@.len(),
    ensures
        ({
            let f = set.schemas@[s].fields@[i];
            &&& value_fits(f, rec.fields@[i])
            &&& encode_value(f, rec.fields@[i]) == buf.subrange(
                base + f.offset,
                base + f.offset + f.size,
            )
        }),
{
    let sch = set.schemas@;
    let f = sch[s].fields@[i];
    let at = base + f.offset;
    let v = rec.fields@[i];
    let sp = span(buf, at, f.size as int);
    assert(schema_wf(sch, s));
    assert(field_wf(sch, s, f));
    lemma_fields_error_none(sch, s, buf, base, i);
    assert(field_matches(sch, s, f, buf, at, v));
    lemma_pow256_values();
    lemma_le_value_bound(sp);
    lemma_le_round_trip(sp);
    match f.kind {
        FieldKind::Int { width, signed } => {
            if signed {
                lemma_signed_round_trip(le_value(sp), width as nat);
            }
        },
        FieldKind::Vector { components } => {
            if let FieldValue::Vector(ws) = v {
                lemma_words_round_trip(buf, at, ws@);
            }
        },
        FieldKind::Color => {
            assert(sp =~= seq![buf[at], buf[at + 1], buf[at + 2], buf[at + 3]]);
        },
        FieldKind::StringId => {
            lemma_signed_round_trip(le_value(sp), 4);
        },
        FieldKind::Reference => {
            let a = span(buf, at, 4);
            let b = span(buf, at + 4, 4);
            lemma_le_round_trip(a);
            lemma_le_round_trip(b);
            lemma_le_value_bound(a);
            lemma_le_value_bound(b);
            lemma_signed_round_trip(le_value(b), 4);
            assert(sp =~= a + b + buf.subrange(at + 8, at + f.size));
        },
        FieldKind::Block { .. } => {
            let a = span(buf, at, 4);
            let b = span(buf, at + 4, 4);
            lemma_le_round_trip(a);
            lemma_le_round_trip(b);
            lemma_le_value_bound(a);
            lemma_le_value_bound(b);
            assert(sp =~= a + b + buf.subrange(at + 8, at + f.size));
        },
        _ => {},
    }
}

/// A value outside an enum-backed field's variant set makes decoding fail;
/// it never yields some variant. Where no field before it fails, the error
/// is the unknown value itself.
pub proof fn lemma_unknown_enum_rejected(set: SchemaSet, s: int, buf: Seq<u8>, base: int, i: int)
    requires
        set.wf(),
        0 <= s < set.schemas@.len(),
        0 <= base,
        base + set.schemas@[s].size <= buf.len(),
        0 <= i < set.schemas@[s].fields@.len(),
        set.schemas@[s].fields@[i].kind matches FieldKind::Enum { width, variants } && le_at(
            buf,
            base + set.schemas@[s].fields@[i].offset,
            width as int,
        ) >= variants,
    ensures
        record_error(set.schemas@, s, buf, base) is Some,
        (forall|k: int|
            0 <= k < i ==> field_error(
                set.schemas@,
                s,
                #[trigger] set.schemas@[s].fields@[k],
                buf,
                base + set.schemas@[s].fields@[k].offset,
            ) is None) ==> record_error(set.schemas@, s, buf, base) == Some(
            DecodeError::UnknownEnumValue(
                le_at(
                    buf,
                    base + set.schemas@[s].fields@[i].offset,
                    set.schemas@[s].fields@[i].size as int,
                ) as u32,
            ),
        ),
{
    let sch = set.schemas@;
    assert(schema_wf(sch, s));
    assert(field_wf(sch, s, sch[s].fields@[i]));
    let f = sch[s].fields@[i];
    if let FieldKind::Enum { width, variants } = f.kind {
        assert(le_at(buf, base + f.offset, width as int) >= variants);
        assert(field_error(sch, s, f, buf, base + f.offset) is Some);
    }
    assert(fields_error(sch, s, buf, base, i) is Some);
    lemma_fields_error_from(sch, s, buf, base, 0, i);
}

} // verus!
