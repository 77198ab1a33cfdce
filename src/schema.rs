//! Schema descriptors: per tag type, a fixed record size and the fields laid
//! out in it, each with a byte offset, a byte size and a kind.
use vstd::prelude::*;
use crate::bytes::valid_width;

verus! {

/// How the bytes of one field are read.
pub enum FieldKind {
    /// An integer of `width` bytes (1, 2, 4 or 8), signed or unsigned.
    Int { width: usize, signed: bool },
    /// An IEEE single, kept as its raw bits.
    Float,
    /// `components` IEEE singles (2, 3 or 4), each kept as its raw bits.
    Vector { components: usize },
    /// Four one-byte channels.
    Color,
    /// An integer of `width` bytes (1 or 4) whose valid values are `0 .. variants`.
    Enum { width: usize, variants: u32 },
    /// A signed 4-byte key into the string table.
    StringId,
    /// A 4-byte group code, a signed 4-byte global ID, then bookkeeping bytes.
    Reference,
    /// A 4-byte element count and the 4-byte position of the element run in
    /// the containing buffer, then bookkeeping bytes. The elements are
    /// records of the schema at index `schema` of the same schema set.
    Block { schema: usize },
}

/// One field of a record: where it lies and how it is read.
pub struct FieldSpec {
    pub name: String,
    pub offset: usize,
    pub size: usize,
    pub kind: FieldKind,
}

/// The layout of one record type.
pub struct TagSchema {
    pub type_code: u32,
    pub size: usize,
    pub fields: Vec<FieldSpec>,
}

/// The schemas of a family of record types. A block field refers to the
/// schema of its elements by index; that index is always larger than the
/// index of the schema holding the block, so nesting is finite.
pub struct SchemaSet {
    pub schemas: Vec<TagSchema>,
}

/// The size that a field of the given kind occupies.
pub open spec fn kind_fits(kind: FieldKind, size: nat) -> bool {
    match kind {
        FieldKind::Int { width, .. } => valid_width(width as nat) && size == width,
        FieldKind::Float => size == 4,
        FieldKind::Vector { components } => 2 <= components <= 4 && size == 4 * components,
        FieldKind::Color => size == 4,
        FieldKind::Enum { width, .. } => (width == 1 || width == 4) && size == width,
        FieldKind::StringId => size == 4,
        FieldKind::Reference => size >= 8,
        FieldKind::Block { .. } => size >= 8,
    }
}

/// Field `f` of schema `s` of `sch` is well formed.
pub open spec fn field_wf(sch: Seq<TagSchema>, s: int, f: FieldSpec) -> bool {
    &&& kind_fits(f.kind, f.size as nat)
    &&& f.offset + f.size <= sch[s].size
    &&& (f.kind matches FieldKind::Block { schema } ==> s < schema < sch.len())
}

/// Two fields do not share a byte.
pub open spec fn disjoint(a: FieldSpec, b: FieldSpec) -> bool {
    a.offset + a.size <= b.offset || b.offset + b.size <= a.offset
}

/// Schema `s` of `sch` is well formed: its fields fit and do not overlap.
pub open spec fn schema_wf(sch: Seq<TagSchema>, s: int) -> bool {
    let fields = sch[s].fields@;
    &&& forall|i: int| 0 <= i < fields.len() ==> field_wf(sch, s, #[trigger] fields[i])
    &&& forall|i: int, j: int|
        0 <= i < j < fields.len() ==> disjoint(#[trigger] fields[i], #[trigger] fields[j])
}

impl SchemaSet {
    pub open spec fn wf(&self) -> bool {
        forall|s: int| 0 <= s < self.schemas@.len() ==> #[trigger] schema_wf(self.schemas@, s)
    }
}

/// Whether a field of the given kind can occupy `size` bytes.
fn kind_fits_exec(kind: &FieldKind, size: usize) -> (r: bool)
    ensures
        r == kind_fits(*kind, size as nat),
{
    match kind {
        FieldKind::Int { width, .. } => (*width == 1 || *width == 2 || *width == 4 || *width == 8)
            && size == *width,
        FieldKind::Float => size == 4,
        FieldKind::Vector { components } => 2 <= *components && *components <= 4 && size == 4
            * *components,
        FieldKind::Color => size == 4,
        FieldKind::Enum { width, .. } => (*width == 1 || *width == 4) && size == *width,
        FieldKind::StringId => size == 4,
        FieldKind::Reference => size >= 8,
        FieldKind::Block { .. } => size >= 8,
    }
}

/// Whether schema `s` of `set` is well formed.
fn check_schema(set: &SchemaSet, s: usize) -> (r: bool)
    requires
        s < set.schemas@.len(),
    ensures
        r == schema_wf(set.schemas@, s as int),
{
    let ghost sch = set.schemas@;
    let schema = &set.schemas[s];
    let fields = &schema.fields;
    let n = set.schemas.len();
    let mut i: usize = 0;
    while i < fields.len()
        invariant
            s < sch.len(),
            sch == set.schemas@,
            n == sch.len(),
            *schema == sch[s as int],
            *fields == schema.fields,
            i <= fields@.len(),
            forall|k: int| 0 <= k < i ==> field_wf(sch, s as int, #[trigger] fields@[k]),
        decreases fields@.len() - i,
    {
        let f = &fields[i];
        let fits = kind_fits_exec(&f.kind, f.size) && f.offset <= schema.size && f.size
            <= schema.size - f.offset;
        let nested_ok = match &f.kind {
            FieldKind::Block { schema: nested } => s < *nested && *nested < n,
            _ => true,
        };
        if !(fits && nested_ok) {
            assert(!field_wf(sch, s as int, fields@[i as int]));
            return false;
        }
        i = i + 1;
    }
    let mut a: usize = 0;
    while a < fields.len()
        invariant
            s < sch.len(),
            sch == set.schemas@,
            *schema == sch[s as int],
            *fields == schema.fields,
            a <= fields@.len(),
            forall|k: int| 0 <= k < fields@.len() ==> field_wf(sch, s as int, #[trigger] fields@[k]),
            forall|x: int, y: int|
                0 <= x < a && x < y < fields@.len() ==> disjoint(
                    #[trigger] fields@[x],
                    #[trigger] fields@[y],
                ),
        decreases fields@.len() - a,
    {
        let mut b: usize = a + 1;
        while b < fields.len()
            invariant
                s < sch.len(),
                sch == set.schemas@,
                *schema == sch[s as int],
                *fields == schema.fields,
                a < fields@.len(),
                a < b <= fields@.len(),
                forall|k: int|
                    0 <= k < fields@.len() ==> field_wf(sch, s as int, #[trigger] fields@[k]),
                forall|x: int, y: int|
                    0 <= x < a && x < y < fields@.len() ==> disjoint(
                        #[trigger] fields@[x],
                        #[trigger] fields@[y],
                    ),
                forall|y: int| a < y < b ==> disjoint(fields@[a as int], #[trigger] fields@[y]),
            decreases fields@.len() - b,
        {
            let f = &fields[a];
            let g = &fields[b];
            assert(field_wf(sch, s as int, fields@[a as int]));
            assert(field_wf(sch, s as int, fields@[b as int]));
            if !(f.offset + f.size <= g.offset || g.offset + g.size <= f.offset) {
                assert(!disjoint(fields@[a as int], fields@[b as int]));
                return false;
            }
            b = b + 1;
        }
        a = a + 1;
    }
    true
}

impl SchemaSet {
    /// Whether every schema of the set is well formed.
    pub fn check(&self) -> (r: bool)
        ensures
            r == self.wf(),
    {
        let mut s: usize = 0;
        while s < self.schemas.len()
            invariant
                s <= self.schemas@.len(),
                forall|t: int| 0 <= t < s ==> #[trigger] schema_wf(self.schemas@, t),
            decreases self.schemas@.len() - s,
        {
            if !check_schema(self, s) {
                return false;
            }
            s = s + 1;
        }
        true
    }
}

} // verus!
