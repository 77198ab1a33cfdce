//! The module registry: the opened archives, in registration order, and a
//! cache of the tags decoded from them.
use vstd::prelude::*;
use std::collections::HashMap;
use crate::decode::{decode, record_error, record_matches, DecodeError, DecodedTag};
use crate::schema::{SchemaSet, TagSchema};

verus! {

broadcast use vstd::std_specs::hash::group_hash_axioms;

/// One tag record of an archive: its type code, global ID and bytes.
pub struct ArchiveRecord {
    pub type_code: u32,
    pub global_id: i32,
    pub data: Vec<u8>,
}

/// The tag records of one archive, as its index lists them.
pub struct Archive {
    pub records: Vec<ArchiveRecord>,
}

/// The bytes of the first record of `recs` from `j` on with the given type and ID.
pub open spec fn find_in_archive(recs: Seq<ArchiveRecord>, tc: u32, id: i32, j: int) -> Option<
    Seq<u8>,
>
    decreases recs.len() - j,
{
    if j < 0 || j >= recs.len() {
        None
    } else if recs[j].type_code == tc && recs[j].global_id == id {
        Some(recs[j].data@)
    } else {
        find_in_archive(recs, tc, id, j + 1)
    }
}

/// The bytes of the tag with the given type and ID in the first archive, from
/// `a` on, that holds it.
pub open spec fn locate(archives: Seq<Archive>, tc: u32, id: i32, a: int) -> Option<Seq<u8>>
    decreases archives.len() - a,
{
    if a < 0 || a >= archives.len() {
        None
    } else {
        let here = find_in_archive(archives[a].records@, tc, id, 0);
        if here is Some {
            here
        } else {
            locate(archives, tc, id, a + 1)
        }
    }
}

/// The index of the first schema of `sch` from `k` on with the given type code.
pub open spec fn schema_for(sch: Seq<TagSchema>, tc: u32, k: int) -> Option<int>
    decreases sch.len() - k,
{
    if k < 0 || k >= sch.len() {
        None
    } else if sch[k].type_code == tc {
        Some(k)
    } else {
        schema_for(sch, tc, k + 1)
    }
}

/// `m` after the records of `recs` of type `tc`, in order, each set its ID to its bytes.
pub open spec fn apply_records(m: Map<i32, Seq<u8>>, recs: Seq<ArchiveRecord>, tc: u32) -> Map<
    i32,
    Seq<u8>,
>
    decreases recs.len(),
{
    if recs.len() == 0 {
        m
    } else {
        let before = apply_records(m, recs.drop_last(), tc);
        let r = recs.last();
        if r.type_code == tc {
            before.insert(r.global_id, r.data@)
        } else {
            before
        }
    }
}

/// For each ID, the bytes of the last record of type `tc` over all archives
/// in registration order.
pub open spec fn latest(archives: Seq<Archive>, tc: u32) -> Map<i32, Seq<u8>>
    decreases archives.len(),
{
    if archives.len() == 0 {
        Map::empty()
    } else {
        apply_records(latest(archives.drop_last(), tc), archives.last().records@, tc)
    }
}

/// The cache key of a type code and a global ID.
pub open spec fn key_of(tc: u32, id: i32) -> u64 {
    (tc as int * 0x1_0000_0000 + (if id < 0 {
        id + 0x1_0000_0000
    } else {
        id as int
    })) as u64
}

proof fn lemma_key_of_injective(a: u32, b: i32, c: u32, d: i32)
    ensures
        key_of(a, b) == key_of(c, d) ==> a == c && b == d,
{
}

/// The opened archives, the schemas to decode their tags with, and the tags
/// decoded so far. A decoded tag is known by its handle, its position in
/// the cache, which never changes.
pub struct ModuleRegistry {
    schemas: SchemaSet,
    archives: Vec<Archive>,
    tags: Vec<DecodedTag>,
    index: HashMap<u64, usize>,
}

/// `t` is the decoding of the tag with the given type and ID in `archives`.
pub open spec fn decodes_to(
    sch: Seq<TagSchema>,
    archives: Seq<Archive>,
    tc: u32,
    id: i32,
    t: DecodedTag,
) -> bool {
    &&& locate(archives, tc, id, 0) matches Some(bytes)
    &&& schema_for(sch, tc, 0) matches Some(s)
    &&& record_error(sch, s, bytes, 0) is None
    &&& record_matches(sch, s, bytes, 0, t.record)
    &&& t.type_code == tc
    &&& t.global_id == id
}

impl ModuleRegistry {
    pub closed spec fn schemas_view(&self) -> Seq<TagSchema> {
        self.schemas.schemas@
    }

    pub closed spec fn archives_view(&self) -> Seq<Archive> {
        self.archives@
    }

    pub closed spec fn tags_view(&self) -> Seq<DecodedTag> {
        self.tags@
    }

    /// The handle of the cached tag with the given type and ID, if any.
    pub closed spec fn handle_of(&self, tc: u32, id: i32) -> Option<usize> {
        if self.index@.contains_key(key_of(tc, id)) {
            Some(self.index@[key_of(tc, id)])
        } else {
            None
        }
    }

    pub closed spec fn wf(&self) -> bool {
        &&& self.schemas.wf()
        &&& forall|tc: u32, id: i32|
            #[trigger] self.index@.contains_key(key_of(tc, id)) ==> {
                let h = self.index@[key_of(tc, id)];
                &&& h < self.tags@.len()
                &&& decodes_to(self.schemas.schemas@, self.archives@, tc, id, self.tags@[h as int])
            }
        &&& forall|k: u64|
            #[trigger] self.index@.contains_key(k) ==> exists|tc: u32, id: i32| k == key_of(tc, id)
    }
}

/// What holds after `lookup(tc, id)` took `pre` to `post` and returned `r`.
pub open spec fn lookup_post(
    pre: ModuleRegistry,
    tc: u32,
    id: i32,
    post: ModuleRegistry,
    r: Result<Option<usize>, DecodeError>,
) -> bool {
    let sch = pre.schemas_view();
    let archives = pre.archives_view();
    &&& post.wf()
    &&& post.schemas_view() == sch
    &&& post.archives_view() == archives
    &&& pre.tags_view().len() <= post.tags_view().len()
    &&& forall|h: int| 0 <= h < pre.tags_view().len() ==> post.tags_view()[h] == pre.tags_view()[h]
    &&& forall|tc2: u32, id2: i32| #[trigger]
        pre.handle_of(tc2, id2) is Some ==> post.handle_of(tc2, id2) == pre.handle_of(tc2, id2)
    &&& match r {
        Ok(Some(h)) => {
            &&& post.handle_of(tc, id) == Some(h)
            &&& h < post.tags_view().len()
            &&& decodes_to(sch, archives, tc, id, post.tags_view()[h as int])
        },
        Ok(None) => locate(archives, tc, id, 0) is None || schema_for(sch, tc, 0) is None,
        Err(e) => {
            &&& locate(archives, tc, id, 0) matches Some(bytes)
            &&& schema_for(sch, tc, 0) matches Some(s)
            &&& record_error(sch, s, bytes, 0) == Some(e)
            &&& post.handle_of(tc, id) is None
        },
    }
    &&& pre.handle_of(tc, id) matches Some(h) ==> r == Ok::<Option<usize>, DecodeError>(Some(h)) && post == pre
}

/// The cache key of a type code and a global ID.
fn key(tc: u32, id: i32) -> (r: u64)
    ensures
        r == key_of(tc, id),
{
    let low: u64 = if id < 0 {
        (id as i64 + 0x1_0000_0000) as u64
    } else {
        id as u64
    };
    tc as u64 * 0x1_0000_0000 + low
}

/// Registering one more archive leaves every tag found before where it was.
proof fn lemma_locate_extend(archives: Seq<Archive>, x: Archive, tc: u32, id: i32, a: int)
    requires
        0 <= a,
        locate(archives, tc, id, a) is Some,
    ensures
        locate(archives.push(x), tc, id, a) == locate(archives, tc, id, a),
    decreases archives.len() - a,
{
    if a < archives.len() {
        assert(archives.push(x)[a] == archives[a]);
        if find_in_archive(archives[a].records@, tc, id, 0) is None {
            lemma_locate_extend(archives, x, tc, id, a + 1);
        }
    }
}

impl ModuleRegistry {
    /// A registry with no archives that decodes tags with `schemas`.
    pub fn new(schemas: SchemaSet) -> (r: ModuleRegistry)
        requires
            schemas.wf(),
        ensures
            r.wf(),
            r.schemas_view() == schemas.schemas@,
            r.archives_view() == Seq::<Archive>::empty(),
            r.tags_view() == Seq::<DecodedTag>::empty(),
            forall|tc: u32, id: i32| #[trigger] r.handle_of(tc, id) is None,
    {
        ModuleRegistry { schemas, archives: Vec::new(), tags: Vec::new(), index: HashMap::new() }
    }

    /// Adds an archive after those registered so far.
    pub fn register(&mut self, archive: Archive)
        requires
            old(self).wf(),
        ensures
            final(self).wf(),
            final(self).schemas_view() == old(self).schemas_view(),
            final(self).archives_view() == old(self).archives_view().push(archive),
            final(self).tags_view() == old(self).tags_view(),
            forall|tc: u32, id: i32| #[trigger]
                final(self).handle_of(tc, id) == old(self).handle_of(tc, id),
    {
        let ghost before = self.archives@;
        self.archives.push(archive);
        assert forall|tc: u32, id: i32| #[trigger] self.index@.contains_key(key_of(tc, id)) implies {
            let h = self.index@[key_of(tc, id)];
            &&& h < self.tags@.len()
            &&& decodes_to(self.schemas.schemas@, self.archives@, tc, id, self.tags@[h as int])
        } by {
            lemma_locate_extend(before, archive, tc, id, 0);
        }
    }

    /// The index of the first schema for type code `tc`.
    fn find_schema(&self, tc: u32) -> (r: Option<usize>)
        ensures
            match r {
                Some(s) => schema_for(self.schemas.schemas@, tc, 0) == Some(s as int) && s
                    < self.schemas.schemas@.len() && self.schemas.schemas@[s as int].type_code
                    == tc,
                None => schema_for(self.schemas.schemas@, tc, 0) is None,
            },
    {
        let mut k: usize = 0;
        while k < self.schemas.schemas.len()
            invariant
                k <= self.schemas.schemas@.len(),
                schema_for(self.schemas.schemas@, tc, 0) == schema_for(
                    self.schemas.schemas@,
                    tc,
                    k as int,
                ),
            decreases self.schemas.schemas@.len() - k,
        {
            if self.schemas.schemas[k].type_code == tc {
                return Some(k);
            }
            k = k + 1;
        }
        None
    }

    /// The bytes of the tag with the given type and ID in the first archive that holds it.
    fn find_bytes(&self, tc: u32, id: i32) -> (r: Option<&Vec<u8>>)
        ensures
            match r {
                Some(b) => locate(self.archives@, tc, id, 0) == Some(b@),
                None => locate(self.archives@, tc, id, 0) is None,
            },
    {
        let mut a: usize = 0;
        while a < self.archives.len()
            invariant
                a <= self.archives@.len(),
                locate(self.archives@, tc, id, 0) == locate(self.archives@, tc, id, a as int),
            decreases self.archives@.len() - a,
        {
            let recs = &self.archives[a].records;
            let mut j: usize = 0;
            while j < recs.len()
                invariant
                    a < self.archives@.len(),
                    locate(self.archives@, tc, id, 0) == locate(self.archives@, tc, id, a as int),
                    *recs == self.archives@[a as int].records,
                    j <= recs@.len(),
                    find_in_archive(recs@, tc, id, 0) == find_in_archive(recs@, tc, id, j as int),
                decreases recs@.len() - j,
            {
                if recs[j].type_code == tc && recs[j].global_id == id {
                    assert(find_in_archive(recs@, tc, id, j as int) == Some(recs@[j as int].data@));
                    assert(locate(self.archives@, tc, id, a as int) == Some(recs@[j as int].data@));
                    return Some(&recs[j].data);
                }
                j = j + 1;
            }
            a = a + 1;
        }
        None
    }

    /// The decoded tag with the given type code and global ID: taken from the
    /// cache, or else decoded from the first registered archive that holds it
    /// and cached. `Ok(None)` where no archive holds it (or no schema is known
    /// for its type); the decoding error where its bytes do not decode.
    pub fn lookup(&mut self, tc: u32, id: i32) -> (r: Result<Option<usize>, DecodeError>)
        requires
            old(self).wf(),
        ensures
            lookup_post(*old(self), tc, id, *final(self), r),
    {
        let k = key(tc, id);
        match self.index.get(&k) {
            Some(h) => {
                return Ok(Some(*h));
            },
            None => {},
        }
        let s = match self.find_schema(tc) {
            Some(s) => s,
            None => {
                return Ok(None);
            },
        };
        let ghost sch = self.schemas.schemas@;
        let tag = match self.find_bytes(tc, id) {
            None => {
                return Ok(None);
            },
            Some(bytes) => match decode(&self.schemas, s, id, bytes) {
                Ok(t) => {
                    assert(decodes_to(sch, self.archives@, tc, id, t));
                    t
                },
                Err(e) => {
                    return Err(e);
                },
            },
        };
        let ghost g = tag;
        assert(decodes_to(sch, self.archives@, tc, id, g));
        let ghost pre_index = self.index@;
        let ghost pre_tags = self.tags@;
        let h = self.tags.len();
        self.tags.push(tag);
        self.index.insert(k, h);
        proof {
            assert forall|tc2: u32, id2: i32| #[trigger]
                self.index@.contains_key(key_of(tc2, id2)) implies {
                let h2 = self.index@[key_of(tc2, id2)];
                &&& h2 < self.tags@.len()
                &&& decodes_to(self.schemas.schemas@, self.archives@, tc2, id2, self.tags@[h2 as int])
            } by {
                lemma_key_of_injective(tc, id, tc2, id2);
                if key_of(tc2, id2) == k {
                    assert(self.tags@[h as int] == g);
                } else {
                    assert(pre_index.contains_key(key_of(tc2, id2)));
                }
            }
            assert forall|k2: u64| #[trigger] self.index@.contains_key(k2) implies exists|
                tc2: u32,
                id2: i32,
            | k2 == key_of(tc2, id2) by {
                if k2 != k {
                    assert(pre_index.contains_key(k2));
                }
            }
            assert forall|tc2: u32, id2: i32| #[trigger]
                pre_index.contains_key(key_of(tc2, id2)) implies self.index@.contains_key(
                key_of(tc2, id2),
            ) && self.index@[key_of(tc2, id2)] == pre_index[key_of(tc2, id2)] by {
                assert(key_of(tc2, id2) != k);
            }
        }
        Ok(Some(h))
    }

    /// The decoded tag with handle `h`.
    pub fn get(&self, h: usize) -> (r: &DecodedTag)
        requires
            h < self.tags_view().len(),
        ensures
            *r == self.tags_view()[h as int],
    {
        &self.tags[h]
    }

    /// Every tag of type `tc` over all archives, by global ID, decoded; where
    /// several archives hold one ID the last registered wins. A tag whose bytes
    /// do not decode is left out. Empty where no schema is known for `tc`.
    pub fn lookup_all(&self, tc: u32) -> (r: HashMap<i32, DecodedTag>)
        requires
            self.wf(),
        ensures
            match schema_for(self.schemas_view(), tc, 0) {
                None => r@ == Map::<i32, DecodedTag>::empty(),
                Some(s) => forall|id: i32| {
                    let l = latest(self.archives_view(), tc);
                    &&& #[trigger] r@.contains_key(id) <==> (l.contains_key(id) && record_error(
                        self.schemas_view(),
                        s,
                        l[id],
                        0,
                    ) is None)
                    &&& r@.contains_key(id) ==> {
                        &&& record_matches(self.schemas_view(), s, l[id], 0, r@[id].record)
                        &&& r@[id].type_code == tc
                        &&& r@[id].global_id == id
                    }
                },
            },
    {
        let mut out: HashMap<i32, DecodedTag> = HashMap::new();
        let s = match self.find_schema(tc) {
            Some(s) => s,
            None => {
                return out;
            },
        };
        let ghost sch = self.schemas.schemas@;
        let ghost archives = self.archives@;
        let mut a: usize = 0;
        while a < self.archives.len()
            invariant
                self.wf(),
                sch == self.schemas.schemas@,
                archives == self.archives@,
                s < sch.len(),
                sch[s as int].type_code == tc,
                a <= archives.len(),
                forall|id: i32|
                    {
                        let l = latest(archives.subrange(0, a as int), tc);
                        &&& #[trigger] out@.contains_key(id) <==> (l.contains_key(id)
                            && record_error(sch, s as int, l[id], 0) is None)
                        &&& out@.contains_key(id) ==> {
                            &&& record_matches(sch, s as int, l[id], 0, out@[id].record)
                            &&& out@[id].type_code == tc
                            &&& out@[id].global_id == id
                        }
                    },
            decreases archives.len() - a,
        {
            let ghost start = latest(archives.subrange(0, a as int), tc);
            let recs = &self.archives[a].records;
            let mut j: usize = 0;
            assert(apply_records(start, recs@.subrange(0, 0), tc) == start);
            while j < recs.len()
                invariant
                    self.wf(),
                    sch == self.schemas.schemas@,
                    s < sch.len(),
                    sch[s as int].type_code == tc,
                    j <= recs@.len(),
                    forall|id: i32|
                        {
                            let l = apply_records(start, recs@.subrange(0, j as int), tc);
                            &&& #[trigger] out@.contains_key(id) <==> (l.contains_key(id)
                                && record_error(sch, s as int, l[id], 0) is None)
                            &&& out@.contains_key(id) ==> {
                                &&& record_matches(sch, s as int, l[id], 0, out@[id].record)
                                &&& out@[id].type_code == tc
                                &&& out@[id].global_id == id
                            }
                        },
                decreases recs@.len() - j,
            {
                let rec = &recs[j];
                assert(recs@.subrange(0, j + 1).drop_last() =~= recs@.subrange(0, j as int));
                if rec.type_code == tc {
                    match decode(&self.schemas, s, rec.global_id, &rec.data) {
                        Ok(t) => {
                            out.insert(rec.global_id, t);
                        },
                        Err(_) => {
                            out.remove(&rec.global_id);
                        },
                    }
                }
                j = j + 1;
            }
            assert(recs@.subrange(0, j as int) =~= recs@);
            assert(archives.subrange(0, a + 1).drop_last() =~= archives.subrange(0, a as int));
            a = a + 1;
        }
        assert(archives.subrange(0, a as int) =~= archives);
        out
    }
}

/// Looking a tag up twice gives the same answer both times: the same handle,
/// to the same decoded value, where it was found; `Ok(None)` both times where
/// no archive holds it; the same error where it does not decode.
pub proof fn lemma_lookup_idempotent(
    r0: ModuleRegistry,
    r1: ModuleRegistry,
    r2: ModuleRegistry,
    tc: u32,
    id: i32,
    first: Result<Option<usize>, DecodeError>,
    second: Result<Option<usize>, DecodeError>,
)
    requires
        r0.wf(),
        lookup_post(r0, tc, id, r1, first),
        lookup_post(r1, tc, id, r2, second),
    ensures
        first == second,
        first matches Ok(Some(h)) ==> r2.tags_view()[h as int] == r1.tags_view()[h as int],
{
}

} // verus!
