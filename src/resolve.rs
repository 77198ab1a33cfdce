//! Reference resolution: one hop from a stored reference to the decoded
//! tag it names, through the registry.
use vstd::prelude::*;
use crate::decode::{record_error, DecodedRecord, FieldValue};
use crate::registry::{decodes_to, locate, schema_for, ModuleRegistry};

verus! {

/// The outcome of resolving a reference: the handle of the decoded target,
/// or the target's global ID where it could not be had.
#[derive(PartialEq, Eq, Structural, Debug, Clone, Copy)]
pub enum ResolvedReference {
    Present(usize),
    Absent(i32),
}

/// What holds after resolving the reference `(group, id)` took `pre` to `post`.
pub open spec fn resolve_post(
    pre: ModuleRegistry,
    group: u32,
    id: i32,
    post: ModuleRegistry,
    res: ResolvedReference,
) -> bool {
    let sch = pre.schemas_view();
    let archives = pre.archives_view();
    &&& post.wf()
    &&& post.schemas_view() == sch
    &&& post.archives_view() == archives
    &&& pre.tags_view().len() <= post.tags_view().len()
    &&& forall|h: int| 0 <= h < pre.tags_view().len() ==> post.tags_view()[h] == pre.tags_view()[h]
    &&& forall|g2: u32, id2: i32| #[trigger]
        pre.handle_of(g2, id2) is Some ==> post.handle_of(g2, id2) == pre.handle_of(g2, id2)
    &&& match res {
        ResolvedReference::Present(h) => {
            &&& post.handle_of(group, id) == Some(h)
            &&& h < post.tags_view().len()
            &&& decodes_to(sch, archives, group, id, post.tags_view()[h as int])
        },
        ResolvedReference::Absent(x) => {
            &&& x == id
            &&& (locate(archives, group, id, 0) is None || schema_for(sch, group, 0) is None || (
            locate(archives, group, id, 0) matches Some(bytes) && schema_for(sch, group, 0) matches Some(
                s,
            ) && record_error(sch, s, bytes, 0) is Some))
        },
    }
}

/// Resolves the reference to the tag of type `group` with global ID `id`:
/// the target is looked up (and decoded on first use) in the registry, and
/// a target that no archive holds, or that does not decode, is `Absent`.
pub fn resolve(registry: &mut ModuleRegistry, group: u32, id: i32) -> (res: ResolvedReference)
    requires
        old(registry).wf(),
    ensures
        resolve_post(*old(registry), group, id, *final(registry), res),
{
    match registry.lookup(group, id) {
        Ok(Some(h)) => ResolvedReference::Present(h),
        _ => ResolvedReference::Absent(id),
    }
}

/// The group code and global ID held by field `i` of `rec`, where it is a reference.
pub fn reference_at(rec: &DecodedRecord, i: usize) -> (r: Option<(u32, i32)>)
    ensures
        match r {
            Some((g, id)) => {
                &&& i < rec.fields@.len()
                &&& rec.fields@[i as int] matches FieldValue::Reference(t)
                &&& t.group == g
                &&& t.global_id == id
            },
            None => !(i < rec.fields@.len() && rec.fields@[i as int] is Reference),
        },
{
    if i >= rec.fields.len() {
        return None;
    }
    match &rec.fields[i] {
        FieldValue::Reference(t) => Some((t.group, t.global_id)),
        _ => None,
    }
}

/// A reference whose target no registered archive holds resolves to
/// `Absent` with the reference's own global ID.
pub proof fn lemma_missing_target_absent(
    pre: ModuleRegistry,
    group: u32,
    id: i32,
    post: ModuleRegistry,
    res: ResolvedReference,
)
    requires
        locate(pre.archives_view(), group, id, 0) is None,
        resolve_post(pre, group, id, post, res),
    ensures
        res == ResolvedReference::Absent(id),
{
}

} // verus!
