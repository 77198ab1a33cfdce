//! The category tree builder: a flat list of categories, each naming its
//! parent, and a flat list of entries, each naming its category, become a
//! forest with the entries attached to their categories.
use vstd::prelude::*;

verus! {

/// A category as the manifest lists it.
#[derive(PartialEq, Eq, Structural, Debug, Clone, Copy)]
pub struct CategoryRecord {
    pub id: u32,
    pub parent: u32,
    pub title: i32,
}

/// A category with its sub-categories and the positions, in the entry list,
/// of the entries attached to it; both in input order.
pub struct CategoryNode {
    pub id: u32,
    pub title: i32,
    pub children: Vec<CategoryNode>,
    pub entries: Vec<usize>,
}

/// The positions among the first `n` categories of those whose parent is `parent`.
pub open spec fn children_in(cats: Seq<CategoryRecord>, parent: u32, n: int) -> Seq<int>
    decreases n,
{
    if n <= 0 || n > cats.len() {
        Seq::empty()
    } else {
        let before = children_in(cats, parent, n - 1);
        if cats[n - 1].parent == parent {
            before.push(n - 1)
        } else {
            before
        }
    }
}

/// The positions among the first `n` entry keys of those that name category `id`.
pub open spec fn entries_in(keys: Seq<Option<u32>>, id: u32, n: int) -> Seq<usize>
    decreases n,
{
    if n <= 0 || n > keys.len() {
        Seq::empty()
    } else {
        let before = entries_in(keys, id, n - 1);
        if keys[n - 1] == Some(id) {
            before.push((n - 1) as usize)
        } else {
            before
        }
    }
}

/// `node` is the subtree of category `idx`, built to depth `depth`: below
/// that depth a node gets no sub-categories.
pub open spec fn node_matches(
    cats: Seq<CategoryRecord>,
    keys: Seq<Option<u32>>,
    idx: int,
    depth: nat,
    node: CategoryNode,
) -> bool
    decreases depth,
{
    let c = cats[idx];
    let kids = children_in(cats, c.id, cats.len() as int);
    &&& node.id == c.id
    &&& node.title == c.title
    &&& node.entries@ == entries_in(keys, c.id, keys.len() as int)
    &&& if depth == 0 {
        node.children@.len() == 0
    } else {
        &&& node.children@.len() == kids.len()
        &&& forall|k: int|
            0 <= k < kids.len() ==> node_matches(
                cats,
                keys,
                kids[k],
                (depth - 1) as nat,
                #[trigger] node.children@[k],
            )
    }
}

/// `forest` holds, in input order, the trees of the categories whose parent
/// is `root`. Each is built to the depth of the number of categories, which
/// an acyclic list never reaches.
pub open spec fn forest_matches(
    cats: Seq<CategoryRecord>,
    keys: Seq<Option<u32>>,
    root: u32,
    forest: Seq<CategoryNode>,
) -> bool {
    let roots = children_in(cats, root, cats.len() as int);
    &&& forest.len() == roots.len()
    &&& forall|k: int|
        0 <= k < roots.len() ==> node_matches(cats, keys, roots[k], cats.len(), #[trigger] forest[k])
}

/// The positions of the entries whose category is `id`.
pub fn attached_entries(keys: &Vec<Option<u32>>, id: u32) -> (r: Vec<usize>)
    ensures
        r@ == entries_in(keys@, id, keys@.len() as int),
        forall|k: int| 0 <= k < r@.len() ==> #[trigger] r@[k] < keys@.len(),
{
    let mut out: Vec<usize> = Vec::new();
    let mut j: usize = 0;
    while j < keys.len()
        invariant
            j <= keys@.len(),
            out@ == entries_in(keys@, id, j as int),
            forall|k: int| 0 <= k < out@.len() ==> #[trigger] out@[k] < j,
        decreases keys@.len() - j,
    {
        if let Some(key) = keys[j] {
            if key == id {
                out.push(j);
            }
        }
        j = j + 1;
    }
    out
}

/// Builds the subtree of category `idx` to depth `depth`.
fn build_node(cats: &Vec<CategoryRecord>, keys: &Vec<Option<u32>>, idx: usize, depth: usize) -> (r:
    CategoryNode)
    requires
        idx < cats@.len(),
    ensures
        node_matches(cats@, keys@, idx as int, depth as nat, r),
    decreases depth,
{
    let c = cats[idx];
    let entries = attached_entries(keys, c.id);
    let mut children: Vec<CategoryNode> = Vec::new();
    if depth > 0 {
        let mut k: usize = 0;
        while k < cats.len()
            invariant
                idx < cats@.len(),
                c == cats@[idx as int],
                depth > 0,
                k <= cats@.len(),
                children@.len() == children_in(cats@, c.id, k as int).len(),
                forall|m: int|
                    0 <= m < children@.len() ==> node_matches(
                        cats@,
                        keys@,
                        children_in(cats@, c.id, k as int)[m],
                        (depth - 1) as nat,
                        #[trigger] children@[m],
                    ),
            decreases cats@.len() - k,
        {
            if cats[k].parent == c.id {
                let child = build_node(cats, keys, k, depth - 1);
                children.push(child);
            }
            k = k + 1;
        }
    }
    CategoryNode { id: c.id, title: c.title, children, entries }
}

/// Builds the forest of the categories whose parent is `root`, attaching to
/// each category the positions of the entries whose key is its ID. An entry
/// without a key is attached nowhere.
pub fn build_forest(cats: &Vec<CategoryRecord>, keys: &Vec<Option<u32>>, root: u32) -> (r: Vec<
    CategoryNode,
>)
    ensures
        forest_matches(cats@, keys@, root, r@),
{
    let mut forest: Vec<CategoryNode> = Vec::new();
    let mut k: usize = 0;
    while k < cats.len()
        invariant
            k <= cats@.len(),
            forest@.len() == children_in(cats@, root, k as int).len(),
            forall|m: int|
                0 <= m < forest@.len() ==> node_matches(
                    cats@,
                    keys@,
                    children_in(cats@, root, k as int)[m],
                    cats@.len() as nat,
                    #[trigger] forest@[m],
                ),
        decreases cats@.len() - k,
    {
        if cats[k].parent == root {
            let node = build_node(cats, keys, k, cats.len());
            forest.push(node);
        }
        k = k + 1;
    }
    forest
}

/// With no categories the forest is empty; with one category whose parent
/// is the root (and which is not the root itself) the forest is that one
/// category, with no sub-categories.
pub proof fn lemma_small_forests(
    cats: Seq<CategoryRecord>,
    keys: Seq<Option<u32>>,
    root: u32,
    forest: Seq<CategoryNode>,
)
    requires
        forest_matches(cats, keys, root, forest),
    ensures
        cats.len() == 0 ==> forest.len() == 0,
        cats.len() == 1 && cats[0].parent == root && cats[0].id != root ==> {
            &&& forest.len() == 1
            &&& forest[0].id == cats[0].id
            &&& forest[0].children@.len() == 0
        },
{
    if cats.len() == 1 && cats[0].parent == root && cats[0].id != root {
        assert(children_in(cats, root, 0) == Seq::<int>::empty());
        assert(children_in(cats, root, 1) == seq![0int]);
        assert(children_in(cats, cats[0].id, 0) == Seq::<int>::empty());
        assert(children_in(cats, cats[0].id, 1) == Seq::<int>::empty());
        assert(node_matches(cats, keys, 0, 1, forest[0]));
    }
}

} // verus!
