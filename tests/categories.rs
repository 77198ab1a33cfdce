use ekur::category::{build_forest, CategoryRecord};

const ROOT: u32 = 0xffff_0000;

fn cat(id: u32, parent: u32) -> CategoryRecord {
    CategoryRecord { id, parent, title: id as i32 }
}

#[test]
fn empty_category_list_gives_empty_forest() {
    assert!(build_forest(&vec![], &vec![Some(1)], ROOT).is_empty());
}

#[test]
fn single_root_category_gives_single_leaf() {
    let forest = build_forest(&vec![cat(1, ROOT)], &vec![], ROOT);
    assert_eq!(forest.len(), 1);
    assert_eq!(forest[0].id, 1);
    assert!(forest[0].children.is_empty());
    assert!(forest[0].entries.is_empty());
}

#[test]
fn entries_attach_to_their_nested_category() {
    let payloads = vec!["x"];
    let keys = vec![Some(2)];
    let forest = build_forest(&vec![cat(1, ROOT), cat(2, 1)], &keys, ROOT);
    assert_eq!(forest.len(), 1);
    assert_eq!(forest[0].id, 1);
    assert!(forest[0].entries.is_empty());
    assert_eq!(forest[0].children.len(), 1);
    let child = &forest[0].children[0];
    assert_eq!(child.id, 2);
    assert!(child.children.is_empty());
    let attached: Vec<&str> = child.entries.iter().map(|&i| payloads[i]).collect();
    assert_eq!(attached, vec!["x"]);
}

#[test]
fn children_keep_input_order_and_keyless_entries_attach_nowhere() {
    let cats = vec![cat(1, ROOT), cat(3, 1), cat(2, 1), cat(4, ROOT)];
    let keys = vec![Some(1), None, Some(1), Some(4)];
    let forest = build_forest(&cats, &keys, ROOT);
    assert_eq!(forest.iter().map(|n| n.id).collect::<Vec<_>>(), vec![1, 4]);
    assert_eq!(forest[0].children.iter().map(|n| n.id).collect::<Vec<_>>(), vec![3, 2]);
    assert_eq!(forest[0].entries, vec![0, 2]);
    assert_eq!(forest[1].entries, vec![3]);
}
