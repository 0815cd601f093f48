use bintree::BinTree;

#[test]
fn test_empty_tree_provide_none() {
    let tree = BinTree::new();
    assert_eq!(tree.get(42), None);
}

#[test]
fn test_empty_tree_provide_none_for_reference() {
    let tree = BinTree::new();
    assert_eq!(tree.get_ref(42), None);
}

#[test]
fn test_tree_get_ref() {
    let value: i32 = 56;
    let mut tree = BinTree::new();

    tree.insert(42, value);

    assert_eq!(tree.get_ref(42), Some(&value));
}

#[test]
fn test_tree_get_ref_bigger() {
    let value: i32 = 56;
    let mut tree = BinTree::new();

    tree.insert(42, 21);
    tree.insert(66, value);

    assert_eq!(tree.get_ref(66), Some(&value));
}

#[test]
fn test_tree_get_ref_smaller() {
    let value: i32 = 56;
    let mut tree = BinTree::new();

    tree.insert(42, 21);
    tree.insert(33, value);

    assert_eq!(tree.get_ref(33), Some(&value));
}

#[test]
fn test_insert() {
    let mut tree = BinTree::new();
    tree.insert(42, 56);
    assert_eq!(tree.get(42), Some(56));
}

#[test]
fn test_insert_smaller() {
    let mut tree = BinTree::new();
    tree.insert(42, 56);
    tree.insert(11, 22);
    assert_eq!(tree.get(42), Some(56));
    assert_eq!(tree.get(11), Some(22));
}

#[test]
fn test_insert_bigger() {
    let mut tree = BinTree::new();
    tree.insert(42, 56);
    tree.insert(111, 222);
    assert_eq!(tree.get(42), Some(56));
    assert_eq!(tree.get(111), Some(222));
}

#[test]
fn test_get_mut_tree() {
    let mut tree = BinTree::new();
    tree.insert(42, 56);

    assert_eq!(tree.get_mut(42), Some(&mut 56));
}

#[test]
fn test_get_mut_tree_bigger() {
    let mut tree = BinTree::new();
    tree.insert(42, 56);
    tree.insert(421, 561);

    assert_eq!(tree.get_mut(421), Some(&mut 561));
}

#[test]
fn test_get_mut_tree_smaller() {
    let mut tree = BinTree::new();
    tree.insert(42, 56);
    tree.insert(1, 6);

    assert_eq!(tree.get_mut(1), Some(&mut 6));
}

#[test]
fn test_change_get_mut_tree() {
    let mut tree = BinTree::new();
    tree.insert(42, 56);

    {
        let value: &mut i32 = tree.get_mut(42).unwrap();
        *value = 16;
    }

    assert_eq!(tree.get_mut(42), Some(&mut 16));
}
