use bintree::Node;

#[test]
fn test_node_get_ref_returns_node_for_unknown_key() {
    let value: i32 = 56;
    let node = Node::new(42, value);

    assert_eq!(node.get_ref(36), None);
}

#[test]
fn test_node_get_ref_returns_a_reference() {
    let value: i32 = 56;
    let node = Node::new(42, value);

    assert_eq!(node.get_ref(42), Some(&value));
}

#[test]
fn test_node_get_ref_for_the_bigger_sub_node() {
    let value: i32 = 56;
    let mut node = Node::new(42, 20);

    node.insert(66, value);

    assert_eq!(node.get_ref(66), Some(&value));
}

#[test]
fn test_node_get_ref_for_the_smaller_sub_node() {
    let value: i32 = 56;
    let mut node = Node::new(42, 20);

    node.insert(33, value);

    assert_eq!(node.get_ref(33), Some(&value));
}

#[test]
fn test_get_mut_returns_none_for_unknown_key() {
    let mut node = Node::new(42, 21);

    assert_eq!(node.get_mut(21), None);
}

#[test]
fn test_node_get_mut() {
    let mut node = Node::new(42, 20);

    assert_eq!(node.get_mut(42), Some(&mut 20));
}

#[test]
fn test_node_get_mut_bigger() {
    let mut node = Node::new(42, 20);
    node.insert(56, 40);

    assert_eq!(node.get_mut(56), Some(&mut 40));
}

#[test]
fn test_node_get_mut_smaller() {
    let mut node = Node::new(42, 20);
    node.insert(13, 10);

    assert_eq!(node.get_mut(13), Some(&mut 10));
}

#[test]
fn test_node_get_mut_can_be_changed() {
    let mut node = Node::new(42, 20);

    {
        let value: &mut i32 = node.get_mut(42).unwrap();
        *value = 56;
    }

    assert_eq!(node.get(42), Some(56));
}
