use xx_core::container::intrusive::linked_list::{LinkedList, Node, NodeArena};
use xx_core::container::zero_alloc::linked_list as zero_alloc;

fn pinned(arena: &mut NodeArena) -> LinkedList {
    let mut list = LinkedList::new();
    list.pin(arena);
    list
}

#[test]
fn node_new_is_unlinked() {
    let node = Node::new();
    assert!(!node.linked());
}

#[test]
fn pinned_list_is_empty() {
    let mut arena = NodeArena::new();
    let list = pinned(&mut arena);
    assert!(list.is_empty(&arena));
    let base = list.head(&arena);
    assert_eq!(list.tail(&arena), base);
    assert!(arena.get(base).linked());
}

#[test]
fn append_keeps_order() {
    let mut arena = NodeArena::new();
    let mut list = pinned(&mut arena);
    let a = arena.add_node();
    let b = arena.add_node();
    let c = arena.add_node();
    list.append(&mut arena, a);
    list.append(&mut arena, b);
    list.append(&mut arena, c);
    assert!(!list.is_empty(&arena));
    assert_eq!(list.head(&arena), a);
    assert_eq!(list.tail(&arena), c);
    assert!(arena.get(b).linked());
    assert_eq!(list.pop_front(&mut arena), Some(a));
    assert_eq!(list.pop_front(&mut arena), Some(b));
    assert_eq!(list.pop_front(&mut arena), Some(c));
    assert_eq!(list.pop_front(&mut arena), None);
    assert!(!arena.get(a).linked());
}

#[test]
fn pop_back_takes_the_tail() {
    let mut arena = NodeArena::new();
    let mut list = pinned(&mut arena);
    let a = arena.add_node();
    let b = arena.add_node();
    list.append(&mut arena, a);
    list.append(&mut arena, b);
    assert_eq!(list.pop_back(&mut arena), Some(b));
    assert_eq!(list.pop_back(&mut arena), Some(a));
    assert_eq!(list.pop_back(&mut arena), None);
    assert!(list.is_empty(&arena));
}

#[test]
fn remove_from_the_middle() {
    let mut arena = NodeArena::new();
    let mut list = pinned(&mut arena);
    let a = arena.add_node();
    let b = arena.add_node();
    let c = arena.add_node();
    list.append(&mut arena, a);
    list.append(&mut arena, b);
    list.append(&mut arena, c);
    list.remove(&mut arena, b);
    assert!(!arena.get(b).linked());
    assert_eq!(list.pop_front(&mut arena), Some(a));
    assert_eq!(list.pop_front(&mut arena), Some(c));
    assert!(list.is_empty(&arena));
}

#[test]
fn unlink_node_directly() {
    let mut arena = NodeArena::new();
    let mut list = pinned(&mut arena);
    let a = arena.add_node();
    let b = arena.add_node();
    list.append(&mut arena, a);
    list.append(&mut arena, b);
    Node::unlink(&mut arena, a);
    assert!(!arena.get(a).linked());
    assert_eq!(list.head(&arena), b);
}

#[test]
fn move_elements_keeps_order() {
    let mut arena = NodeArena::new();
    let mut from = pinned(&mut arena);
    let mut to = pinned(&mut arena);
    let a = arena.add_node();
    let b = arena.add_node();
    from.append(&mut arena, a);
    from.append(&mut arena, b);
    from.move_elements(&mut to, &mut arena);
    assert!(from.is_empty(&arena));
    assert_eq!(to.pop_front(&mut arena), Some(a));
    assert_eq!(to.pop_front(&mut arena), Some(b));
    assert!(to.is_empty(&arena));
}

#[test]
fn move_elements_of_empty_list() {
    let mut arena = NodeArena::new();
    let mut from = pinned(&mut arena);
    let mut to = pinned(&mut arena);
    from.move_elements(&mut to, &mut arena);
    assert!(from.is_empty(&arena));
    assert!(to.is_empty(&arena));
}

#[test]
fn append_then_pop_back_restores_links() {
    let mut arena = NodeArena::new();
    let mut list = pinned(&mut arena);
    let a = arena.add_node();
    let b = arena.add_node();
    list.append(&mut arena, a);
    let head = list.head(&arena);
    list.append(&mut arena, b);
    assert_eq!(list.pop_back(&mut arena), Some(b));
    assert_eq!(list.head(&arena), head);
    assert_eq!(list.tail(&arena), a);
    assert!(!arena.get(b).linked());
}

#[test]
fn lists_share_an_arena_without_interference() {
    let mut arena = NodeArena::new();
    let mut one = pinned(&mut arena);
    let mut two = pinned(&mut arena);
    let a = arena.add_node();
    let b = arena.add_node();
    one.append(&mut arena, a);
    two.append(&mut arena, b);
    one.remove(&mut arena, a);
    assert!(one.is_empty(&arena));
    assert_eq!(two.head(&arena), b);
    assert_eq!(two.pop_front(&mut arena), Some(b));
}

#[test]
fn zero_alloc_list_round_trip() {
    let mut arena = NodeArena::new();
    let mut list = zero_alloc::LinkedList::new();
    list.pin(&mut arena);
    assert!(list.empty(&arena));
    let a = arena.add_node();
    let b = arena.add_node();
    list.append(&mut arena, a);
    list.append(&mut arena, b);
    assert_eq!(list.head(&arena), a);
    assert_eq!(list.tail(&arena), b);
    list.remove(&mut arena, a);
    assert_eq!(list.pop_back(&mut arena), Some(b));
    assert_eq!(list.pop_front(&mut arena), None);
    assert!(!zero_alloc::Node::new().linked());
}

#[test]
fn zero_alloc_move_elements() {
    let mut arena = NodeArena::new();
    let mut from = zero_alloc::LinkedList::new();
    from.pin(&mut arena);
    let mut to = zero_alloc::LinkedList::new();
    to.pin(&mut arena);
    let a = arena.add_node();
    from.append(&mut arena, a);
    from.move_elements(&mut to, &mut arena);
    assert!(from.empty(&arena));
    assert_eq!(to.pop_front(&mut arena), Some(a));
}
