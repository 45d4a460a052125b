use signal_interner::atomic_linked_list::AtomicLinkedList;

#[test]
fn append_links_after_head() {
    let mut list = AtomicLinkedList::new("a");
    list.append("b");
    assert_eq!(list.nodes_len(), 2);
    assert_eq!(list.next_link(0), Some(1));
    assert_eq!(list.prev_link(1), Some(0));
    assert_eq!(list.next_link(1), None);
    assert_eq!(*list.element_at(1), "b");
    assert_eq!(list.head(), Some(0));
}

#[test]
fn append_when_head_has_successor_leaves_links() {
    let mut list = AtomicLinkedList::new(1u8);
    list.append(2);
    list.append(3);
    assert_eq!(list.nodes_len(), 3);
    assert_eq!(list.next_link(0), Some(1));
    assert_eq!(list.prev_link(2), Some(0));
    assert_eq!(list.next_link(2), None);
    assert_eq!(*list.element_at(2), 3);
}
