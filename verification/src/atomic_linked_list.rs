use vstd::prelude::*;

verus! {

/// One node of the list: the positions of its neighbours, if linked, and its
/// element.
struct Node<T> {
    next: Option<usize>,
    prev: Option<usize>,
    element: T,
}

/// A doubly linked list whose nodes live in an arena and refer to each other
/// by position in it.
pub struct AtomicLinkedList<T> {
    nodes: Vec<Node<T>>,
    head: Option<usize>,
    tail: Option<usize>,
    len: usize,
}

/// Whether a link points at no node.
fn is_null(link: &Option<usize>) -> (r: bool)
    ensures
        r == link.is_none(),
{
    link.is_none()
}

impl<T> AtomicLinkedList<T> {
    /// The number of nodes in the arena, linked or not.
    pub closed spec fn node_count(&self) -> nat {
        self.nodes@.len()
    }

    /// The element of node `i`.
    pub closed spec fn element(&self, i: int) -> T {
        self.nodes@[i].element
    }

    /// The successor link of node `i`.
    pub closed spec fn next_of(&self, i: int) -> Option<usize> {
        self.nodes@[i].next
    }

    /// The predecessor link of node `i`.
    pub closed spec fn prev_of(&self, i: int) -> Option<usize> {
        self.nodes@[i].prev
    }

    /// The head link.
    pub closed spec fn head_link(&self) -> Option<usize> {
        self.head
    }

    /// The tail link.
    pub closed spec fn tail_link(&self) -> Option<usize> {
        self.tail
    }

    /// The recorded length.
    pub closed spec fn recorded_len(&self) -> nat {
        self.len as nat
    }

    /// Every link points at a node of the arena, and every successor link is
    /// mirrored by the predecessor link of the node it points at.
    pub open spec fn wf(&self) -> bool {
        &&& self.head_link() matches Some(h) && h < self.node_count()
        &&& self.tail_link() matches Some(t) ==> t < self.node_count()
        &&& forall|i: int|
            0 <= i < self.node_count() ==> (#[trigger] self.next_of(i) matches Some(j) ==> j
                < self.node_count() && self.prev_of(j as int) == Some(i as usize))
        &&& forall|i: int|
            0 <= i < self.node_count() ==> (#[trigger] self.prev_of(i) matches Some(j) ==> j
                < self.node_count())
    }

    /// The number of nodes in the arena, linked or not.
    pub fn nodes_len(&self) -> (r: usize)
        ensures
            r == self.node_count(),
    {
        self.nodes.len()
    }

    /// The head link.
    pub fn head(&self) -> (r: Option<usize>)
        ensures
            r == self.head_link(),
    {
        self.head
    }

    /// The successor link of node `index`.
    pub fn next_link(&self, index: usize) -> (r: Option<usize>)
        requires
            index < self.node_count(),
        ensures
            r == self.next_of(index as int),
    {
        self.nodes[index].next
    }

    /// The predecessor link of node `index`.
    pub fn prev_link(&self, index: usize) -> (r: Option<usize>)
        requires
            index < self.node_count(),
        ensures
            r == self.prev_of(index as int),
    {
        self.nodes[index].prev
    }

    /// The element of node `index`.
    pub fn element_at(&self, index: usize) -> (r: &T)
        requires
            index < self.node_count(),
        ensures
            *r == self.element(index as int),
    {
        &self.nodes[index].element
    }

    /// A list of one node that holds `first`.
    pub fn new(first: T) -> (r: Self)
        ensures
            r.wf(),
            r.node_count() == 1,
            r.element(0) == first,
            r.next_of(0) == None::<usize>,
            r.prev_of(0) == None::<usize>,
            r.head_link() == Some(0usize),
            r.tail_link() == Some(0usize),
            r.recorded_len() == 1,
    {
        let mut nodes: Vec<Node<T>> = Vec::new();
        nodes.push(Node { next: None, prev: None, element: first });
        AtomicLinkedList { nodes, head: Some(0), tail: Some(0), len: 1 }
    }

    /// Adds a node for `value` whose predecessor is the head, and makes it
    /// the head's successor if the head has none yet. Head, tail and length
    /// stay as they are.
    pub fn append(&mut self, value: T)
        requires
            old(self).wf(),
            old(self).node_count() < usize::MAX,
        ensures
            final(self).wf(),
            final(self).node_count() == old(self).node_count() + 1,
            final(self).element(old(self).node_count() as int) == value,
            final(self).next_of(old(self).node_count() as int) == None::<usize>,
            final(self).prev_of(old(self).node_count() as int) == old(self).head_link(),
            ({
                let h = old(self).head_link()->0 as int;
                &&& old(self).next_of(h) is None ==> final(self).next_of(h) == Some(
                    old(self).node_count() as usize,
                )
                &&& old(self).next_of(h) is Some ==> final(self).next_of(h) == old(self).next_of(h)
                &&& final(self).prev_of(h) == old(self).prev_of(h)
                &&& final(self).element(h) == old(self).element(h)
            }),
            forall|i: int|
                0 <= i < old(self).node_count() && i != old(self).head_link()->0 ==> {
                    &&& #[trigger] final(self).element(i) == old(self).element(i)
                    &&& final(self).next_of(i) == old(self).next_of(i)
                    &&& final(self).prev_of(i) == old(self).prev_of(i)
                },
            final(self).head_link() == old(self).head_link(),
            final(self).tail_link() == old(self).tail_link(),
            final(self).recorded_len() == old(self).recorded_len(),
    {
        let head_raw = self.head;
        let next = Node { next: None, prev: head_raw, element: value };
        let next_raw = self.nodes.len();
        self.nodes.push(next);
        let head_index = match head_raw {
            Some(h) => h,
            None => vstd::pervasive::unreached(),
        };
        if is_null(&self.nodes[head_index].next) {
            self.nodes[head_index].next = Some(next_raw);
        }
        proof {
            assert forall|i: int| 0 <= i < self.node_count() implies (#[trigger] self.next_of(i) matches Some(j)
                ==> j < self.node_count() && self.prev_of(j as int) == Some(i as usize)) by {
                if i < old(self).node_count() && i != head_index {
                    assert(old(self).next_of(i) == self.next_of(i));
                }
                if i == head_index && old(self).next_of(i) is Some {
                    assert(old(self).next_of(i) == self.next_of(i));
                }
            }
            assert(self.head_link() matches Some(h) && h < self.node_count());
            assert(self.tail_link() matches Some(t) ==> t < self.node_count());
            assert forall|i: int| 0 <= i < self.node_count() implies (#[trigger] self.prev_of(i) matches Some(j)
                ==> j < self.node_count()) by {
                if i < old(self).node_count() {
                    assert(old(self).prev_of(i) == self.prev_of(i));
                }
            }
        }
    }
}

} // verus!
