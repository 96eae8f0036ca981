//! Intrusive linked list implementation
//!
//! Nodes stay where they were put: each one has a fixed address in a
//! [`NodeArena`], its index there, and holds the addresses of its neighbours.
//! A list owns a base node; the base and the nodes of the list form a ring,
//! so the base's next node is the head and its previous node the tail.

use vstd::prelude::*;

verus! {

/// The links of a node: the address of its previous and of its next node,
/// both `None` while the node is in no list
pub type Links = (Option<usize>, Option<usize>);

/// The node of a linked list
#[derive(Clone, Copy)]
pub struct Node {
    prev: Option<usize>,
    next: Option<usize>,
}

impl View for Node {
    type V = Links;

    closed spec fn view(&self) -> Links {
        (self.prev, self.next)
    }
}

/// The links of the node at `addr` once its previous node is `prev`
pub open spec fn set_prev_spec(links: Seq<Links>, addr: int, prev: Option<usize>) -> Seq<Links> {
    links.update(addr, (prev, links[addr].1))
}

/// The links of the node at `addr` once its next node is `next`
pub open spec fn set_next_spec(links: Seq<Links>, addr: int, next: Option<usize>) -> Seq<Links> {
    links.update(addr, (links[addr].0, next))
}

/// Put `this` after `prev` (where given), then before `next` (where given)
pub open spec fn set_ptrs_spec(
    links: Seq<Links>,
    this: usize,
    prev: Option<usize>,
    next: Option<usize>,
) -> Seq<Links> {
    let l1 = match prev {
        Some(p) => set_next_spec(set_prev_spec(links, this as int, Some(p)), p as int, Some(this)),
        None => links,
    };
    match next {
        Some(n) => set_prev_spec(set_next_spec(l1, this as int, Some(n)), n as int, Some(this)),
        None => l1,
    }
}

/// Make `this` a ring of its own
pub open spec fn set_circular_spec(links: Seq<Links>, this: usize) -> Seq<Links> {
    set_ptrs_spec(links, this, Some(this), None)
}

/// Take the node at `addr` out of its ring: its neighbours are joined and it
/// is left with no links
pub open spec fn unlink_spec(links: Seq<Links>, addr: int) -> Seq<Links> {
    let p = links[addr].0.unwrap();
    let n = links[addr].1.unwrap();
    set_prev_spec(
        set_next_spec(links.update(addr, (None, None)), p as int, Some(n)),
        n as int,
        Some(p),
    )
}

/// The node at `addr` is linked, and its neighbours are valid addresses
pub open spec fn linked_at(links: Seq<Links>, addr: int) -> bool {
    &&& 0 <= addr < links.len()
    &&& links[addr].0 is Some
    &&& links[addr].1 is Some
    &&& links[addr].0.unwrap() < links.len()
    &&& links[addr].1.unwrap() < links.len()
}

/// The ring of a list: its base, then its nodes from head to tail
pub open spec fn ring(base: usize, elems: Seq<usize>) -> Seq<usize> {
    seq![base] + elems
}

/// The node after position `i` of a ring
pub open spec fn ring_next(r: Seq<usize>, i: int) -> usize {
    if i + 1 < r.len() {
        r[i + 1]
    } else {
        r[0]
    }
}

/// The node before position `i` of a ring
pub open spec fn ring_prev(r: Seq<usize>, i: int) -> usize {
    if i > 0 {
        r[i - 1]
    } else {
        r[r.len() - 1]
    }
}

/// The links hold a list with base `base` and nodes `elems`, in order: the
/// addresses are valid and distinct, and each node of the ring is linked to
/// its neighbours in the ring
pub open spec fn list_wf(links: Seq<Links>, base: usize, elems: Seq<usize>) -> bool {
    let r = ring(base, elems);
    &&& forall|i: int| 0 <= i < r.len() ==> #[trigger] r[i] < links.len()
    &&& forall|i: int, j: int| 0 <= i < j < r.len() ==> r[i] != r[j]
    &&& forall|i: int|
        0 <= i < r.len() ==> #[trigger] links[r[i] as int] == (
            Some(ring_prev(r, i)),
            Some(ring_next(r, i)),
        )
}

/// Memory for nodes: a node's address is its index here
pub struct NodeArena {
    nodes: Vec<Node>,
}

impl View for NodeArena {
    type V = Seq<Links>;

    closed spec fn view(&self) -> Seq<Links> {
        self.nodes@.map_values(|n: Node| n@)
    }
}

impl NodeArena {
    /// Memory holding no node
    pub fn new() -> (a: Self)
        ensures
            a@ == Seq::<Links>::empty(),
    {
        let a = NodeArena { nodes: Vec::new() };
        assert(a@ =~= Seq::<Links>::empty());
        a
    }

    /// Place a new node, linked in no list, and return its address
    pub fn add_node(&mut self) -> (addr: usize)
        requires
            old(self)@.len() < usize::MAX,
        ensures
            addr == old(self)@.len(),
            final(self)@ == old(self)@.push((None, None)),
    {
        let addr = self.nodes.len();
        self.nodes.push(Node::new());
        assert(self@ =~= old(self)@.push((None, None)));
        addr
    }

    /// The node at `addr`
    pub fn get(&self, addr: usize) -> (n: Node)
        requires
            addr < self@.len(),
        ensures
            n@ == self@[addr as int],
    {
        self.nodes[addr]
    }

    fn set(&mut self, addr: usize, links: Links)
        requires
            addr < old(self)@.len(),
        ensures
            final(self)@ == old(self)@.update(addr as int, links),
    {
        self.nodes.set(addr, Node { prev: links.0, next: links.1 });
        assert(self@ =~= old(self)@.update(addr as int, links));
    }

    fn set_prev(&mut self, addr: usize, prev: Option<usize>)
        requires
            addr < old(self)@.len(),
        ensures
            final(self)@ == set_prev_spec(old(self)@, addr as int, prev),
    {
        let n = self.get(addr);
        self.set(addr, (prev, n.next));
    }

    fn set_next(&mut self, addr: usize, next: Option<usize>)
        requires
            addr < old(self)@.len(),
        ensures
            final(self)@ == set_next_spec(old(self)@, addr as int, next),
    {
        let n = self.get(addr);
        self.set(addr, (n.prev, next));
    }
}

impl Node {
    /// Link `this` after `prev` and before `next`, where given
    fn set_ptrs(arena: &mut NodeArena, this: usize, prev: Option<usize>, next: Option<usize>)
        requires
            this < old(arena)@.len(),
            prev is Some ==> prev.unwrap() < old(arena)@.len(),
            next is Some ==> next.unwrap() < old(arena)@.len(),
        ensures
            final(arena)@ == set_ptrs_spec(old(arena)@, this, prev, next),
    {
        if let Some(p) = prev {
            arena.set_prev(this, Some(p));
            arena.set_next(p, Some(this));
        }
        if let Some(n) = next {
            arena.set_next(this, Some(n));
            arena.set_prev(n, Some(this));
        }
    }

    /// Make `this` a ring of its own
    fn set_circular(arena: &mut NodeArena, this: usize)
        requires
            this < old(arena)@.len(),
        ensures
            final(arena)@ == set_circular_spec(old(arena)@, this),
    {
        Self::set_ptrs(arena, this, Some(this), None);
    }

    /// Create a new node, linked in no list
    pub fn new() -> (n: Self)
        ensures
            n@ == (None::<usize>, None::<usize>),
    {
        Self { prev: None, next: None }
    }

    /// Returns `true` if the node is linked in a list
    pub fn linked(&self) -> (b: bool)
        ensures
            b == self@.0 is Some,
    {
        self.prev.is_some()
    }

    /// Unlink the node at `this`, which must be linked
    pub fn unlink_unchecked(arena: &mut NodeArena, this: usize)
        requires
            linked_at(old(arena)@, this as int),
        ensures
            final(arena)@ == unlink_spec(old(arena)@, this as int),
    {
        let node = arena.get(this);
        let prev = node.prev.unwrap();
        let next = node.next.unwrap();
        arena.set(this, (None, None));
        arena.set_next(prev, Some(next));
        arena.set_prev(next, Some(prev));
    }

    /// Unlink the node at `this`
    pub fn unlink(arena: &mut NodeArena, this: usize)
        requires
            linked_at(old(arena)@, this as int),
        ensures
            final(arena)@ == unlink_spec(old(arena)@, this as int),
    {
        let linked = arena.get(this).linked();
        if linked {
            Self::unlink_unchecked(arena, this);
        }
    }
}

/// A list stays well formed while the links of its ring are unchanged
pub proof fn lemma_list_frame(l1: Seq<Links>, l2: Seq<Links>, base: usize, elems: Seq<usize>)
    requires
        list_wf(l1, base, elems),
        l2.len() >= l1.len(),
        forall|i: int|
            0 <= i < ring(base, elems).len() ==> l2[#[trigger] ring(base, elems)[i] as int]
                == l1[ring(base, elems)[i] as int],
    ensures
        list_wf(l2, base, elems),
{
    let r = ring(base, elems);
    assert forall|i: int| 0 <= i < r.len() implies #[trigger] l2[r[i] as int] == (
        Some(ring_prev(r, i)),
        Some(ring_next(r, i)),
    ) by {
        assert(l2[r[i] as int] == l1[r[i] as int]);
    }
}

/// The address is not one of the ring's
pub open spec fn outside_ring(base: usize, elems: Seq<usize>, addr: usize) -> bool {
    forall|i: int| 0 <= i < ring(base, elems).len() ==> #[trigger] ring(base, elems)[i] != addr
}

/// An unlinked node is in no well-formed list
pub proof fn lemma_unlinked_outside(links: Seq<Links>, base: usize, elems: Seq<usize>, addr: usize)
    requires
        list_wf(links, base, elems),
        0 <= addr < links.len(),
        links[addr as int].0 is None,
    ensures
        outside_ring(base, elems, addr),
{
    let r = ring(base, elems);
    assert forall|i: int| 0 <= i < r.len() implies #[trigger] r[i] != addr by {
        if r[i] == addr {
            assert(links[r[i] as int].0 is Some);
        }
    }
}

/// The links after appending `node` to the list
pub open spec fn append_spec(links: Seq<Links>, base: usize, node: usize) -> Seq<Links> {
    set_ptrs_spec(links, node, links[base as int].0, Some(base))
}

/// Appending an unlinked node keeps the list well formed, with the node last
pub proof fn lemma_append_wf(links: Seq<Links>, base: usize, elems: Seq<usize>, node: usize)
    requires
        list_wf(links, base, elems),
        0 <= node < links.len(),
        links[node as int].0 is None,
    ensures
        list_wf(append_spec(links, base, node), base, elems.push(node)),
{
    let r = ring(base, elems);
    let r2 = ring(base, elems.push(node));
    let m = r.len();
    assert(r2 =~= r.push(node));
    lemma_unlinked_outside(links, base, elems, node);
    assert(links[r[0] as int] == (Some(ring_prev(r, 0)), Some(ring_next(r, 0))));
    let tail = r[m - 1];
    assert(links[base as int].0 == Some(tail));
    let l2 = append_spec(links, base, node);
    assert forall|i: int| 0 <= i < r2.len() implies #[trigger] r2[i] < l2.len() by {
        if i < m {
            assert(r[i] < links.len());
        }
    }
    assert forall|i: int, j: int| 0 <= i < j < r2.len() implies r2[i] != r2[j] by {
        if j < m {
            assert(r[i] != r[j]);
        } else {
            assert(r[i] != node);
        }
    }
    assert forall|i: int| 0 <= i < r2.len() implies #[trigger] l2[r2[i] as int] == (
        Some(ring_prev(r2, i)),
        Some(ring_next(r2, i)),
    ) by {
        if i == m {
        } else {
            assert(r2[i] == r[i]);
            assert(r[i] != node);
            assert(links[r[i] as int] == (Some(ring_prev(r, i)), Some(ring_next(r, i))));
            if i == 0 {
                if m == 1 {
                } else {
                    assert(r[m - 1] != base);
                }
            } else if i == m - 1 {
            } else {
                assert(r[i] != base);
                assert(r[i] != tail);
            }
        }
    }
}

/// Unlinking the node at position `k` keeps the list well formed, without it
pub proof fn lemma_remove_wf(links: Seq<Links>, base: usize, elems: Seq<usize>, k: int)
    requires
        list_wf(links, base, elems),
        0 <= k < elems.len(),
    ensures
        linked_at(links, elems[k] as int),
        list_wf(unlink_spec(links, elems[k] as int), base, elems.remove(k)),
{
    let r = ring(base, elems);
    let r2 = ring(base, elems.remove(k));
    let m = r.len();
    let j = k + 1;
    let node = r[j];
    assert(node == elems[k]);
    assert(r2 =~= r.remove(j));
    assert(links[r[j] as int] == (Some(ring_prev(r, j)), Some(ring_next(r, j))));
    let p = r[j - 1];
    let n = ring_next(r, j);
    assert(p < links.len());
    if j + 1 < m {
        assert(r[j + 1] < links.len());
    } else {
        assert(r[0] < links.len());
    }
    let l2 = unlink_spec(links, node as int);
    assert forall|i: int| 0 <= i < r2.len() implies #[trigger] r2[i] < l2.len() by {
        if i < j {
            assert(r2[i] == r[i]);
            assert(r[i] < links.len());
        } else {
            assert(r2[i] == r[i + 1]);
            assert(r[i + 1] < links.len());
        }
    }
    assert forall|a: int, b: int| 0 <= a < b < r2.len() implies r2[a] != r2[b] by {
        let a1 = if a < j { a } else { a + 1 };
        let b1 = if b < j { b } else { b + 1 };
        assert(r2[a] == r[a1]);
        assert(r2[b] == r[b1]);
        assert(r[a1] != r[b1]);
    }
    assert forall|i: int| 0 <= i < r2.len() implies #[trigger] l2[r2[i] as int] == (
        Some(ring_prev(r2, i)),
        Some(ring_next(r2, i)),
    ) by {
        let i1 = if i < j { i } else { i + 1 };
        assert(r2[i] == r[i1]);
        assert(r[i1] != node);
        assert(links[r[i1] as int] == (Some(ring_prev(r, i1)), Some(ring_next(r, i1))));
        if i1 == j - 1 {
            if j + 1 < m {
                assert(r[j + 1] != p);
                if i1 == 0 {
                    assert(r[m - 1] != p);
                }
            }
        } else if (j + 1 < m && i1 == j + 1) || (j + 1 == m && i1 == 0) {
            if j + 1 < m {
                assert(r[j - 1] != r[j + 1]);
            }
        } else {
            assert(r[i1] != p);
            if j + 1 < m {
                assert(r[i1] != r[j + 1]);
            } else {
                assert(r[i1] != r[0]);
            }
        }
    }
}

/// Hand the nodes of the list at `base` to the empty list at `other`: the
/// links once `other`'s base is put between the tail and the head, and `base`
/// is left alone in its ring
pub open spec fn move_spec(links: Seq<Links>, base: usize, other: usize) -> Seq<Links> {
    set_circular_spec(
        set_ptrs_spec(links, other, links[base as int].0, links[base as int].1),
        base,
    )
}

/// Moving the nodes of a non-empty list to an empty one leaves the first list
/// empty and the second with the nodes, in order
pub proof fn lemma_move_wf(links: Seq<Links>, base: usize, elems: Seq<usize>, other: usize)
    requires
        list_wf(links, base, elems),
        list_wf(links, other, Seq::empty()),
        base != other,
        elems.len() > 0,
    ensures
        list_wf(move_spec(links, base, other), other, elems),
        list_wf(move_spec(links, base, other), base, Seq::empty()),
{
    let r = ring(base, elems);
    let ro = ring(other, elems);
    let m = r.len();
    assert(ring(other, Seq::empty())[0] == other);
    assert(links[other as int] == (Some(other), Some(other))) by {
        let e = ring(other, Seq::<usize>::empty());
        assert(links[e[0] as int] == (Some(ring_prev(e, 0)), Some(ring_next(e, 0))));
    }
    assert(links[r[0] as int] == (Some(ring_prev(r, 0)), Some(ring_next(r, 0))));
    let head = r[1];
    let tail = r[m - 1];
    assert forall|i: int| 0 <= i < m implies #[trigger] r[i] != other by {
        assert(links[r[i] as int] == (Some(ring_prev(r, i)), Some(ring_next(r, i))));
        if r[i] == other && i > 0 {
            if i + 1 < m {
                assert(r[i] != r[i + 1]);
            }
        }
    }
    let l1 = set_ptrs_spec(links, other, Some(tail), Some(head));
    let l2 = move_spec(links, base, other);
    assert(l2 == set_circular_spec(l1, base));
    assert forall|i: int| 0 <= i < ro.len() implies #[trigger] ro[i] < l2.len() by {
        if i > 0 {
            assert(ro[i] == r[i]);
            assert(r[i] < links.len());
        }
    }
    assert forall|a: int, b: int| 0 <= a < b < ro.len() implies ro[a] != ro[b] by {
        assert(ro[b] == r[b]);
        if a > 0 {
            assert(ro[a] == r[a]);
            assert(r[a] != r[b]);
        }
    }
    assert forall|i: int| 0 <= i < ro.len() implies #[trigger] l2[ro[i] as int] == (
        Some(ring_prev(ro, i)),
        Some(ring_next(ro, i)),
    ) by {
        if i > 0 {
            assert(ro[i] == r[i]);
            assert(r[i] != base) by {
                assert(r[0] != r[i]);
            }
            assert(links[r[i] as int] == (Some(ring_prev(r, i)), Some(ring_next(r, i))));
            if i == 1 {
            }
            if i == m - 1 {
            }
            if 1 < i < m - 1 {
                assert(r[i] != head);
                assert(r[i] != tail);
            }
        }
    }
    let e = ring(base, Seq::<usize>::empty());
    assert(e =~= seq![base]);
    assert(l2[e[0] as int] == (Some(ring_prev(e, 0)), Some(ring_next(e, 0))));
}

/// No node of one ring is in the other
pub open spec fn rings_disjoint(b1: usize, e1: Seq<usize>, b2: usize, e2: Seq<usize>) -> bool {
    forall|i: int, j: int|
        0 <= i < ring(b1, e1).len() && 0 <= j < ring(b2, e2).len() ==> #[trigger] ring(b1, e1)[i]
            != #[trigger] ring(b2, e2)[j]
}

/// Appending a node that is in no list, then unlinking it again, gives back
/// the links as they were
pub proof fn law_append_then_unlink_restores(
    links: Seq<Links>,
    base: usize,
    elems: Seq<usize>,
    node: usize,
)
    requires
        list_wf(links, base, elems),
        0 <= node < links.len(),
        links[node as int] == (None::<usize>, None::<usize>),
    ensures
        unlink_spec(append_spec(links, base, node), node as int) == links,
{
    let r = ring(base, elems);
    let m = r.len();
    lemma_unlinked_outside(links, base, elems, node);
    assert(links[r[0] as int] == (Some(ring_prev(r, 0)), Some(ring_next(r, 0))));
    assert(links[r[m - 1] as int] == (Some(ring_prev(r, m - 1)), Some(ring_next(r, m - 1))));
    let tail = r[m - 1];
    assert(r[m - 1] != node);
    let l2 = unlink_spec(append_spec(links, base, node), node as int);
    assert(l2 =~= links);
}

/// Appending to one list keeps every list that shares no node with it well
/// formed and unchanged
pub proof fn law_append_keeps_other_lists(
    links: Seq<Links>,
    base: usize,
    elems: Seq<usize>,
    node: usize,
    other: usize,
    other_elems: Seq<usize>,
)
    requires
        list_wf(links, base, elems),
        list_wf(links, other, other_elems),
        rings_disjoint(base, elems, other, other_elems),
        0 <= node < links.len(),
        links[node as int].0 is None,
    ensures
        list_wf(append_spec(links, base, node), other, other_elems),
{
    let r = ring(base, elems);
    let ro = ring(other, other_elems);
    let m = r.len();
    lemma_unlinked_outside(links, other, other_elems, node);
    assert(links[r[0] as int] == (Some(ring_prev(r, 0)), Some(ring_next(r, 0))));
    let tail = r[m - 1];
    let l2 = append_spec(links, base, node);
    assert forall|i: int| 0 <= i < ro.len() implies l2[#[trigger] ro[i] as int]
        == links[ro[i] as int] by {
        assert(r[0] != ro[i]);
        assert(r[m - 1] != ro[i]);
        assert(ro[i] != node);
    }
    lemma_list_frame(links, l2, other, other_elems);
}

/// Unlinking a node of one list keeps every list that shares no node with it
/// well formed and unchanged
pub proof fn law_remove_keeps_other_lists(
    links: Seq<Links>,
    base: usize,
    elems: Seq<usize>,
    k: int,
    other: usize,
    other_elems: Seq<usize>,
)
    requires
        list_wf(links, base, elems),
        list_wf(links, other, other_elems),
        rings_disjoint(base, elems, other, other_elems),
        0 <= k < elems.len(),
    ensures
        list_wf(unlink_spec(links, elems[k] as int), other, other_elems),
{
    let r = ring(base, elems);
    let ro = ring(other, other_elems);
    let j = k + 1;
    assert(r[j] == elems[k]);
    assert(links[r[j] as int] == (Some(ring_prev(r, j)), Some(ring_next(r, j))));
    let l2 = unlink_spec(links, elems[k] as int);
    assert forall|i: int| 0 <= i < ro.len() implies l2[#[trigger] ro[i] as int]
        == links[ro[i] as int] by {
        assert(r[j] != ro[i]);
        assert(r[j - 1] != ro[i]);
        if j + 1 < r.len() {
            assert(r[j + 1] != ro[i]);
        } else {
            assert(r[0] != ro[i]);
        }
    }
    lemma_list_frame(links, l2, other, other_elems);
}

/// An intrusive linked list
pub struct LinkedList {
    base: Option<usize>,
    elems: Ghost<Seq<usize>>,
}

impl View for LinkedList {
    type V = Seq<usize>;

    /// The addresses of the nodes, from head to tail
    closed spec fn view(&self) -> Seq<usize> {
        self.elems@
    }
}

impl LinkedList {
    /// The address of the base node, once the list is pinned
    pub closed spec fn base_spec(&self) -> Option<usize> {
        self.base
    }

    /// The list is pinned and the links hold it
    pub open spec fn wf(&self, links: Seq<Links>) -> bool {
        &&& self.base_spec() is Some
        &&& list_wf(links, self.base_spec().unwrap(), self@)
    }

    fn base(&self) -> (b: usize)
        requires
            self.base_spec() is Some,
        ensures
            self.base_spec() == Some(b),
    {
        self.base.unwrap()
    }

    /// Create a new empty and unpinned list
    pub fn new() -> (l: Self)
        ensures
            l.base_spec() is None,
            l@ == Seq::<usize>::empty(),
    {
        Self { base: None, elems: Ghost(Seq::empty()) }
    }

    /// Pin the list: its base node is placed in the arena, linked to itself
    pub fn pin(&mut self, arena: &mut NodeArena)
        requires
            old(self).base_spec() is None,
            old(arena)@.len() < usize::MAX,
        ensures
            final(self).base_spec() == Some(old(arena)@.len() as usize),
            final(self)@ == old(self)@,
            final(arena)@ == old(arena)@.push(
                (Some(old(arena)@.len() as usize), Some(old(arena)@.len() as usize)),
            ),
            old(self)@.len() == 0 ==> final(self).wf(final(arena)@),
    {
        let base = arena.add_node();
        Node::set_circular(arena, base);
        self.base = Some(base);
        proof {
            let b = base;
            assert(arena@ =~= old(arena)@.push((Some(b), Some(b))));
            if old(self)@.len() == 0 {
                let r = ring(b, self@);
                assert(r =~= seq![b]);
                assert(arena@[r[0] as int] == (Some(ring_prev(r, 0)), Some(ring_next(r, 0))));
            }
        }
    }

    /// Returns `true` if the list is empty
    pub fn is_empty(&self, arena: &NodeArena) -> (b: bool)
        requires
            self.wf(arena@),
        ensures
            b == (self@.len() == 0),
    {
        let base = self.base();
        let head = self.head(arena);
        proof {
            let r = ring(base, self@);
            assert(r[0] == base);
            if self@.len() > 0 {
                assert(r[1] == self@[0]);
            }
        }
        base == head
    }

    /// The address of the head of the list, or of its base when it is empty
    pub fn head(&self, arena: &NodeArena) -> (h: usize)
        requires
            self.wf(arena@),
        ensures
            h == if self@.len() == 0 {
                self.base_spec().unwrap()
            } else {
                self@[0]
            },
    {
        let base = self.base();
        proof {
            let r = ring(base, self@);
            assert(r[0] == base);
            assert(arena@[r[0] as int] == (Some(ring_prev(r, 0)), Some(ring_next(r, 0))));
        }
        arena.get(base).next.unwrap()
    }

    /// The address of the tail of the list, or of its base when it is empty
    pub fn tail(&self, arena: &NodeArena) -> (t: usize)
        requires
            self.wf(arena@),
        ensures
            t == if self@.len() == 0 {
                self.base_spec().unwrap()
            } else {
                self@.last()
            },
    {
        let base = self.base();
        proof {
            let r = ring(base, self@);
            assert(r[0] == base);
            assert(arena@[r[0] as int] == (Some(ring_prev(r, 0)), Some(ring_next(r, 0))));
        }
        arena.get(base).prev.unwrap()
    }

    /// Append the unlinked node at `node` to the list
    pub fn append(&mut self, arena: &mut NodeArena, node: usize)
        requires
            old(self).wf(old(arena)@),
            node < old(arena)@.len(),
            old(arena)@[node as int].0 is None,
        ensures
            final(self).base_spec() == old(self).base_spec(),
            final(self)@ == old(self)@.push(node),
            final(arena)@ == append_spec(old(arena)@, old(self).base_spec().unwrap(), node),
            final(self).wf(final(arena)@),
    {
        let base = self.base();
        proof {
            let r = ring(base, self@);
            assert(r[0] == base);
            assert(arena@[r[0] as int] == (Some(ring_prev(r, 0)), Some(ring_next(r, 0))));
            assert(r[r.len() - 1] < arena@.len());
            lemma_append_wf(arena@, base, self@, node);
        }
        let tail = arena.get(base).prev;
        Node::set_ptrs(arena, node, tail, Some(base));
        self.elems = Ghost(self.elems@.push(node));
    }

    /// Unlink the node at `node`, which is in the list
    pub fn remove(&mut self, arena: &mut NodeArena, node: usize)
        requires
            old(self).wf(old(arena)@),
            old(self)@.contains(node),
        ensures
            final(self).base_spec() == old(self).base_spec(),
            final(self)@ == old(self)@.remove(old(self)@.index_of(node)),
            final(arena)@ == unlink_spec(old(arena)@, node as int),
            final(self).wf(final(arena)@),
    {
        let ghost k = self@.index_of(node);
        proof {
            lemma_remove_wf(arena@, self.base_spec().unwrap(), self@, k);
        }
        Node::unlink_unchecked(arena, node);
        self.elems = Ghost(self.elems@.remove(k));
    }

    /// Unlink `node`, the head or the tail, unless the list is empty
    fn pop_edge(&mut self, arena: &mut NodeArena, node: usize, Ghost(k): Ghost<int>) -> (r: Option<usize>)
        requires
            old(self).wf(old(arena)@),
            old(self)@.len() == 0 ==> node == old(self).base_spec().unwrap(),
            old(self)@.len() > 0 ==> 0 <= k < old(self)@.len() && old(self)@[k] == node,
        ensures
            final(self).base_spec() == old(self).base_spec(),
            final(self).wf(final(arena)@),
            old(self)@.len() == 0 ==> r is None && final(self)@ == old(self)@ && final(arena)@
                == old(arena)@,
            old(self)@.len() > 0 ==> r == Some(node) && final(self)@ == old(self)@.remove(k)
                && final(arena)@ == unlink_spec(old(arena)@, node as int),
    {
        if !self.is_empty(arena) {
            proof {
                lemma_remove_wf(arena@, self.base_spec().unwrap(), self@, k);
                assert(self@.contains(node));
                let j = self@.index_of(node);
                let r = ring(self.base_spec().unwrap(), self@);
                assert(r[j + 1] == r[k + 1]);
            }
            self.remove(arena, node);
            Some(node)
        } else {
            None
        }
    }

    /// Pop a node from the front of the list. Returns `None` if the list is
    /// empty
    pub fn pop_front(&mut self, arena: &mut NodeArena) -> (r: Option<usize>)
        requires
            old(self).wf(old(arena)@),
        ensures
            final(self).base_spec() == old(self).base_spec(),
            final(self).wf(final(arena)@),
            old(self)@.len() == 0 ==> r is None && final(self)@ == old(self)@ && final(arena)@
                == old(arena)@,
            old(self)@.len() > 0 ==> r == Some(old(self)@[0]) && final(self)@ == old(self)@.drop_first()
                && final(arena)@ == unlink_spec(old(arena)@, old(self)@[0] as int),
    {
        let head = self.head(arena);
        let r = self.pop_edge(arena, head, Ghost(0));
        assert(old(self)@.len() > 0 ==> old(self)@.remove(0) =~= old(self)@.drop_first());
        r
    }

    /// Pop a node from the back of the list. Returns `None` if the list is
    /// empty
    pub fn pop_back(&mut self, arena: &mut NodeArena) -> (r: Option<usize>)
        requires
            old(self).wf(old(arena)@),
        ensures
            final(self).base_spec() == old(self).base_spec(),
            final(self).wf(final(arena)@),
            old(self)@.len() == 0 ==> r is None && final(self)@ == old(self)@ && final(arena)@
                == old(arena)@,
            old(self)@.len() > 0 ==> r == Some(old(self)@.last()) && final(self)@
                == old(self)@.drop_last() && final(arena)@ == unlink_spec(
                old(arena)@,
                old(self)@.last() as int,
            ),
    {
        let tail = self.tail(arena);
        let ghost k = self@.len() - 1;
        let r = self.pop_edge(arena, tail, Ghost(k));
        assert(old(self)@.len() > 0 ==> old(self)@.remove(k) =~= old(self)@.drop_last());
        r
    }

    /// Move every node of this list to `other`, which must be empty, keeping
    /// their order; this list is left empty
    pub fn move_elements(&mut self, other: &mut Self, arena: &mut NodeArena)
        requires
            old(self).wf(old(arena)@),
            old(other).wf(old(arena)@),
            old(other)@.len() == 0,
            old(self).base_spec() != old(other).base_spec(),
        ensures
            final(self).base_spec() == old(self).base_spec(),
            final(other).base_spec() == old(other).base_spec(),
            final(other)@ == old(self)@,
            final(self)@ == Seq::<usize>::empty(),
            final(self).wf(final(arena)@),
            final(other).wf(final(arena)@),
            old(self)@.len() == 0 ==> final(arena)@ == old(arena)@,
            old(self)@.len() > 0 ==> final(arena)@ == move_spec(
                old(arena)@,
                old(self).base_spec().unwrap(),
                old(other).base_spec().unwrap(),
            ),
    {
        if self.is_empty(arena) {
            return;
        }
        let base = self.base();
        let other_base = other.base();
        proof {
            assert(other@ =~= Seq::<usize>::empty());
            assert(ring(other_base, other@)[0] < arena@.len());
            lemma_move_wf(arena@, base, self@, other_base);
            let r = ring(base, self@);
            assert(r[0] == base);
            assert(arena@[r[0] as int] == (Some(ring_prev(r, 0)), Some(ring_next(r, 0))));
            assert(r[1] < arena@.len());
            assert(r[r.len() - 1] < arena@.len());
        }
        let node = arena.get(base);
        Node::set_ptrs(arena, other_base, node.prev, node.next);
        Node::set_circular(arena, base);
        other.elems = Ghost(self.elems@);
        self.elems = Ghost(Seq::empty());
    }
}

} // verus!
