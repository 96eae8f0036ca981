//! Doubly linked list whose nodes are embedded in the values they link
//!
//! The list links nodes the same way as the intrusive list, in the same
//! [`NodeArena`]; popping is always allowed and answers `None` on an empty
//! list.

use vstd::prelude::*;
use crate::container::intrusive::linked_list as intrusive;
use crate::container::intrusive::linked_list::{
    append_spec, linked_at, move_spec, unlink_spec, Links, NodeArena,
};

verus! {

/// The node of a linked list
#[derive(Clone, Copy)]
pub struct Node {
    inner: intrusive::Node,
}

impl View for Node {
    type V = Links;

    closed spec fn view(&self) -> Links {
        self.inner@
    }
}

impl Node {
    /// Create a new node, linked in no list
    pub fn new() -> (n: Self)
        ensures
            n@ == (None::<usize>, None::<usize>),
    {
        Node { inner: intrusive::Node::new() }
    }

    /// Returns `true` if the node is linked in a list
    pub fn linked(&self) -> (b: bool)
        ensures
            b == self@.0 is Some,
    {
        self.inner.linked()
    }

    /// Unlink the node at `this`, which must be linked
    pub fn unlink_unchecked(arena: &mut NodeArena, this: usize)
        requires
            linked_at(old(arena)@, this as int),
        ensures
            final(arena)@ == unlink_spec(old(arena)@, this as int),
    {
        intrusive::Node::unlink_unchecked(arena, this);
    }

    /// Unlink the node at `this`
    pub fn unlink(arena: &mut NodeArena, this: usize)
        requires
            linked_at(old(arena)@, this as int),
        ensures
            final(arena)@ == unlink_spec(old(arena)@, this as int),
    {
        intrusive::Node::unlink(arena, this);
    }
}

/// A linked list of nodes placed in a [`NodeArena`]
pub struct LinkedList {
    inner: intrusive::LinkedList,
}

impl View for LinkedList {
    type V = Seq<usize>;

    /// The addresses of the nodes, from head to tail
    closed spec fn view(&self) -> Seq<usize> {
        self.inner@
    }
}

impl LinkedList {
    /// The address of the base node, once the list is pinned
    pub closed spec fn base_spec(&self) -> Option<usize> {
        self.inner.base_spec()
    }

    /// The list is pinned and the links hold it
    pub open spec fn wf(&self, links: Seq<Links>) -> bool {
        &&& self.base_spec() is Some
        &&& intrusive::list_wf(links, self.base_spec().unwrap(), self@)
    }

    /// Create a new empty and unpinned list
    pub fn new() -> (l: Self)
        ensures
            l.base_spec() is None,
            l@ == Seq::<usize>::empty(),
    {
        LinkedList { inner: intrusive::LinkedList::new() }
    }

    /// Pin the list: its base node is placed in the arena, linked to itself
    pub fn pin(&mut self, arena: &mut NodeArena)
        requires
            old(self).base_spec() is None,
            old(arena)@.len() < usize::MAX,
        ensures
            final(self).base_spec() == Some(old(arena)@.len() as usize),
            final(self)@ == old(self)@,
            final(arena)@ == old(arena)@.push(
                (Some(old(arena)@.len() as usize), Some(old(arena)@.len() as usize)),
            ),
            old(self)@.len() == 0 ==> final(self).wf(final(arena)@),
    {
        self.inner.pin(arena);
    }

    /// Returns `true` if the list is empty
    pub fn empty(&self, arena: &NodeArena) -> (b: bool)
        requires
            self.wf(arena@),
        ensures
            b == (self@.len() == 0),
    {
        self.inner.is_empty(arena)
    }

    /// The address of the head of the list, or of its base when it is empty
    pub fn head(&self, arena: &NodeArena) -> (h: usize)
        requires
            self.wf(arena@),
        ensures
            h == if self@.len() == 0 {
                self.base_spec().unwrap()
            } else {
                self@[0]
            },
    {
        self.inner.head(arena)
    }

    /// The address of the tail of the list, or of its base when it is empty
    pub fn tail(&self, arena: &NodeArena) -> (t: usize)
        requires
            self.wf(arena@),
        ensures
            t == if self@.len() == 0 {
                self.base_spec().unwrap()
            } else {
                self@.last()
            },
    {
        self.inner.tail(arena)
    }

    /// Pop a node from the front of the list. Returns `None` if the list is
    /// empty
    pub fn pop_front(&mut self, arena: &mut NodeArena) -> (r: Option<usize>)
        requires
            old(self).wf(old(arena)@),
        ensures
            final(self).base_spec() == old(self).base_spec(),
            final(self).wf(final(arena)@),
            old(self)@.len() == 0 ==> r is None && final(self)@ == old(self)@ && final(arena)@
                == old(arena)@,
            old(self)@.len() > 0 ==> r == Some(old(self)@[0]) && final(self)@ == old(self)@.drop_first()
                && final(arena)@ == unlink_spec(old(arena)@, old(self)@[0] as int),
    {
        self.inner.pop_front(arena)
    }

    /// Pop a node from the back of the list. Returns `None` if the list is
    /// empty
    pub fn pop_back(&mut self, arena: &mut NodeArena) -> (r: Option<usize>)
        requires
            old(self).wf(old(arena)@),
        ensures
            final(self).base_spec() == old(self).base_spec(),
            final(self).wf(final(arena)@),
            old(self)@.len() == 0 ==> r is None && final(self)@ == old(self)@ && final(arena)@
                == old(arena)@,
            old(self)@.len() > 0 ==> r == Some(old(self)@.last()) && final(self)@
                == old(self)@.drop_last() && final(arena)@ == unlink_spec(
                old(arena)@,
                old(self)@.last() as int,
            ),
    {
        self.inner.pop_back(arena)
    }

    /// Append the unlinked node at `node` to the list
    pub fn append(&mut self, arena: &mut NodeArena, node: usize)
        requires
            old(self).wf(old(arena)@),
            node < old(arena)@.len(),
            old(arena)@[node as int].0 is None,
        ensures
            final(self).base_spec() == old(self).base_spec(),
            final(self)@ == old(self)@.push(node),
            final(arena)@ == append_spec(old(arena)@, old(self).base_spec().unwrap(), node),
            final(self).wf(final(arena)@),
    {
        self.inner.append(arena, node);
    }

    /// Unlink the node at `node`, which is in the list
    pub fn remove(&mut self, arena: &mut NodeArena, node: usize)
        requires
            old(self).wf(old(arena)@),
            old(self)@.contains(node),
        ensures
            final(self).base_spec() == old(self).base_spec(),
            final(self)@ == old(self)@.remove(old(self)@.index_of(node)),
            final(arena)@ == unlink_spec(old(arena)@, node as int),
            final(self).wf(final(arena)@),
    {
        self.inner.remove(arena, node);
    }

    /// Move every node of this list to `other`, which must be empty, keeping
    /// their order; this list is left empty
    pub fn move_elements(&mut self, other: &mut Self, arena: &mut NodeArena)
        requires
            old(self).wf(old(arena)@),
            old(other).wf(old(arena)@),
            old(other)@.len() == 0,
            old(self).base_spec() != old(other).base_spec(),
        ensures
            final(self).base_spec() == old(self).base_spec(),
            final(other).base_spec() == old(other).base_spec(),
            final(other)@ == old(self)@,
            final(self)@ == Seq::<usize>::empty(),
            final(self).wf(final(arena)@),
            final(other).wf(final(arena)@),
            old(self)@.len() == 0 ==> final(arena)@ == old(arena)@,
            old(self)@.len() > 0 ==> final(arena)@ == move_spec(
                old(arena)@,
                old(self).base_spec().unwrap(),
                old(other).base_spec().unwrap(),
            ),
    {
        self.inner.move_elements(&mut other.inner, arena);
    }
}

} // verus!
