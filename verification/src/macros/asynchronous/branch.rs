//! `select!` and `join!`: the tasks are run by a tree of two-way branches.
//!
//! The tree is built from a queue of the tasks: each round pairs the nodes at
//! the front two by two into new branches put at the back, and an odd node
//! left over goes to the back too, until one node is left.

use vstd::prelude::*;
use crate::macros::{ErrorMessage, ParseError, Span};

verus! {

/// A node of the branch tree: a task by its position, or a branch by the
/// order it was made in
#[derive(Clone, Copy, Debug, PartialEq, Eq, Structural)]
pub enum BranchNode {
    Task(usize),
    Branch(usize),
}

/// The tasks under `node`, where branches below `bound` may be referred to
pub open spec fn node_leaves(bs: Seq<(BranchNode, BranchNode)>, node: BranchNode, bound: int) -> Set<usize>
    decreases bound, 0int,
{
    match node {
        BranchNode::Task(i) => set![i],
        BranchNode::Branch(k) => if 0 <= k < bound {
            branch_leaves(bs, k as int)
        } else {
            Set::empty()
        },
    }
}

/// The tasks under branch `j`
pub open spec fn branch_leaves(bs: Seq<(BranchNode, BranchNode)>, j: int) -> Set<usize>
    decreases j, 1int,
{
    if 0 <= j < bs.len() {
        node_leaves(bs, bs[j].0, j).union(node_leaves(bs, bs[j].1, j))
    } else {
        Set::empty()
    }
}

/// The node is a task below `n` or a branch made before `bound`
pub open spec fn node_ok(node: BranchNode, n: nat, bound: int) -> bool {
    match node {
        BranchNode::Task(i) => i < n,
        BranchNode::Branch(k) => k < bound,
    }
}

/// Each branch joins two nodes made before it, with no task under both
#[verifier::opaque]
pub open spec fn plan_wf(bs: Seq<(BranchNode, BranchNode)>, n: nat) -> bool {
    forall|j: int|
        0 <= j < bs.len() ==> {
            &&& node_ok(#[trigger] bs[j].0, n, j)
            &&& node_ok(bs[j].1, n, j)
            &&& node_leaves(bs, bs[j].0, j).disjoint(node_leaves(bs, bs[j].1, j))
        }
}

/// Making a new branch does not change what is under the earlier ones
pub proof fn lemma_leaves_push(bs: Seq<(BranchNode, BranchNode)>, x: (BranchNode, BranchNode), k: int)
    requires
        0 <= k < bs.len(),
    ensures
        branch_leaves(bs.push(x), k) == branch_leaves(bs, k),
    decreases k,
{
    let b2 = bs.push(x);
    assert(b2[k] == bs[k]);
    match bs[k].0 {
        BranchNode::Branch(m) => if 0 <= m < k {
            lemma_leaves_push(bs, x, m as int);
        },
        _ => {},
    }
    match bs[k].1 {
        BranchNode::Branch(m) => if 0 <= m < k {
            lemma_leaves_push(bs, x, m as int);
        },
        _ => {},
    }
}

/// A node made before `bound` has the same tasks under it for any larger
/// bound, and once more branches are made
pub proof fn lemma_node_leaves_push(
    bs: Seq<(BranchNode, BranchNode)>,
    x: (BranchNode, BranchNode),
    node: BranchNode,
    n: nat,
    bound: int,
)
    requires
        node_ok(node, n, bound),
        0 <= bound <= bs.len(),
    ensures
        node_leaves(bs.push(x), node, bs.len() + 1 as int) == node_leaves(bs, node, bound),
        node_leaves(bs.push(x), node, bound) == node_leaves(bs, node, bound),
        node_leaves(bs, node, bs.len() as int) == node_leaves(bs, node, bound),
{
    match node {
        BranchNode::Branch(k) => {
            lemma_leaves_push(bs, x, k as int);
        },
        _ => {},
    }
}

/// Task `t` is under one of the nodes of the queue
pub open spec fn covered(bs: Seq<(BranchNode, BranchNode)>, q: Seq<BranchNode>, t: usize) -> bool {
    exists|i: int| 0 <= i < q.len() && #[trigger] node_leaves(bs, q[i], bs.len() as int).contains(t)
}

/// The queue holds nodes made so far, no task under two of them, and every
/// task below `n` under one of them
#[verifier::opaque]
pub open spec fn queue_wf(bs: Seq<(BranchNode, BranchNode)>, q: Seq<BranchNode>, n: nat) -> bool {
    &&& forall|i: int| 0 <= i < q.len() ==> node_ok(#[trigger] q[i], n, bs.len() as int)
    &&& forall|i: int, j: int|
        0 <= i < j < q.len() ==> node_leaves(bs, #[trigger] q[i], bs.len() as int).disjoint(
            node_leaves(bs, #[trigger] q[j], bs.len() as int),
        )
    &&& forall|t: usize| #[trigger] covered(bs, q, t) <==> (t < n)
}

/// The tasks under each node of the queue stay the same once a branch of
/// the two front nodes is made, and the new branch has the tasks of both
proof fn lemma_pair_leaves(bs: Seq<(BranchNode, BranchNode)>, q: Seq<BranchNode>, n: nat)
    requires
        bs.len() < usize::MAX,
        forall|i: int| 0 <= i < q.len() ==> node_ok(#[trigger] q[i], n, bs.len() as int),
        q.len() >= 2,
    ensures
        forall|i: int|
            0 <= i < q.len() ==> node_leaves(bs.push((q[0], q[1])), #[trigger] q[i], bs.len() + 1 as int)
                == node_leaves(bs, q[i], bs.len() as int),
        node_leaves(bs.push((q[0], q[1])), BranchNode::Branch(bs.len() as usize), bs.len() + 1 as int)
            == node_leaves(bs, q[0], bs.len() as int).union(node_leaves(bs, q[1], bs.len() as int)),
{
    let j = bs.len() as int;
    let x = (q[0], q[1]);
    let bs2 = bs.push(x);
    assert forall|i: int| 0 <= i < q.len() implies node_leaves(bs2, #[trigger] q[i], j + 1) == node_leaves(
        bs,
        q[i],
        j,
    ) by {
        lemma_node_leaves_push(bs, x, q[i], n, j);
    }
    lemma_node_leaves_push(bs, x, q[0], n, j);
    lemma_node_leaves_push(bs, x, q[1], n, j);
    assert(bs2[j] == x);
}

/// The new queue is disjoint and covers the same tasks
proof fn lemma_pair_queue(bs: Seq<(BranchNode, BranchNode)>, q: Seq<BranchNode>, n: nat)
    requires
        bs.len() < usize::MAX,
        queue_wf(bs, q, n),
        q.len() >= 2,
        forall|i: int|
            0 <= i < q.len() ==> node_leaves(bs.push((q[0], q[1])), #[trigger] q[i], bs.len() + 1 as int)
                == node_leaves(bs, q[i], bs.len() as int),
        node_leaves(bs.push((q[0], q[1])), BranchNode::Branch(bs.len() as usize), bs.len() + 1 as int)
            == node_leaves(bs, q[0], bs.len() as int).union(node_leaves(bs, q[1], bs.len() as int)),
    ensures
        queue_wf(
            bs.push((q[0], q[1])),
            q.subrange(2, q.len() as int).push(BranchNode::Branch(bs.len() as usize)),
            n,
        ),
{
    reveal(queue_wf);
    let j = bs.len() as int;
    let bs2 = bs.push((q[0], q[1]));
    let q2 = q.subrange(2, q.len() as int).push(BranchNode::Branch(j as usize));
    let last = q2.len() - 1;
    assert(q2[last] == BranchNode::Branch(j as usize));
    assert forall|a: int| 0 <= a < q2.len() implies node_ok(#[trigger] q2[a], n, j + 1) by {
        if a < last {
            assert(q2[a] == q[a + 2]);
        }
    }
    assert forall|a: int, b: int| 0 <= a < b < q2.len() implies node_leaves(
        bs2,
        #[trigger] q2[a],
        j + 1,
    ).disjoint(node_leaves(bs2, #[trigger] q2[b], j + 1)) by {
        assert(q2[a] == q[a + 2]);
        if b < last {
            assert(q2[b] == q[b + 2]);
        } else {
            let la = node_leaves(bs, q[a + 2], j);
            assert(la.disjoint(node_leaves(bs, q[0], j)));
            assert(la.disjoint(node_leaves(bs, q[1], j)));
        }
    }
    assert forall|t: usize| #[trigger] covered(bs2, q2, t) <==> (t < n) by {
        assert(covered(bs, q, t) <==> (t < n));
        if covered(bs, q, t) {
            let i = choose|i: int| 0 <= i < q.len() && #[trigger] node_leaves(bs, q[i], j).contains(t);
            if i < 2 {
                assert(node_leaves(bs2, q2[last], j + 1).contains(t));
            } else {
                assert(q2[i - 2] == q[i]);
                assert(node_leaves(bs2, q2[i - 2], j + 1).contains(t));
            }
        }
        if covered(bs2, q2, t) {
            let i = choose|i: int| 0 <= i < q2.len() && #[trigger] node_leaves(bs2, q2[i], j + 1).contains(t);
            if i < last {
                assert(q2[i] == q[i + 2]);
                assert(node_leaves(bs, q[i + 2], j).contains(t));
            } else if node_leaves(bs, q[0], j).contains(t) {
                assert(node_leaves(bs, q[0], j).contains(t));
            } else {
                assert(node_leaves(bs, q[1], j).contains(t));
            }
        }
    }
}

/// The new branch joins two disjoint nodes made before it
proof fn lemma_pair_plan(bs: Seq<(BranchNode, BranchNode)>, q: Seq<BranchNode>, n: nat)
    requires
        queue_wf(bs, q, n),
        plan_wf(bs, n),
        q.len() >= 2,
    ensures
        plan_wf(bs.push((q[0], q[1])), n),
{
    reveal(queue_wf);
    reveal(plan_wf);
    let j = bs.len() as int;
    let x = (q[0], q[1]);
    let bs2 = bs.push(x);
    assert(node_leaves(bs, q[0], j).disjoint(node_leaves(bs, q[1], j)));
    assert forall|k: int| 0 <= k < bs2.len() implies {
        &&& node_ok(#[trigger] bs2[k].0, n, k)
        &&& node_ok(bs2[k].1, n, k)
        &&& node_leaves(bs2, bs2[k].0, k).disjoint(node_leaves(bs2, bs2[k].1, k))
    } by {
        if k < j {
            assert(bs2[k] == bs[k]);
            lemma_node_leaves_push(bs, x, bs[k].0, n, k);
            lemma_node_leaves_push(bs, x, bs[k].1, n, k);
        } else {
            assert(node_ok(q[0], n, j));
            assert(node_ok(q[1], n, j));
            lemma_node_leaves_push(bs, x, q[0], n, j);
            lemma_node_leaves_push(bs, x, q[1], n, j);
        }
    }
}

/// Pairing the two front nodes into a new branch at the back keeps the
/// queue well formed
proof fn lemma_pair_step(bs: Seq<(BranchNode, BranchNode)>, q: Seq<BranchNode>, n: nat)
    requires
        bs.len() < usize::MAX,
        queue_wf(bs, q, n),
        plan_wf(bs, n),
        q.len() >= 2,
    ensures
        queue_wf(
            bs.push((q[0], q[1])),
            q.subrange(2, q.len() as int).push(BranchNode::Branch(bs.len() as usize)),
            n,
        ),
        plan_wf(bs.push((q[0], q[1])), n),
{
    assert(forall|i: int| 0 <= i < q.len() ==> node_ok(#[trigger] q[i], n, bs.len() as int)) by {
        reveal(queue_wf);
    }
    lemma_pair_leaves(bs, q, n);
    lemma_pair_queue(bs, q, n);
    lemma_pair_plan(bs, q, n);
}

/// Moving the front node to the back keeps the queue well formed
proof fn lemma_rotate_step(bs: Seq<(BranchNode, BranchNode)>, q: Seq<BranchNode>, n: nat)
    requires
        queue_wf(bs, q, n),
        q.len() >= 1,
    ensures
        queue_wf(bs, q.subrange(1, q.len() as int).push(q[0]), n),
{
    reveal(queue_wf);
    let q2 = q.subrange(1, q.len() as int).push(q[0]);
    let m = q.len() as int;
    let b = bs.len() as int;
    assert forall|a: int| 0 <= a < q2.len() implies node_ok(#[trigger] q2[a], n, b) by {
        if a < m - 1 {
            assert(q2[a] == q[a + 1]);
        }
    }
    assert forall|x: int, y: int| 0 <= x < y < q2.len() implies node_leaves(
        bs,
        #[trigger] q2[x],
        b,
    ).disjoint(node_leaves(bs, #[trigger] q2[y], b)) by {
        assert(q2[x] == q[x + 1]);
        if y < m - 1 {
            assert(q2[y] == q[y + 1]);
        } else {
            assert(q2[y] == q[0]);
            assert(node_leaves(bs, q[0], b).disjoint(node_leaves(bs, q[x + 1], b)));
        }
    }
    assert forall|t: usize| #[trigger] covered(bs, q2, t) <==> (t < n) by {
        assert(covered(bs, q, t) <==> (t < n));
        if covered(bs, q, t) {
            let i = choose|i: int| 0 <= i < q.len() && #[trigger] node_leaves(bs, q[i], b).contains(t);
            if i == 0 {
                assert(node_leaves(bs, q2[m - 1], b).contains(t));
            } else {
                assert(q2[i - 1] == q[i]);
                assert(node_leaves(bs, q2[i - 1], b).contains(t));
            }
        }
        if covered(bs, q2, t) {
            let i = choose|i: int| 0 <= i < q2.len() && #[trigger] node_leaves(bs, q2[i], b).contains(t);
            if i < m - 1 {
                assert(q2[i] == q[i + 1]);
                assert(node_leaves(bs, q[i + 1], b).contains(t));
            } else {
                assert(node_leaves(bs, q[0], b).contains(t));
            }
        }
    }
}

/// The queue of all tasks, before any branch is made, is well formed
proof fn lemma_initial_queue(q: Seq<BranchNode>, n: nat)
    requires
        n <= usize::MAX,
        q.len() == n,
        forall|k: int| 0 <= k < n ==> #[trigger] q[k] == BranchNode::Task(k as usize),
    ensures
        queue_wf(Seq::empty(), q, n),
        plan_wf(Seq::<(BranchNode, BranchNode)>::empty(), n),
{
    reveal(queue_wf);
    reveal(plan_wf);
    let bs = Seq::<(BranchNode, BranchNode)>::empty();
    assert forall|i: int, j: int| 0 <= i < j < q.len() implies node_leaves(
        bs,
        #[trigger] q[i],
        bs.len() as int,
    ).disjoint(node_leaves(bs, #[trigger] q[j], bs.len() as int)) by {
        assert(q[i] == BranchNode::Task(i as usize));
        assert(q[j] == BranchNode::Task(j as usize));
        let a = node_leaves(bs, q[i], 0);
        let b = node_leaves(bs, q[j], 0);
        assert(a =~= set![i as usize]);
        assert(b =~= set![j as usize]);
        assert(i as usize != j as usize);
        assert(a.disjoint(b));
    }
    assert forall|t: usize| #[trigger] covered(bs, q, t) <==> (t < n) by {
        if t < n {
            assert(q[t as int] == BranchNode::Task(t));
            assert(node_leaves(bs, q[t as int], bs.len() as int).contains(t));
            assert(covered(bs, q, t));
        }
        if covered(bs, q, t) {
            let i = choose|i: int| 0 <= i < q.len() && #[trigger] node_leaves(bs, q[i], bs.len() as int).contains(t);
            assert(q[i] == BranchNode::Task(i as usize));
            assert(node_leaves(bs, q[i], bs.len() as int) =~= set![i as usize]);
            assert(t == i as usize);
        }
    }
}

/// A queue of one node is the root of the whole tree
proof fn lemma_final_queue(bs: Seq<(BranchNode, BranchNode)>, q: Seq<BranchNode>, n: nat)
    requires
        queue_wf(bs, q, n),
        n >= 1,
        q.len() <= 1,
    ensures
        q.len() == 1,
        node_ok(q[0], n, bs.len() as int),
        forall|t: usize| (t < n) <==> #[trigger] node_leaves(bs, q[0], bs.len() as int).contains(t),
{
    reveal(queue_wf);
    assert(covered(bs, q, 0));
    assert forall|t: usize| (t < n) <==> #[trigger] node_leaves(bs, q[0], bs.len() as int).contains(t) by {
        assert(covered(bs, q, t) <==> (t < n));
        if covered(bs, q, t) {
            let i = choose|i: int| 0 <= i < q.len() && #[trigger] node_leaves(bs, q[i], bs.len() as int).contains(t);
            assert(i == 0);
        }
    }
}

/// One round of pairing: the queue's nodes are paired front to back, each
/// pair becoming a new branch numbered from `base`; the new branches queue
/// in order, followed by the last node when the count was odd
pub open spec fn round_queue(q: Seq<BranchNode>, base: int) -> Seq<BranchNode> {
    let h = q.len() / 2;
    Seq::new(h as nat, |k: int| BranchNode::Branch((base + k) as usize)) + if q.len() % 2 == 1 {
        seq![q.last()]
    } else {
        Seq::empty()
    }
}

/// The branches one round of pairing makes: the nodes two by two, in order
pub open spec fn round_pairs(q: Seq<BranchNode>) -> Seq<(BranchNode, BranchNode)> {
    Seq::new((q.len() / 2) as nat, |k: int| (q[2 * k], q[2 * k + 1]))
}

/// The branches and root that pairing the queue round by round makes,
/// after the branches `bs` already made
pub open spec fn rounds(q: Seq<BranchNode>, bs: Seq<(BranchNode, BranchNode)>) -> (Seq<(BranchNode, BranchNode)>, BranchNode)
    decreases q.len(),
{
    if q.len() < 2 {
        (bs, q[0])
    } else {
        rounds(round_queue(q, bs.len() as int), bs + round_pairs(q))
    }
}

/// The tasks `0..n`, queued in order
pub open spec fn task_queue(n: nat) -> Seq<BranchNode> {
    Seq::new(n, |k: int| BranchNode::Task(k as usize))
}

/// The branches that run `n` tasks, in the order they are made, and the
/// root of the tree: every task is under the root exactly once. There is
/// at least one task.
pub fn branch_plan(n: usize) -> (r: (Vec<(BranchNode, BranchNode)>, BranchNode))
    requires
        n >= 1,
    ensures
        r.0@.len() == n - 1,
        plan_wf(r.0@, n as nat),
        node_ok(r.1, n as nat, r.0@.len() as int),
        forall|t: usize| (t < n) <==> #[trigger] node_leaves(r.0@, r.1, r.0@.len() as int).contains(t),
        (r.0@, r.1) == rounds(task_queue(n as nat), Seq::empty()),
{
    let mut queue: Vec<BranchNode> = Vec::new();
    let mut i: usize = 0;
    while i < n
        invariant
            i <= n,
            queue@.len() == i,
            forall|k: int| 0 <= k < i ==> #[trigger] queue@[k] == BranchNode::Task(k as usize),
        decreases n - i,
    {
        queue.push(BranchNode::Task(i));
        i = i + 1;
    }
    let mut branches: Vec<(BranchNode, BranchNode)> = Vec::new();
    let mut front: usize = 0;
    proof {
        lemma_initial_queue(queue@, n as nat);
        assert(queue@.subrange(0, queue@.len() as int) =~= queue@);
        assert(queue@ =~= task_queue(n as nat));
    }
    while queue.len() - front >= 2
        invariant
            front <= queue@.len(),
            queue_wf(branches@, queue@.subrange(front as int, queue@.len() as int), n as nat),
            plan_wf(branches@, n as nat),
            branches@.len() + (queue@.len() - front) == n,
            rounds(queue@.subrange(front as int, queue@.len() as int), branches@) == rounds(
                task_queue(n as nat),
                Seq::empty(),
            ),
        decreases queue@.len() - front,
    {
        let len = queue.len() - front;
        let ghost q0 = queue@.subrange(front as int, queue@.len() as int);
        let ghost b0 = branches@;
        let mut k: usize = 0;
        while k < len / 2
            invariant
                len >= 2,
                q0.len() == len,
                k <= len / 2,
                front <= queue@.len(),
                queue@.len() - front == len - k,
                branches@.len() + (queue@.len() - front) == n,
                queue_wf(branches@, queue@.subrange(front as int, queue@.len() as int), n as nat),
                plan_wf(branches@, n as nat),
                branches@ == b0 + Seq::new(k as nat, |j: int| (q0[2 * j], q0[2 * j + 1])),
                queue@.subrange(front as int, queue@.len() as int) == q0.subrange(2 * k, len as int)
                    + Seq::new(k as nat, |j: int| BranchNode::Branch((b0.len() + j) as usize)),
            decreases len / 2 - k,
        {
            let ghost q = queue@.subrange(front as int, queue@.len() as int);
            let qlen = queue.len();
            let a = queue[front];
            let b = queue[front + 1];
            proof {
                assert(q[0] == a && q[1] == b);
                lemma_pair_step(branches@, q, n as nat);
            }
            let j = branches.len();
            proof {
                assert(q[0] == q0[2 * k] && q[1] == q0[2 * k + 1]);
            }
            branches.push((a, b));
            queue.push(BranchNode::Branch(j));
            front = front + 2;
            proof {
                assert(queue@.subrange(front as int, queue@.len() as int) =~= q.subrange(2, q.len() as int).push(
                    BranchNode::Branch(j),
                ));
                assert(branches@ =~= b0 + Seq::new((k + 1) as nat, |i: int| (q0[2 * i], q0[2 * i + 1])));
                assert(queue@.subrange(front as int, queue@.len() as int) =~= q0.subrange(2 * (k + 1), len as int)
                    + Seq::new((k + 1) as nat, |i: int| BranchNode::Branch((b0.len() + i) as usize)));
            }
            k = k + 1;
        }
        proof {
            assert(branches@ =~= b0 + round_pairs(q0));
        }
        if len % 2 != 0 {
            let ghost q = queue@.subrange(front as int, queue@.len() as int);
            let qlen = queue.len();
            let f = queue[front];
            proof {
                assert(q[0] == f);
                lemma_rotate_step(branches@, q, n as nat);
            }
            queue.push(f);
            front = front + 1;
            proof {
                assert(queue@.subrange(front as int, queue@.len() as int) =~= q.subrange(1, q.len() as int).push(f));
                assert(f == q0.last());
                assert(queue@.subrange(front as int, queue@.len() as int) =~= round_queue(q0, b0.len() as int));
            }
        } else {
            proof {
                assert(queue@.subrange(front as int, queue@.len() as int) =~= round_queue(q0, b0.len() as int));
            }
        }
    }
    let ghost q = queue@.subrange(front as int, queue@.len() as int);
    proof {
        lemma_final_queue(branches@, q, n as nat);
    }
    let root = queue[front];
    assert(q[0] == root);
    (branches, root)
}

/// The variant each arm of a `select!` matches on: the arms with a task get
/// the variants in order, the others none
pub fn select_variants(has_task: &[bool]) -> (r: Vec<Option<usize>>)
    ensures
        r@.len() == has_task@.len(),
        forall|i: int|
            0 <= i < has_task@.len() ==> (#[trigger] r@[i] is Some <==> has_task@[i]),
        forall|i: int, j: int|
            0 <= i < j < has_task@.len() && has_task@[i] && has_task@[j] ==> #[trigger] r@[i].unwrap() < #[trigger] r@[j].unwrap(),
        forall|i: int|
            0 <= i < has_task@.len() && has_task@[i] ==> #[trigger] r@[i].unwrap() == count_tasks(has_task@, i),
{
    let mut out: Vec<Option<usize>> = Vec::new();
    let mut next: usize = 0;
    let mut i: usize = 0;
    while i < has_task.len()
        invariant
            i <= has_task@.len(),
            out@.len() == i,
            next == count_tasks(has_task@, i as int),
            next <= i,
            forall|k: int| 0 <= k < i ==> (#[trigger] out@[k] is Some <==> has_task@[k]),
            forall|k: int|
                0 <= k < i && has_task@[k] ==> #[trigger] out@[k].unwrap() == count_tasks(has_task@, k),
            forall|k: int| 0 <= k < i && has_task@[k] ==> #[trigger] out@[k].unwrap() < next,
        decreases has_task@.len() - i,
    {
        if has_task[i] {
            out.push(Some(next));
            next = next + 1;
        } else {
            out.push(None);
        }
        i = i + 1;
    }
    proof {
        assert forall|a: int, b: int|
            0 <= a < b < has_task@.len() && has_task@[a] && has_task@[b] implies #[trigger] out@[a].unwrap() < #[trigger] out@[b].unwrap() by {
            lemma_count_tasks_mono(has_task@, a + 1, b);
        }
    }
    out
}

/// The number of arms with a task before arm `i`
pub open spec fn count_tasks(has_task: Seq<bool>, i: int) -> nat
    decreases i,
{
    if i <= 0 {
        0
    } else {
        count_tasks(has_task, i - 1) + if has_task[i - 1] {
            1nat
        } else {
            0nat
        }
    }
}

proof fn lemma_count_tasks_mono(s: Seq<bool>, a: int, b: int)
    requires
        0 <= a <= b,
    ensures
        count_tasks(s, a) <= count_tasks(s, b),
    decreases b - a,
{
    if a < b {
        lemma_count_tasks_mono(s, a, b - 1);
    }
}

/// The kind of branching macro
#[derive(Clone, Copy, Debug, PartialEq, Eq, Structural)]
pub enum Mode {
    Select,
    Join,
}

/// A `select!` or `join!` needs two tasks at least
pub fn check_branch_count(mode: Mode, tasks: usize) -> (r: Result<(), ParseError>)
    ensures
        tasks < 2 ==> r == Err::<(), ParseError>(
            ParseError {
                span: Span { id: 0 },
                message: if mode == Mode::Select {
                    ErrorMessage::SelectNeedsTwo
                } else {
                    ErrorMessage::JoinNeedsTwo
                },
            },
        ),
        tasks >= 2 ==> r is Ok,
{
    if tasks < 2 {
        let message = match mode {
            Mode::Select => ErrorMessage::SelectNeedsTwo,
            Mode::Join => ErrorMessage::JoinNeedsTwo,
        };
        return Err(ParseError { span: Span::call_site(), message });
    }
    Ok(())
}

/// How `join!` runs its tasks: the branches that run them all, the root of
/// the tree, and for each place of the resulting tuple the task whose output
/// goes there
pub struct JoinPlan {
    pub branches: Vec<(BranchNode, BranchNode)>,
    pub root: BranchNode,
    pub outputs: Vec<usize>,
}

/// A plan that runs each of the `tasks` tasks exactly once and lists the
/// tasks' outputs in the order the tasks are given
pub open spec fn join_plan_ok(tasks: usize, p: JoinPlan) -> bool {
    &&& p.branches@.len() == tasks - 1
    &&& plan_wf(p.branches@, tasks as nat)
    &&& node_ok(p.root, tasks as nat, p.branches@.len() as int)
    &&& forall|t: usize|
        (t < tasks) <==> #[trigger] node_leaves(p.branches@, p.root, p.branches@.len() as int).contains(t)
    &&& p.outputs@.len() == tasks
    &&& forall|i: int| 0 <= i < tasks ==> #[trigger] p.outputs@[i] == i
}

/// The `join!` macro with `tasks` tasks: it runs every task to completion,
/// through a tree of branches in which each task is run exactly once, and
/// evaluates to the tuple of their outputs, in the order the tasks are
/// given. It needs two tasks at least.
pub fn join(tasks: usize) -> (r: Result<JoinPlan, ParseError>)
    ensures
        tasks < 2 ==> r == Err::<JoinPlan, ParseError>(
            ParseError { span: Span { id: 0 }, message: ErrorMessage::JoinNeedsTwo },
        ),
        tasks >= 2 ==> (r matches Ok(p) && join_plan_ok(tasks, p)),
{
    check_branch_count(Mode::Join, tasks)?;
    let (branches, root) = branch_plan(tasks);
    let mut outputs: Vec<usize> = Vec::new();
    let mut i: usize = 0;
    while i < tasks
        invariant
            i <= tasks,
            outputs@.len() == i,
            forall|k: int| 0 <= k < i ==> #[trigger] outputs@[k] == k,
        decreases tasks - i,
    {
        outputs.push(i);
        i = i + 1;
    }
    Ok(JoinPlan { branches, root, outputs })
}

} // verus!
