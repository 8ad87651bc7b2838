//! Searching a node tree for the player character.
use vstd::prelude::*;

verus! {

/// The number of nodes in the subtrees rooted at the nodes of `s`, where `size(n)` is the
/// number of nodes in the subtree rooted at `n`.
pub open spec fn forest_size<N>(s: Seq<N>, size: spec_fn(N) -> nat) -> nat
    decreases s.len(),
{
    if s.len() == 0 {
        0
    } else {
        forest_size(s.drop_last(), size) + size(s.last())
    }
}

/// Whether `size` counts the nodes of the tree whose children are given by `children`: each
/// node's subtree is the node itself and its children's subtrees.
#[verifier::opaque]
pub open spec fn sizes_tree<N>(children: spec_fn(N) -> Seq<N>, size: spec_fn(N) -> nat) -> bool {
    forall|n: N| #[trigger] size(n) == 1 + forest_size(children(n), size)
}

/// The first `k` nodes the search looks at, starting with the nodes `pending` still to look at
/// (the last one first), when no node is the one sought and each node's children are given by
/// `children`.
pub open spec fn examined<N>(pending: Seq<N>, children: spec_fn(N) -> Seq<N>, k: nat) -> Seq<N>
    decreases k,
{
    if k == 0 || pending.len() == 0 {
        Seq::empty()
    } else {
        let n = pending.last();
        seq![n] + examined(pending.drop_last() + children(n), children, (k - 1) as nat)
    }
}

/// A depth-first search through a tree of nodes (`N`): the caller takes the next node, and
/// either it is the one sought or its children are added to the search and the next node is
/// taken.
pub struct AvatarSearch<N> {
    queue: Vec<N>,
}

impl<N> View for AvatarSearch<N> {
    type V = Seq<N>;

    /// The nodes still to look at; the last one is looked at next.
    closed spec fn view(&self) -> Seq<N> {
        self.queue@
    }
}

impl<N> AvatarSearch<N> {
    /// A search that starts at `root`.
    pub fn new(root: N) -> (r: Self)
        ensures
            r@ == seq![root],
    {
        let mut queue = Vec::new();
        queue.push(root);
        AvatarSearch { queue }
    }

    /// The next node to look at, the one added last; `None` when all have been looked at.
    pub fn next_node(&mut self) -> (r: Option<N>)
        ensures
            old(self)@.len() == 0 ==> r is None && final(self)@ == old(self)@,
            old(self)@.len() > 0 ==> r == Some(old(self)@.last()) && final(self)@ == old(self)@.drop_last(),
    {
        self.queue.pop()
    }

    /// The node just taken is not the one sought: its `children` are added to the search (the
    /// last child is looked at first) and the next node to look at is taken; `None` when all
    /// have been looked at.
    pub fn reject(&mut self, children: Vec<N>) -> (r: Option<N>)
        ensures
            ({
                let p = old(self)@ + children@;
                &&& p.len() == 0 ==> r is None && final(self)@ == p
                &&& p.len() > 0 ==> r == Some(p.last()) && final(self)@ == p.drop_last()
            }),
    {
        let mut children = children;
        self.queue.append(&mut children);
        self.queue.pop()
    }
}

/// Counting the subtrees of two lists of nodes one after the other.
pub proof fn lemma_forest_size_append<N>(a: Seq<N>, b: Seq<N>, size: spec_fn(N) -> nat)
    ensures
        forest_size(a + b, size) == forest_size(a, size) + forest_size(b, size),
    decreases b.len(),
{
    if b.len() > 0 {
        assert((a + b).drop_last() =~= a + b.drop_last());
        lemma_forest_size_append(a, b.drop_last(), size);
    }
}

/// Looking at a node and adding its children leaves one node fewer to look at in all.
pub proof fn lemma_search_step<N>(pending: Seq<N>, children: spec_fn(N) -> Seq<N>, size: spec_fn(N) -> nat)
    requires
        sizes_tree(children, size),
        pending.len() > 0,
    ensures
        forest_size(pending.drop_last() + children(pending.last()), size) + 1 == forest_size(pending, size),
{
    lemma_forest_size_append(pending.drop_last(), children(pending.last()), size);
    reveal(sizes_tree);
    assert(size(pending.last()) == 1 + forest_size(children(pending.last()), size));
}

/// Where no node is the one sought, the search looks at as many nodes as the trees still to
/// search hold, and then ends: started at a root, it looks at every node of the tree once
/// the number of steps reaches the tree's size, and at no more.
pub proof fn lemma_search_visits_whole_tree<N>(
    pending: Seq<N>,
    children: spec_fn(N) -> Seq<N>,
    size: spec_fn(N) -> nat,
    k: nat,
)
    requires
        sizes_tree(children, size),
    ensures
        examined(pending, children, k).len() == if k <= forest_size(pending, size) {
            k
        } else {
            forest_size(pending, size)
        },
    decreases k,
{
    if k > 0 && pending.len() > 0 {
        lemma_search_step(pending, children, size);
        lemma_search_visits_whole_tree(
            pending.drop_last() + children(pending.last()),
            children,
            size,
            (k - 1) as nat,
        );
    } else if pending.len() == 0 {
        assert(forest_size(pending, size) == 0);
    }
}

/// Whether the node after position `j` of `path` is a child of the node at `j`.
pub open spec fn descends<N>(path: Seq<N>, children: spec_fn(N) -> Seq<N>, j: int) -> bool {
    children(path[j]).contains(path[j + 1])
}

/// Whether `path` descends the tree: each node after the first is a child of the one before.
pub open spec fn is_path<N>(path: Seq<N>, children: spec_fn(N) -> Seq<N>) -> bool {
    &&& path.len() > 0
    &&& forall|j: int| 0 <= j < path.len() - 1 ==> #[trigger] descends(path, children, j)
}

/// Whether `x` is in the subtree of one of the nodes `from`.
pub open spec fn reachable<N>(from: Seq<N>, children: spec_fn(N) -> Seq<N>, x: N) -> bool {
    exists|path: Seq<N>| #[trigger] is_path(path, children) && from.contains(path[0]) && path.last() == x
}

/// A node in the subtree of a node still to search, other than the next node itself, is in the
/// subtree of a node still to search once the next node is taken and its children added.
proof fn lemma_reachable_after_step<N>(pending: Seq<N>, children: spec_fn(N) -> Seq<N>, path: Seq<N>)
    requires
        is_path(path, children),
        pending.contains(path[0]),
        !(path[0] == pending.last() && path.len() == 1),
    ensures
        reachable(pending.drop_last() + children(pending.last()), children, path.last()),
{
    let n = pending.last();
    let rest = pending.drop_last() + children(n);
    if path[0] == n {
        let path2 = path.drop_first();
        assert(descends(path, children, 0));
        let cn = children(n);
        let j = choose|j: int| 0 <= j < cn.len() && #[trigger] cn[j] == path[1];
        assert(rest[pending.len() - 1 + j] == path2[0]);
        assert forall|j: int| 0 <= j < path2.len() - 1 implies #[trigger] descends(path2, children, j) by {
            assert(descends(path, children, j + 1));
            assert(path2[j] == path[j + 1] && path2[j + 1] == path[j + 2]);
        }
        assert(is_path(path2, children));
        assert(rest.contains(path2[0]));
        assert(path2.last() == path.last());
    } else {
        let i = choose|i: int| 0 <= i < pending.len() && pending[i] == path[0];
        assert(i != pending.len() - 1);
        assert(rest[i] == path[0]);
        assert(rest.contains(path[0]));
    }
}

/// The search leaves out no node: every node in the subtrees of the nodes still to search is
/// among the nodes it looks at before it ends.
pub proof fn lemma_search_complete<N>(
    pending: Seq<N>,
    children: spec_fn(N) -> Seq<N>,
    size: spec_fn(N) -> nat,
    x: N,
)
    requires
        sizes_tree(children, size),
        reachable(pending, children, x),
    ensures
        examined(pending, children, forest_size(pending, size)).contains(x),
    decreases forest_size(pending, size),
{
    let path = choose|path: Seq<N>|
        #[trigger] is_path(path, children) && pending.contains(path[0]) && path.last() == x;
    let n = pending.last();
    let rest = pending.drop_last() + children(n);
    lemma_search_step(pending, children, size);
    let k = forest_size(pending, size);
    let e = examined(rest, children, (k - 1) as nat);
    assert(examined(pending, children, k) == seq![n] + e);
    if path[0] == n && path.len() == 1 {
        assert(examined(pending, children, k)[0] == x);
    } else {
        lemma_reachable_after_step(pending, children, path);
        lemma_search_complete(rest, children, size, x);
        let m = choose|m: int| 0 <= m < e.len() && e[m] == x;
        assert(examined(pending, children, k)[m + 1] == x);
    }
}

/// The search looks only at nodes of the subtrees of the nodes still to search.
pub proof fn lemma_search_sound<N>(pending: Seq<N>, children: spec_fn(N) -> Seq<N>, k: nat, x: N)
    requires
        examined(pending, children, k).contains(x),
    ensures
        reachable(pending, children, x),
    decreases k,
{
    let n = pending.last();
    let rest = pending.drop_last() + children(n);
    let e = examined(pending, children, k);
    let i = choose|i: int| 0 <= i < e.len() && e[i] == x;
    assert(e == seq![n] + examined(rest, children, (k - 1) as nat));
    if i == 0 {
        let path = seq![n];
        assert(pending[pending.len() - 1] == path[0]);
        assert(is_path(path, children));
    } else {
        assert(examined(rest, children, (k - 1) as nat)[i - 1] == x);
        lemma_search_sound(rest, children, (k - 1) as nat, x);
        let path = choose|path: Seq<N>|
            #[trigger] is_path(path, children) && rest.contains(path[0]) && path.last() == x;
        let j = choose|j: int| 0 <= j < rest.len() && rest[j] == path[0];
        if j < pending.len() - 1 {
            assert(pending[j] == path[0]);
            assert(is_path(path, children));
        } else {
            let longer = seq![n] + path;
            assert(children(n)[j - (pending.len() - 1)] == path[0]);
            assert forall|t: int| 0 <= t < longer.len() - 1 implies #[trigger] descends(longer, children, t) by {
                if t > 0 {
                    assert(descends(path, children, t - 1));
                    assert(longer[t] == path[t - 1] && longer[t + 1] == path[t]);
                } else {
                    assert(longer[1] == path[0]);
                    assert(children(n).contains(path[0]));
                }
            }
            assert(is_path(longer, children));
            assert(pending[pending.len() - 1] == longer[0]);
            assert(longer.last() == x);
        }
    }
}

/// Searching the tree of `root`, where no node is the one sought, looks at every node of the
/// tree and at no other, starting with the root; so a search that stops at the first node
/// it seeks finds one exactly when the tree holds one.
pub proof fn lemma_search_finds_iff_present<N>(
    root: N,
    children: spec_fn(N) -> Seq<N>,
    size: spec_fn(N) -> nat,
    sought: spec_fn(N) -> bool,
)
    requires
        sizes_tree(children, size),
    ensures
        ({
            let e = examined(seq![root], children, size(root));
            &&& e.len() == size(root)
            &&& e[0] == root
            &&& forall|x: N| reachable(seq![root], children, x) <==> #[trigger] e.contains(x)
            &&& (exists|x: N| reachable(seq![root], children, x) && #[trigger] sought(x)) <==> (exists|i: int|
                0 <= i < e.len() && #[trigger] sought(e[i]))
        }),
{
    let p = seq![root];
    assert(p.drop_last() =~= Seq::<N>::empty());
    assert(forest_size(p.drop_last(), size) == 0);
    assert(p.last() == root);
    assert(forest_size(p, size) == size(root));
    let e = examined(p, children, size(root));
    lemma_search_visits_whole_tree(p, children, size, size(root));
    lemma_search_step(p, children, size);
    assert(e[0] == root);
    assert forall|x: N| reachable(p, children, x) <==> #[trigger] e.contains(x) by {
        if reachable(p, children, x) {
            lemma_search_complete(p, children, size, x);
        }
        if e.contains(x) {
            lemma_search_sound(p, children, size(root), x);
        }
    }
    if exists|x: N| reachable(p, children, x) && #[trigger] sought(x) {
        let x = choose|x: N| reachable(p, children, x) && #[trigger] sought(x);
        assert(e.contains(x));
        let i = choose|i: int| 0 <= i < e.len() && e[i] == x;
        assert(sought(e[i]));
    }
    if exists|i: int| 0 <= i < e.len() && #[trigger] sought(e[i]) {
        let i = choose|i: int| 0 <= i < e.len() && #[trigger] sought(e[i]);
        assert(e.contains(e[i]));
        assert(reachable(p, children, e[i]));
    }
}

} // verus!
