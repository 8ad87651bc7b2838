//! The transition scene of a warp, instantiated at most once per scene.
use vstd::prelude::*;

verus! {

/// The abstract state of a transition cache: the scene, and the node made from it if any.
pub struct TransitionCacheView<S, N> {
    pub transition: Option<S>,
    pub node: Option<N>,
}

impl<S, N> TransitionCacheView<S, N> {
    /// Replacing the scene drops the node made from the old one.
    pub open spec fn set_transition(self, transition: Option<S>) -> Self {
        TransitionCacheView { transition, node: None }
    }

    /// Keeping a node just made from the scene.
    pub open spec fn store(self, node: N) -> Self {
        TransitionCacheView { transition: self.transition, node: Some(node) }
    }

    /// The scene from which a node must be made first: the scene when it is set and no node
    /// has been made from it yet.
    pub open spec fn scene_to_instantiate(self) -> Option<S> {
        if self.node is None {
            self.transition
        } else {
            None
        }
    }

    /// The transition node a warp uses now: the one made from the scene, if there is one.
    pub open spec fn transition_node(self) -> Option<N> {
        if self.transition is Some {
            self.node
        } else {
            None
        }
    }
}

/// Whether `r` refers to the value held by `v` (both empty, or both holding the same value).
pub open spec fn refers_to<T>(r: Option<&T>, v: Option<T>) -> bool {
    match (r, v) {
        (Some(a), Some(b)) => *a == b,
        (None, None) => true,
        _ => false,
    }
}

/// A warp's transition scene (`S`) together with the node (`N`) made from it, which is made
/// when first needed and kept until the scene changes.
pub struct TransitionCache<S, N> {
    transition: Option<S>,
    node: Option<N>,
}

impl<S, N> View for TransitionCache<S, N> {
    type V = TransitionCacheView<S, N>;

    closed spec fn view(&self) -> TransitionCacheView<S, N> {
        TransitionCacheView { transition: self.transition, node: self.node }
    }
}

impl<S, N> TransitionCache<S, N> {
    /// No transition scene.
    pub fn new() -> (r: Self)
        ensures
            r@ == (TransitionCacheView::<S, N> { transition: None, node: None }),
    {
        TransitionCache { transition: None, node: None }
    }

    /// The transition scene.
    pub fn transition(&self) -> (r: Option<&S>)
        ensures
            refers_to(r, self@.transition),
    {
        self.transition.as_ref()
    }

    /// Replaces the transition scene; the node made from the old one is dropped.
    pub fn set_transition(&mut self, transition: Option<S>)
        ensures
            final(self)@ == old(self)@.set_transition(transition),
    {
        self.transition = transition;
        self.node = None;
    }

    /// The scene from which a node must be made before the transition node can be had.
    pub fn scene_to_instantiate(&self) -> (r: Option<&S>)
        ensures
            refers_to(r, self@.scene_to_instantiate()),
    {
        if self.node.is_none() {
            self.transition.as_ref()
        } else {
            None
        }
    }

    /// Keeps `node`, just made from the transition scene.
    pub fn store(&mut self, node: N)
        ensures
            final(self)@ == old(self)@.store(node),
    {
        self.node = Some(node);
    }

    /// The transition node, when there is a transition scene and a node was made from it.
    pub fn get_transition_node(&self) -> (r: Option<&N>)
        ensures
            refers_to(r, self@.transition_node()),
    {
        if self.transition.is_some() {
            self.node.as_ref()
        } else {
            None
        }
    }
}

/// A node made from the scene is the transition node from then on, and no other node needs
/// making, until the scene is replaced; replacing it drops the node, and a newly set scene
/// is the one to make the next node from.
pub proof fn lemma_transition_cache<S, N>(c: TransitionCacheView<S, N>, node: N, scene: Option<S>)
    ensures
        c.transition is Some ==> c.store(node).transition_node() == Some(node),
        c.store(node).scene_to_instantiate() is None,
        c.set_transition(scene).transition_node() is None,
        c.set_transition(scene).scene_to_instantiate() == scene,
{
}

} // verus!
