//! The scene graph model: an arena of nodes, each with child links, an
//! optional imported-material name tag, and optional material references.
//!
//! Nodes are spawned in instantiation order, so every child link points at a
//! strictly larger index than its parent; that ordering is the scene's
//! well-formedness invariant and is what makes descendant traversal finite.

use vstd::prelude::*;
use crate::registry::Handle;

verus! {

/// One node of the scene graph. Most nodes (lights, transforms) carry neither
/// a material name nor a material reference; a mesh node imported from a
/// model file carries both. The two reference fields correspond to the two
/// descriptor kinds a node can be rendered with; an active node holds at most
/// one of them.
#[derive(Clone, Debug, PartialEq, Eq)]
pub struct Node {
    /// Arena indices of the direct children; each is larger than this node's
    /// own index.
    pub children: Vec<usize>,
    /// The material name imported with the source model, if any.
    pub material_name: Option<String>,
    /// A reference into the simple-descriptor pool, if any.
    pub simple_material: Option<Handle>,
    /// A reference into the layered-descriptor pool, if any.
    pub layered_material: Option<Handle>,
}

/// The scene graph: an arena of nodes addressed by index.
pub struct Scene {
    pub nodes: Vec<Node>,
}

/// A node holds at most one active material reference at a time.
pub open spec fn single_reference(node: Node) -> bool {
    !(node.simple_material is Some && node.layered_material is Some)
}

/// Every child link stays inside the arena and points strictly past its
/// parent (nodes are appended in instantiation order).
pub open spec fn scene_wf(nodes: Seq<Node>) -> bool {
    forall|i: int, k: int|
        0 <= i < nodes.len() && 0 <= k < nodes[i].children@.len()
            ==> i < #[trigger] nodes[i].children@[k] < nodes.len()
}

/// `i` lies in the subtree rooted at `root`: it is `root` itself or a
/// descendant reached through child links.
pub open spec fn in_subtree(nodes: Seq<Node>, root: int, i: int) -> bool
    decreases nodes.len() - root
        when 0 <= root < nodes.len() && scene_wf(nodes)
{
    i == root || exists|k: int|
        0 <= k < nodes[root].children@.len()
            && in_subtree(nodes, #[trigger] nodes[root].children@[k] as int, i)
}

/// A child of a subtree member is itself a subtree member.
pub proof fn lemma_in_subtree_child(nodes: Seq<Node>, root: int, p: int, k: int)
    requires
        scene_wf(nodes),
        0 <= root < nodes.len(),
        0 <= p < nodes.len(),
        in_subtree(nodes, root, p),
        0 <= k < nodes[p].children@.len(),
    ensures
        in_subtree(nodes, root, nodes[p].children@[k] as int),
    decreases nodes.len() - root,
{
    if p == root {
        let c = nodes[root].children@[k] as int;
        assert(in_subtree(nodes, c, c));
    } else {
        let k0 = choose|k0: int|
            0 <= k0 < nodes[root].children@.len()
                && in_subtree(nodes, #[trigger] nodes[root].children@[k0] as int, p);
        lemma_in_subtree_child(nodes, nodes[root].children@[k0] as int, p, k);
    }
}

/// `i` is a proper descendant of `root`: reachable through at least one
/// child link.
pub open spec fn is_descendant(nodes: Seq<Node>, root: int, i: int) -> bool {
    i != root && in_subtree(nodes, root, i)
}

/// A marking that is closed under child links and contains `sub` contains the
/// whole subtree of `sub`.
proof fn lemma_marks_complete(nodes: Seq<Node>, marks: Seq<bool>, root: int, sub: int, i: int)
    requires
        scene_wf(nodes),
        marks.len() == nodes.len(),
        0 <= root <= sub < nodes.len(),
        forall|p: int, k: int|
            root <= p < nodes.len() && marks[p] && 0 <= k < nodes[p].children@.len()
                ==> marks[#[trigger] nodes[p].children@[k] as int],
        marks[sub],
        in_subtree(nodes, sub, i),
    ensures
        marks[i],
    decreases nodes.len() - sub,
{
    if i != sub {
        let k0 = choose|k0: int|
            0 <= k0 < nodes[sub].children@.len()
                && in_subtree(nodes, #[trigger] nodes[sub].children@[k0] as int, i);
        lemma_marks_complete(nodes, marks, root, nodes[sub].children@[k0] as int, i);
    }
}

/// Computes, for every node of the scene, whether it is a proper descendant
/// of `root`. The result is a mark vector parallel to the arena.
#[verifier::loop_isolation(false)]
pub fn descendant_marks(scene: &Scene, root: usize) -> (marks: Vec<bool>)
    requires
        scene_wf(scene.nodes@),
        root < scene.nodes@.len(),
    ensures
        marks@.len() == scene.nodes@.len(),
        forall|j: int|
            0 <= j < marks@.len()
                ==> (#[trigger] marks@[j] <==> is_descendant(scene.nodes@, root as int, j)),
{
    let n = scene.nodes.len();
    let mut marks: Vec<bool> = Vec::new();
    let mut i: usize = 0;
    while i < n
        invariant
            i <= n,
            marks@.len() == i,
            forall|j: int| 0 <= j < i ==> !(#[trigger] marks@[j]),
        decreases n - i,
    {
        marks.push(false);
        i += 1;
    }
    marks[root] = true;

    let mut idx: usize = root;
    while idx < n
        invariant
            root <= idx <= n,
            marks@.len() == n,
            marks@[root as int],
            forall|j: int|
                0 <= j < n && #[trigger] marks@[j]
                    ==> in_subtree(scene.nodes@, root as int, j),
            forall|p: int, k: int|
                root <= p < idx && marks@[p] && 0 <= k < scene.nodes@[p].children@.len()
                    ==> marks@[#[trigger] scene.nodes@[p].children@[k] as int],
        decreases n - idx,
    {
        if marks[idx] {
            let node = &scene.nodes[idx];
            let num_children = node.children.len();
            let mut k: usize = 0;
            while k < num_children
                invariant
                    k <= num_children,
                    num_children == scene.nodes@[idx as int].children@.len(),
                    marks@.len() == n,
                    marks@[root as int],
                    marks@[idx as int],
                    forall|j: int|
                        0 <= j < n && #[trigger] marks@[j]
                            ==> in_subtree(scene.nodes@, root as int, j),
                    forall|p: int, kk: int|
                        root <= p < idx && marks@[p] && 0 <= kk < scene.nodes@[p].children@.len()
                            ==> marks@[#[trigger] scene.nodes@[p].children@[kk] as int],
                    forall|kk: int|
                        0 <= kk < k
                            ==> marks@[#[trigger] scene.nodes@[idx as int].children@[kk] as int],
                decreases num_children - k,
            {
                let c = node.children[k];
                proof {
                    lemma_in_subtree_child(scene.nodes@, root as int, idx as int, k as int);
                }
                marks[c] = true;
                k += 1;
            }
        }
        idx += 1;
    }

    proof {
        assert forall|j: int|
            0 <= j < marks@.len() && in_subtree(scene.nodes@, root as int, j)
                implies marks@[j] by {
            lemma_marks_complete(scene.nodes@, marks@, root as int, root as int, j);
        }
    }
    // The seed itself is no proper descendant.
    marks[root] = false;
    marks
}

} // verus!
