//! The material substitution resolver: once a scene instance has finished
//! attaching, walk the descendants of its root, match each node's imported
//! material name against the known literals, and swap the matching nodes'
//! material references to freshly registered replacement descriptors.

use vstd::prelude::*;
use crate::material::{
    bark_material, is_bark_descriptor, is_leaf_descriptor, leaf_material,
};
use crate::registry::MaterialRegistry;
use crate::scene::{
    descendant_marks, is_descendant, scene_wf, single_reference, Node, Scene,
};

verus! {

/// Which replacement a matched material name calls for.
#[derive(Clone, Copy, Debug, PartialEq, Eq, Structural)]
pub enum Recipe {
    /// Replace with the layered leaf descriptor.
    Leaf,
    /// Replace with the simple bark descriptor.
    Bark,
}

/// The imported name that selects the leaf replacement.
pub open spec fn leaf_material_name() -> Seq<char> {
    "M_Leaf_01.004"@
}

/// The imported name that selects the bark replacement.
pub open spec fn bark_material_name() -> Seq<char> {
    "M_Bark_05"@
}

/// The recipe selected by an imported material name: the leaf literal maps to
/// the leaf recipe, the bark literal to the bark recipe, anything else to
/// nothing.
pub open spec fn recipe_of(name: Seq<char>) -> Option<Recipe> {
    if name == leaf_material_name() {
        Some(Recipe::Leaf)
    } else if name == bark_material_name() {
        Some(Recipe::Bark)
    } else {
        None
    }
}

/// The two configured name literals differ, so each selects its own recipe.
pub proof fn lemma_name_literals_distinct()
    ensures
        leaf_material_name() != bark_material_name(),
        recipe_of(leaf_material_name()) == Some(Recipe::Leaf),
        recipe_of(bark_material_name()) == Some(Recipe::Bark),
{
    reveal_strlit("M_Leaf_01.004");
    reveal_strlit("M_Bark_05");
    assert(leaf_material_name().len() == 13);
    assert(bark_material_name().len() == 9);
}

/// Matches a material name against the configured literals.
pub fn material_recipe(name: &String) -> (r: Option<Recipe>)
    ensures
        r == recipe_of(name@),
{
    let leaf: String = "M_Leaf_01.004".to_owned();
    if *name == leaf {
        return Some(Recipe::Leaf);
    }
    let bark: String = "M_Bark_05".to_owned();
    if *name == bark {
        return Some(Recipe::Bark);
    }
    None
}

/// The replacement a node calls for: nodes lacking a material name or a
/// simple material reference call for none (they are skipped, not an error),
/// the rest dispatch on the imported name.
pub open spec fn node_recipe(node: Node) -> Option<Recipe> {
    if node.simple_material is Some {
        match node.material_name {
            Some(name) => recipe_of(name@),
            None => None,
        }
    } else {
        None
    }
}

/// A node without a material-name tag calls for no replacement, so the
/// substitution pass never mutates it.
pub proof fn lemma_untagged_node_no_recipe(node: Node)
    requires
        node.material_name is None,
    ensures
        node_recipe(node) is None,
{
}

/// A node without a simple material reference calls for no replacement, so
/// the substitution pass never mutates it.
pub proof fn lemma_unreferenced_node_no_recipe(node: Node)
    requires
        node.simple_material is None,
    ensures
        node_recipe(node) is None,
{
}

/// A node tagged with exactly the configured leaf literal, and carrying a
/// simple material reference, calls for the leaf replacement.
pub proof fn lemma_leaf_name_selects_leaf(node: Node)
    requires
        node.material_name matches Some(n) && n@ == leaf_material_name(),
        node.simple_material is Some,
    ensures
        node_recipe(node) == Some(Recipe::Leaf),
{
}

/// A node tagged with exactly the configured bark literal, and carrying a
/// simple material reference, calls for the bark replacement.
pub proof fn lemma_bark_name_selects_bark(node: Node)
    requires
        node.material_name matches Some(n) && n@ == bark_material_name(),
        node.simple_material is Some,
    ensures
        node_recipe(node) == Some(Recipe::Bark),
{
    lemma_name_literals_distinct();
}

/// A node whose tag lies outside the configured set calls for no
/// replacement, so the substitution pass leaves its material reference
/// unchanged in identity.
pub proof fn lemma_unmatched_name_no_recipe(node: Node)
    requires
        node.material_name matches Some(n) && n@ != leaf_material_name() && n@
            != bark_material_name(),
    ensures
        node_recipe(node) is None,
{
}

/// Node `i` is acted on by a substitution pass rooted at `root` with outcome
/// `r`: it is a proper descendant of the root and calls for recipe `r`.
pub open spec fn is_target(nodes: Seq<Node>, root: int, i: int, r: Recipe) -> bool {
    &&& 0 <= i < nodes.len()
    &&& is_descendant(nodes, root, i)
    &&& node_recipe(nodes[i]) == Some(r)
}

/// How many targets of recipe `r` have an index below `upto`. Registration
/// order follows index order, so this pins the handle each target receives.
pub open spec fn target_count(nodes: Seq<Node>, root: int, r: Recipe, upto: int) -> nat
    decreases upto,
{
    if upto <= 0 {
        0
    } else {
        target_count(nodes, root, r, upto - 1)
            + (if is_target(nodes, root, upto - 1, r) { 1nat } else { 0nat })
    }
}

/// Applies the replacement a node calls for (if any): registers the
/// replacement descriptor and swaps the node's material references. When the
/// replacement is of a different descriptor kind than the original (the leaf
/// case), the stale simple reference is dropped in the same step.
fn apply_recipe_to_node(node: &mut Node, registry: &mut MaterialRegistry)
    ensures
        final(node).children == old(node).children,
        final(node).material_name == old(node).material_name,
        node_recipe(*old(node)) == Some(Recipe::Leaf) ==> {
            &&& final(node).simple_material is None
            &&& final(node).layered_material matches Some(h)
                && h.id == old(registry).layered@.len()
            &&& final(registry).layered@.len() == old(registry).layered@.len() + 1
            &&& (forall|j: int| #![trigger final(registry).layered@[j]]
                0 <= j < old(registry).layered@.len()
                    ==> final(registry).layered@[j] == old(registry).layered@[j])
            &&& is_leaf_descriptor(final(registry).layered@.last())
            &&& final(registry).simple@ == old(registry).simple@
        },
        node_recipe(*old(node)) == Some(Recipe::Bark) ==> {
            &&& final(node).layered_material == old(node).layered_material
            &&& final(node).simple_material matches Some(h)
                && h.id == old(registry).simple@.len()
            &&& final(registry).simple@.len() == old(registry).simple@.len() + 1
            &&& (forall|j: int| #![trigger final(registry).simple@[j]]
                0 <= j < old(registry).simple@.len()
                    ==> final(registry).simple@[j] == old(registry).simple@[j])
            &&& is_bark_descriptor(final(registry).simple@.last())
            &&& final(registry).layered@ == old(registry).layered@
        },
        node_recipe(*old(node)) is None ==> {
            &&& *final(node) == *old(node)
            &&& final(registry).simple@ == old(registry).simple@
            &&& final(registry).layered@ == old(registry).layered@
        },
{
    let recipe = match (&node.material_name, &node.simple_material) {
        (Some(name), Some(_)) => material_recipe(name),
        _ => None,
    };
    match recipe {
        Some(Recipe::Leaf) => {
            let h = registry.register_layered(leaf_material());
            node.layered_material = Some(h);
            node.simple_material = None;
        }
        Some(Recipe::Bark) => {
            let h = registry.register_simple(bark_material());
            node.simple_material = Some(h);
        }
        None => {}
    }
}

/// The substitution pass over a freshly instantiated scene.
///
/// Every proper descendant of `root` whose imported material name matches a
/// configured literal gets a freshly registered replacement descriptor
/// installed, in index order; every other node — the root itself, nodes
/// outside its descent, nodes without a name tag or without a simple material
/// reference, and nodes with an unmatched name — is left exactly as it was. Already registered descriptors are never
/// touched, so previously issued handles keep their meaning.
#[verifier::loop_isolation(false)]
pub fn replace_materials(scene: &mut Scene, root: usize, registry: &mut MaterialRegistry)
    requires
        scene_wf(old(scene).nodes@),
        root < old(scene).nodes@.len(),
    ensures
        final(scene).nodes@.len() == old(scene).nodes@.len(),
        scene_wf(final(scene).nodes@),
        // Hierarchy and name tags are preserved everywhere.
        forall|i: int| #![trigger final(scene).nodes@[i]]
            0 <= i < old(scene).nodes@.len() ==> {
                &&& final(scene).nodes@[i].children == old(scene).nodes@[i].children
                &&& final(scene).nodes@[i].material_name == old(scene).nodes@[i].material_name
            },
        // A node that held at most one active material reference still does.
        forall|i: int| #![trigger final(scene).nodes@[i]]
            0 <= i < old(scene).nodes@.len() && single_reference(old(scene).nodes@[i])
                ==> single_reference(final(scene).nodes@[i]),
        // Nodes that are no target are untouched.
        forall|i: int| #![trigger final(scene).nodes@[i]]
            0 <= i < old(scene).nodes@.len()
                && !is_target(old(scene).nodes@, root as int, i, Recipe::Leaf)
                && !is_target(old(scene).nodes@, root as int, i, Recipe::Bark)
                ==> final(scene).nodes@[i] == old(scene).nodes@[i],
        // Leaf targets: the simple reference is dropped and a layered
        // reference to a fresh leaf descriptor is installed.
        forall|i: int|
            #[trigger] is_target(old(scene).nodes@, root as int, i, Recipe::Leaf) ==> {
                &&& final(scene).nodes@[i].simple_material is None
                &&& final(scene).nodes@[i].layered_material matches Some(h)
                    && h.id == old(registry).layered@.len()
                        + target_count(old(scene).nodes@, root as int, Recipe::Leaf, i)
                    && h.id < final(registry).layered@.len()
                    && is_leaf_descriptor(final(registry).layered@[h.id as int])
            },
        // Bark targets: the simple reference is swapped to a fresh bark
        // descriptor; a layered reference is neither added nor removed.
        forall|i: int|
            #[trigger] is_target(old(scene).nodes@, root as int, i, Recipe::Bark) ==> {
                &&& final(scene).nodes@[i].layered_material
                    == old(scene).nodes@[i].layered_material
                &&& final(scene).nodes@[i].simple_material matches Some(h)
                    && h.id == old(registry).simple@.len()
                        + target_count(old(scene).nodes@, root as int, Recipe::Bark, i)
                    && h.id < final(registry).simple@.len()
                    && is_bark_descriptor(final(registry).simple@[h.id as int])
            },
        // The registry grows by exactly one entry per target and keeps every
        // entry it already had.
        forall|j: int| #![trigger final(registry).simple@[j]]
            0 <= j < old(registry).simple@.len()
                ==> final(registry).simple@[j] == old(registry).simple@[j],
        forall|j: int| #![trigger final(registry).layered@[j]]
            0 <= j < old(registry).layered@.len()
                ==> final(registry).layered@[j] == old(registry).layered@[j],
        final(registry).simple@.len() == old(registry).simple@.len()
            + target_count(old(scene).nodes@, root as int, Recipe::Bark,
                old(scene).nodes@.len() as int),
        final(registry).layered@.len() == old(registry).layered@.len()
            + target_count(old(scene).nodes@, root as int, Recipe::Leaf,
                old(scene).nodes@.len() as int),
{
    let ghost nodes0 = scene.nodes@;
    let marks = descendant_marks(scene, root);
    let n = scene.nodes.len();
    let mut idx: usize = 0;
    while idx < n
        invariant
            idx <= n,
            scene.nodes@.len() == n,
            forall|i: int| #![trigger scene.nodes@[i]]
                idx <= i < n ==> scene.nodes@[i] == nodes0[i],
            forall|i: int| #![trigger scene.nodes@[i]]
                0 <= i < n ==> {
                    &&& scene.nodes@[i].children == nodes0[i].children
                    &&& scene.nodes@[i].material_name == nodes0[i].material_name
                },
            forall|i: int| #![trigger scene.nodes@[i]]
                0 <= i < idx
                    && !is_target(nodes0, root as int, i, Recipe::Leaf)
                    && !is_target(nodes0, root as int, i, Recipe::Bark)
                    ==> scene.nodes@[i] == nodes0[i],
            forall|i: int|
                0 <= i < idx && #[trigger] is_target(nodes0, root as int, i, Recipe::Leaf)
                    ==> {
                        &&& scene.nodes@[i].simple_material is None
                        &&& scene.nodes@[i].layered_material matches Some(h)
                            && h.id == old(registry).layered@.len()
                                + target_count(nodes0, root as int, Recipe::Leaf, i)
                            && h.id < registry.layered@.len()
                            && is_leaf_descriptor(registry.layered@[h.id as int])
                    },
            forall|i: int|
                0 <= i < idx && #[trigger] is_target(nodes0, root as int, i, Recipe::Bark)
                    ==> {
                        &&& scene.nodes@[i].layered_material == nodes0[i].layered_material
                        &&& scene.nodes@[i].simple_material matches Some(h)
                            && h.id == old(registry).simple@.len()
                                + target_count(nodes0, root as int, Recipe::Bark, i)
                            && h.id < registry.simple@.len()
                            && is_bark_descriptor(registry.simple@[h.id as int])
                    },
            forall|j: int| #![trigger registry.simple@[j]]
                0 <= j < old(registry).simple@.len()
                    ==> registry.simple@[j] == old(registry).simple@[j],
            forall|j: int| #![trigger registry.layered@[j]]
                0 <= j < old(registry).layered@.len()
                    ==> registry.layered@[j] == old(registry).layered@[j],
            registry.simple@.len() == old(registry).simple@.len()
                + target_count(nodes0, root as int, Recipe::Bark, idx as int),
            registry.layered@.len() == old(registry).layered@.len()
                + target_count(nodes0, root as int, Recipe::Leaf, idx as int),
        decreases n - idx,
    {
        assert(target_count(nodes0, root as int, Recipe::Bark, idx + 1) ==
            target_count(nodes0, root as int, Recipe::Bark, idx as int)
                + (if is_target(nodes0, root as int, idx as int, Recipe::Bark) { 1nat } else { 0nat }));
        assert(target_count(nodes0, root as int, Recipe::Leaf, idx + 1) ==
            target_count(nodes0, root as int, Recipe::Leaf, idx as int)
                + (if is_target(nodes0, root as int, idx as int, Recipe::Leaf) { 1nat } else { 0nat }));
        if marks[idx] {
            let node = &mut scene.nodes[idx];
            apply_recipe_to_node(node, registry);
        } else {
            assert(!is_descendant(nodes0, root as int, idx as int));
        }
        idx += 1;
    }
    proof {
        assert forall|i: int|
            0 <= i < n && single_reference(nodes0[i]) implies single_reference(
            scene.nodes@[i],
        ) by {
            if is_target(nodes0, root as int, i, Recipe::Leaf) {
            } else if is_target(nodes0, root as int, i, Recipe::Bark) {
            }
        }
    }
}

} // verus!
