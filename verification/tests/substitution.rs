use tree_materials::material::{AlphaMode, Color, LeafMaterial, SimpleMaterial};
use tree_materials::registry::{Handle, MaterialRegistry};
use tree_materials::resolver::{material_recipe, replace_materials, Recipe};
use tree_materials::scene::{descendant_marks, Node, Scene};

fn empty_node(children: Vec<usize>) -> Node {
    Node { children, material_name: None, simple_material: None, layered_material: None }
}

fn mesh_node(name: &str, handle_id: usize) -> Node {
    Node {
        children: Vec::new(),
        material_name: Some(name.to_string()),
        simple_material: Some(Handle { id: handle_id }),
        layered_material: None,
    }
}

/// An imported placeholder standing for a material that came with the model.
fn imported_material() -> SimpleMaterial {
    SimpleMaterial::default()
}

#[test]
fn recipe_dispatch() {
    assert_eq!(material_recipe(&"M_Leaf_01.004".to_string()), Some(Recipe::Leaf));
    assert_eq!(material_recipe(&"M_Bark_05".to_string()), Some(Recipe::Bark));
    assert_eq!(material_recipe(&"M_Leaf_01".to_string()), None);
    assert_eq!(material_recipe(&"m_leaf_01.004".to_string()), None);
    assert_eq!(material_recipe(&"".to_string()), None);
}

#[test]
fn shader_paths() {
    assert_eq!(LeafMaterial::fragment_shader(), "leaf.wgsl");
    assert_eq!(LeafMaterial::deferred_fragment_shader(), "leaf.wgsl");
}

#[test]
fn default_simple_material_values() {
    let m = SimpleMaterial::default();
    assert_eq!(m.base_color, Color { red: 1000, green: 1000, blue: 1000 });
    assert_eq!(m.base_color_texture, None);
    assert_eq!(m.alpha_mode, AlphaMode::Opaque);
    assert!(m.cull_backfaces);
    assert_eq!(m.reflectance, 500);
    assert_eq!(m.metallic, 0);
    assert_eq!(m.perceptual_roughness, 500);
    assert_eq!(m.diffuse_transmission, 0);
}

#[test]
fn registry_handles_point_at_entries() {
    let mut reg = MaterialRegistry::new();
    let mut grey = SimpleMaterial::default();
    grey.base_color = Color { red: 500, green: 500, blue: 500 };
    let h0 = reg.register_simple(SimpleMaterial::default());
    let h1 = reg.register_simple(grey.clone());
    assert_eq!(h0, Handle { id: 0 });
    assert_eq!(h1, Handle { id: 1 });
    assert_eq!(reg.get_simple(h0), &SimpleMaterial::default());
    assert_eq!(reg.get_simple(h1), &grey);
}

/// The scenario from the model file: a root whose children carry the leaf
/// name, the bark name, and an unmatched name.
#[test]
fn three_children_scenario() {
    let mut reg = MaterialRegistry::new();
    for _ in 0..3 {
        reg.register_simple(imported_material());
    }
    let mut scene = Scene {
        nodes: vec![
            empty_node(vec![1, 2, 3]),
            mesh_node("M_Leaf_01.004", 0),
            mesh_node("M_Bark_05", 1),
            mesh_node("Empty", 2),
        ],
    };
    replace_materials(&mut scene, 0, &mut reg);

    // Child 1: a layered material with the fixed diffuse transmission, and no
    // simple reference left.
    assert_eq!(scene.nodes[1].simple_material, None);
    let leaf_handle = scene.nodes[1].layered_material.expect("leaf node lost its material");
    let leaf = reg.get_layered(leaf_handle);
    assert_eq!(leaf.base.diffuse_transmission, 600);
    assert_eq!(leaf.base.alpha_mode, AlphaMode::Opaque);
    assert!(!leaf.base.cull_backfaces);
    assert_eq!(leaf.base.reflectance, 0);
    assert_eq!(leaf.base.metallic, 0);
    assert_eq!(leaf.base.perceptual_roughness, 0);
    assert_eq!(leaf.extension.color, Color { red: 200, green: 600, blue: 200 });
    assert_eq!(leaf.extension.color_texture, "T_Leaf_01.png");
    assert_eq!(leaf.extension.noise_texture, "T_Noise.png");

    // Child 2: a simple material with zeroed reflectance and the bark texture.
    let bark_handle = scene.nodes[2].simple_material.expect("bark node lost its material");
    assert_eq!(bark_handle, Handle { id: 3 });
    let bark = reg.get_simple(bark_handle);
    assert_eq!(bark.reflectance, 0);
    assert_eq!(bark.metallic, 0);
    assert_eq!(bark.perceptual_roughness, 0);
    assert_eq!(bark.base_color, Color { red: 800, green: 800, blue: 800 });
    assert_eq!(bark.base_color_texture.as_deref(), Some("T_Bark_Jagged_Albedo.png"));
    assert_eq!(scene.nodes[2].layered_material, None);

    // Child 3: unchanged.
    assert_eq!(scene.nodes[3], mesh_node("Empty", 2));
}

#[test]
fn untagged_node_untouched() {
    let mut reg = MaterialRegistry::new();
    reg.register_simple(imported_material());
    let untagged = Node {
        children: Vec::new(),
        material_name: None,
        simple_material: Some(Handle { id: 0 }),
        layered_material: None,
    };
    let mut scene = Scene {
        nodes: vec![empty_node(vec![1, 2]), untagged.clone(), empty_node(Vec::new())],
    };
    replace_materials(&mut scene, 0, &mut reg);
    assert_eq!(scene.nodes[1], untagged);
    assert_eq!(scene.nodes[2], empty_node(Vec::new()));
    assert_eq!(reg.simple.len(), 1);
    assert_eq!(reg.layered.len(), 0);
}

#[test]
fn unmatched_name_keeps_handle() {
    let mut reg = MaterialRegistry::new();
    reg.register_simple(imported_material());
    let mut scene = Scene {
        nodes: vec![empty_node(vec![1]), mesh_node("M_Stone_02", 0)],
    };
    replace_materials(&mut scene, 0, &mut reg);
    assert_eq!(scene.nodes[1].simple_material, Some(Handle { id: 0 }));
    assert_eq!(scene.nodes[1], mesh_node("M_Stone_02", 0));
    assert_eq!(reg.simple.len(), 1);
}

#[test]
fn leaf_node_single_layered_reference() {
    let mut reg = MaterialRegistry::new();
    reg.register_simple(imported_material());
    let mut scene = Scene {
        nodes: vec![empty_node(vec![1]), mesh_node("M_Leaf_01.004", 0)],
    };
    replace_materials(&mut scene, 0, &mut reg);
    // Exactly one material reference, of the layered kind.
    assert_eq!(scene.nodes[1].simple_material, None);
    assert_eq!(scene.nodes[1].layered_material, Some(Handle { id: 0 }));
    assert_eq!(reg.layered.len(), 1);
}

#[test]
fn bark_node_new_registry_entry() {
    let mut reg = MaterialRegistry::new();
    let before = reg.register_simple(imported_material());
    let mut scene = Scene {
        nodes: vec![empty_node(vec![1]), mesh_node("M_Bark_05", before.id)],
    };
    replace_materials(&mut scene, 0, &mut reg);
    let after = scene.nodes[1].simple_material.expect("bark node lost its material");
    assert_ne!(after, before);
    assert_eq!(after, Handle { id: 1 });
    assert_eq!(reg.simple.len(), 2);
    // The imported entry itself is untouched.
    assert_eq!(reg.get_simple(before), &imported_material());
}

/// Applying the reaction twice is not idempotent: the bark mesh still carries
/// a simple reference, so a second pass registers a duplicate bark entry and
/// reassigns the handle. The event is expected to fire once per
/// instantiation; nothing guards a second application.
#[test]
fn second_run_registers_duplicates() {
    let mut reg = MaterialRegistry::new();
    reg.register_simple(imported_material());
    reg.register_simple(imported_material());
    let mut scene = Scene {
        nodes: vec![
            empty_node(vec![1, 2]),
            mesh_node("M_Leaf_01.004", 0),
            mesh_node("M_Bark_05", 1),
        ],
    };
    replace_materials(&mut scene, 0, &mut reg);
    assert_eq!(reg.simple.len(), 3);
    assert_eq!(reg.layered.len(), 1);
    assert_eq!(scene.nodes[2].simple_material, Some(Handle { id: 2 }));

    replace_materials(&mut scene, 0, &mut reg);
    // The bark mesh matched again: a duplicate entry, and a reassigned handle.
    assert_eq!(reg.simple.len(), 4);
    assert_eq!(scene.nodes[2].simple_material, Some(Handle { id: 3 }));
    assert_eq!(reg.get_simple(Handle { id: 2 }), reg.get_simple(Handle { id: 3 }));
    // The leaf mesh lost its simple reference in the first pass, so the
    // second pass skips it.
    assert_eq!(reg.layered.len(), 1);
    assert_eq!(scene.nodes[1].layered_material, Some(Handle { id: 0 }));
}

#[test]
fn marks_cover_descendants_only() {
    // 0 is the scene root; the instantiated instance is rooted at 1; node 4
    // hangs off the scene root outside that instance. The instance root
    // itself is not a descendant.
    let scene = Scene {
        nodes: vec![
            empty_node(vec![1, 4]),
            empty_node(vec![2, 3]),
            empty_node(vec![3]),
            empty_node(Vec::new()),
            empty_node(Vec::new()),
        ],
    };
    let marks = descendant_marks(&scene, 1);
    assert_eq!(marks, vec![false, false, true, true, false]);
}

/// Only descendants are enumerated: a matching name on the triggering root
/// itself is left alone.
#[test]
fn root_itself_not_replaced() {
    let mut reg = MaterialRegistry::new();
    reg.register_simple(imported_material());
    let mut scene = Scene {
        nodes: vec![mesh_node("M_Bark_05", 0)],
    };
    replace_materials(&mut scene, 0, &mut reg);
    assert_eq!(scene.nodes[0], mesh_node("M_Bark_05", 0));
    assert_eq!(reg.simple.len(), 1);
}

#[test]
fn substitution_stays_inside_subtree() {
    let mut reg = MaterialRegistry::new();
    reg.register_simple(imported_material());
    reg.register_simple(imported_material());
    let mut scene = Scene {
        nodes: vec![
            empty_node(vec![1, 3]),
            empty_node(vec![2]),
            mesh_node("M_Bark_05", 0),
            mesh_node("M_Bark_05", 1),
        ],
    };
    // Rooted at 1: the grandchild 2 is replaced, the sibling 3 is not.
    replace_materials(&mut scene, 1, &mut reg);
    assert_eq!(scene.nodes[2].simple_material, Some(Handle { id: 2 }));
    assert_eq!(scene.nodes[3], mesh_node("M_Bark_05", 1));
    assert_eq!(reg.simple.len(), 3);
}
