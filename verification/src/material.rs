//! Material descriptors: the shading parameters a mesh node can be rendered
//! with, and the builders for the two replacement descriptors.
//!
//! Scalar shading parameters (reflectance, metallic, roughness, transmission)
//! and color channels are stored in thousandths: `0` stands for `0.0` and
//! `1000` for `1.0`.

use vstd::prelude::*;

verus! {

/// An RGB color; each channel is in thousandths (`1000` = full intensity).
#[derive(Clone, Copy, Debug, PartialEq, Eq, Structural)]
pub struct Color {
    pub red: u16,
    pub green: u16,
    pub blue: u16,
}

/// How the alpha channel of a material is interpreted by the renderer.
#[derive(Clone, Copy, Debug, PartialEq, Eq, Structural)]
pub enum AlphaMode {
    Opaque,
    Blend,
}

/// Pure white, the default base tint.
pub open spec fn white() -> Color {
    Color { red: 1000, green: 1000, blue: 1000 }
}

/// The flat green tint of the leaf shader extension.
pub open spec fn leaf_green() -> Color {
    Color { red: 200, green: 600, blue: 200 }
}

/// The flat grey base tint of the replacement bark material.
pub open spec fn bark_grey() -> Color {
    Color { red: 800, green: 800, blue: 800 }
}

/// A plain physically-based material descriptor: a base tint, an optional
/// albedo texture (referenced by asset path), and scalar shading parameters.
#[derive(Clone, Debug, PartialEq, Eq)]
pub struct SimpleMaterial {
    pub base_color: Color,
    pub base_color_texture: Option<String>,
    pub alpha_mode: AlphaMode,
    pub cull_backfaces: bool,
    pub reflectance: u16,
    pub metallic: u16,
    pub perceptual_roughness: u16,
    pub diffuse_transmission: u16,
}

/// The default simple material: white, untextured, opaque, back-face culled,
/// with half reflectance and half roughness.
pub open spec fn is_default_simple(m: SimpleMaterial) -> bool {
    &&& m.base_color == white()
    &&& m.base_color_texture is None
    &&& m.alpha_mode == AlphaMode::Opaque
    &&& m.cull_backfaces
    &&& m.reflectance == 500
    &&& m.metallic == 0
    &&& m.perceptual_roughness == 500
    &&& m.diffuse_transmission == 0
}

impl Default for SimpleMaterial {
    fn default() -> (m: SimpleMaterial)
        ensures
            is_default_simple(m),
    {
        SimpleMaterial {
            base_color: Color { red: 1000, green: 1000, blue: 1000 },
            base_color_texture: None,
            alpha_mode: AlphaMode::Opaque,
            cull_backfaces: true,
            reflectance: 500,
            metallic: 0,
            perceptual_roughness: 500,
            diffuse_transmission: 0,
        }
    }
}

/// The extension block of the layered leaf material: a flat color plus the
/// texture bindings consumed by the custom leaf shader.
#[derive(Clone, Debug, PartialEq, Eq)]
pub struct LeafMaterial {
    pub color: Color,
    pub color_texture: String,
    pub noise_texture: String,
    pub alpha_mode: AlphaMode,
}

/// The shader source used by both fragment stages of the leaf material.
pub open spec fn leaf_shader_path() -> Seq<char> {
    "leaf.wgsl"@
}

impl LeafMaterial {
    /// Path of the shader run for the direct (forward) fragment stage.
    pub fn fragment_shader() -> (r: String)
        ensures
            r@ == leaf_shader_path(),
    {
        "leaf.wgsl".to_owned()
    }

    /// Path of the shader run for the deferred fragment stage; the same
    /// external shader resource as the direct stage.
    pub fn deferred_fragment_shader() -> (r: String)
        ensures
            r@ == leaf_shader_path(),
    {
        "leaf.wgsl".to_owned()
    }
}

/// A layered material descriptor: a physically-based base plus the leaf
/// shader extension block.
#[derive(Clone, Debug, PartialEq, Eq)]
pub struct LayeredMaterial {
    pub base: SimpleMaterial,
    pub extension: LeafMaterial,
}

/// The base layer of the leaf replacement: opaque, no back-face culling,
/// reflectance/metallic/roughness zeroed, fixed diffuse transmission.
pub open spec fn is_leaf_base(m: SimpleMaterial) -> bool {
    &&& m.base_color == white()
    &&& m.base_color_texture is None
    &&& m.alpha_mode == AlphaMode::Opaque
    &&& !m.cull_backfaces
    &&& m.reflectance == 0
    &&& m.metallic == 0
    &&& m.perceptual_roughness == 0
    &&& m.diffuse_transmission == 600
}

/// The extension layer of the leaf replacement: flat green, the leaf color
/// texture and the noise texture, opaque alpha.
pub open spec fn is_leaf_extension(e: LeafMaterial) -> bool {
    &&& e.color == leaf_green()
    &&& e.color_texture@ == "T_Leaf_01.png"@
    &&& e.noise_texture@ == "T_Noise.png"@
    &&& e.alpha_mode == AlphaMode::Opaque
}

/// The full layered leaf replacement descriptor.
pub open spec fn is_leaf_descriptor(m: LayeredMaterial) -> bool {
    is_leaf_base(m.base) && is_leaf_extension(m.extension)
}

/// The simple bark replacement descriptor: bark albedo texture, flat grey
/// tint, reflectance/metallic/roughness zeroed, all else default.
pub open spec fn is_bark_descriptor(m: SimpleMaterial) -> bool {
    &&& m.base_color == bark_grey()
    &&& m.base_color_texture matches Some(t) && t@ == "T_Bark_Jagged_Albedo.png"@
    &&& m.alpha_mode == AlphaMode::Opaque
    &&& m.cull_backfaces
    &&& m.reflectance == 0
    &&& m.metallic == 0
    &&& m.perceptual_roughness == 0
    &&& m.diffuse_transmission == 0
}

/// Builds the layered replacement installed on meshes that imported the leaf
/// material.
pub fn leaf_material() -> (m: LayeredMaterial)
    ensures
        is_leaf_descriptor(m),
{
    LayeredMaterial {
        base: SimpleMaterial {
            base_color: Color { red: 1000, green: 1000, blue: 1000 },
            base_color_texture: None,
            alpha_mode: AlphaMode::Opaque,
            cull_backfaces: false,
            reflectance: 0,
            metallic: 0,
            perceptual_roughness: 0,
            diffuse_transmission: 600,
        },
        extension: LeafMaterial {
            color: Color { red: 200, green: 600, blue: 200 },
            color_texture: "T_Leaf_01.png".to_owned(),
            noise_texture: "T_Noise.png".to_owned(),
            alpha_mode: AlphaMode::Opaque,
        },
    }
}

/// Builds the simple replacement installed on meshes that imported the bark
/// material.
pub fn bark_material() -> (m: SimpleMaterial)
    ensures
        is_bark_descriptor(m),
{
    SimpleMaterial {
        base_color: Color { red: 800, green: 800, blue: 800 },
        base_color_texture: Some("T_Bark_Jagged_Albedo.png".to_owned()),
        alpha_mode: AlphaMode::Opaque,
        cull_backfaces: true,
        reflectance: 0,
        metallic: 0,
        perceptual_roughness: 0,
        diffuse_transmission: 0,
    }
}

} // verus!
