//! Material substitution for a freshly instantiated scene graph.
//!
//! After a scene finishes loading, each mesh node carries the material name
//! imported from the source model file. The resolver walks the descendants of
//! the instantiated root, matches those names against a fixed set of known
//! literals, and swaps in replacement material descriptors registered in an
//! explicit material registry.

pub mod material;
pub mod registry;
pub mod scene;
pub mod resolver;
