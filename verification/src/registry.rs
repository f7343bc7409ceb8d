//! The material registry: an explicit store of material descriptors, keyed by
//! handle. Registration appends a descriptor and returns a fresh handle;
//! descriptors are never removed, so handles stay valid for the lifetime of
//! the registry.

use vstd::prelude::*;
use crate::material::{LayeredMaterial, SimpleMaterial};

verus! {

/// An opaque reference to a registered material descriptor.
#[derive(Clone, Copy, Debug, PartialEq, Eq, Structural)]
pub struct Handle {
    pub id: usize,
}

/// A store of material descriptors, one pool per descriptor kind. A `Handle`
/// indexes the pool it was issued from.
pub struct MaterialRegistry {
    pub simple: Vec<SimpleMaterial>,
    pub layered: Vec<LayeredMaterial>,
}

impl MaterialRegistry {
    /// An empty registry.
    pub fn new() -> (r: MaterialRegistry)
        ensures
            r.simple@.len() == 0,
            r.layered@.len() == 0,
    {
        MaterialRegistry { simple: Vec::new(), layered: Vec::new() }
    }

    /// Registers a simple descriptor; the returned handle points at it, and
    /// every previously issued handle is left pointing at the same entry.
    pub fn register_simple(&mut self, m: SimpleMaterial) -> (h: Handle)
        ensures
            final(self).simple@ == old(self).simple@.push(m),
            final(self).layered@ == old(self).layered@,
            h.id == old(self).simple@.len(),
    {
        let h = Handle { id: self.simple.len() };
        self.simple.push(m);
        h
    }

    /// Registers a layered descriptor; the returned handle points at it, and
    /// every previously issued handle is left pointing at the same entry.
    pub fn register_layered(&mut self, m: LayeredMaterial) -> (h: Handle)
        ensures
            final(self).layered@ == old(self).layered@.push(m),
            final(self).simple@ == old(self).simple@,
            h.id == old(self).layered@.len(),
    {
        let h = Handle { id: self.layered.len() };
        self.layered.push(m);
        h
    }

    /// Looks up a simple descriptor by handle.
    pub fn get_simple(&self, h: Handle) -> (m: &SimpleMaterial)
        requires
            h.id < self.simple@.len(),
        ensures
            *m == self.simple@[h.id as int],
    {
        &self.simple[h.id]
    }

    /// Looks up a layered descriptor by handle.
    pub fn get_layered(&self, h: Handle) -> (m: &LayeredMaterial)
        requires
            h.id < self.layered@.len(),
        ensures
            *m == self.layered@[h.id as int],
    {
        &self.layered[h.id]
    }
}

} // verus!
