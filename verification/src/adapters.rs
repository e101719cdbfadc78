//! Host network adapters, as plain names and descriptions. Enumerating them
//! is the platform layer's job; this crate holds and inspects the list.

use vstd::prelude::*;

verus! {

/// One host network adapter.
#[derive(Clone, Debug)]
pub struct EthernetAdapter {
    /// The description of the adapter.
    pub desc: String,
    /// The name of the adapter.
    pub name: String,
}

impl EthernetAdapter {
    /// Builds an adapter entry from its name and description.
    pub fn new(name: String, desc: String) -> (r: EthernetAdapter)
        ensures
            r.name@ == name@,
            r.desc@ == desc@,
    {
        EthernetAdapter { desc, name }
    }

    /// The description of the adapter.
    pub fn desc(&self) -> (r: &str)
        ensures
            r@ == self.desc@,
    {
        self.desc.as_str()
    }

    /// The name of the adapter.
    pub fn name(&self) -> (r: &str)
        ensures
            r@ == self.name@,
    {
        self.name.as_str()
    }
}

/// A list of host network adapters.
#[derive(Clone)]
pub struct EthernetAdapters {
    /// The adapters, in enumeration order.
    pub adapters: Vec<EthernetAdapter>,
}

impl EthernetAdapters {
    /// Wraps an enumerated adapter list.
    pub fn new(adapters: Vec<EthernetAdapter>) -> (r: EthernetAdapters)
        ensures
            r.adapters@ == adapters@,
    {
        EthernetAdapters { adapters }
    }

    /// The number of adapters.
    pub fn len(&self) -> (r: usize)
        ensures
            r == self.adapters@.len(),
    {
        self.adapters.len()
    }

    /// The adapter at `idx`, in enumeration order.
    pub fn get(&self, idx: usize) -> (r: &EthernetAdapter)
        requires
            idx < self.adapters@.len(),
        ensures
            *r == self.adapters@[idx as int],
    {
        &self.adapters[idx]
    }
}

} // verus!
