//! The adapter selector: which of the adapters that the host enumerates the
//! plugin works with. The enumeration is read anew for every question, so the
//! answers follow adapters that come and go.

use crate::error::Error;
use vstd::prelude::*;

verus! {

/// The index, in the host's enumeration, of the adapter to use.
#[derive(Debug, Clone, Copy, PartialEq, Eq)]
pub struct AdapterSelector {
    pub adapter_index: usize,
}

impl AdapterSelector {
    /// A selector for the adapter at `adapter_index`.
    pub fn new(adapter_index: usize) -> (selector: Self)
        ensures
            selector.adapter_index == adapter_index,
    {
        AdapterSelector { adapter_index }
    }

    /// Whether Bluetooth is available: the host enumerates at least one
    /// adapter, whichever index the selector holds.
    pub fn get_availability(&self, adapter_count: usize) -> (available: bool)
        ensures
            available == (adapter_count > 0),
    {
        adapter_count > 0
    }

    /// The adapter to use among `adapter_count` enumerated ones: the one at the
    /// selector's index, or `NoAdapter` where the enumeration is too short.
    pub fn select(&self, adapter_count: usize) -> (selected: Result<usize, Error>)
        ensures
            self.adapter_index < adapter_count ==> selected == Ok::<usize, Error>(
                self.adapter_index,
            ),
            self.adapter_index >= adapter_count ==> selected == Err::<usize, Error>(
                Error::NoAdapter,
            ),
    {
        if self.adapter_index < adapter_count {
            Ok(self.adapter_index)
        } else {
            Err(Error::NoAdapter)
        }
    }
}

} // verus!
