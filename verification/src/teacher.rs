//! The single mutable "current teacher" value.

use vstd::prelude::*;

verus! {

use crate::RegistryError;

/// Owns the one teacher name of the registry. The stored name is never empty
/// once the store exists: an empty name is rejected before any mutation and
/// the previous value stays in place. Callers that share the store across
/// worker threads put it behind a lock; each operation here is the whole
/// critical section.
pub struct SingleValueStore {
    value: String,
}

impl SingleValueStore {
    /// The stored text.
    pub closed spec fn value_spec(&self) -> Seq<char> {
        self.value@
    }

    /// The store never holds an empty name.
    pub open spec fn wf(&self) -> bool {
        self.value_spec().len() > 0
    }

    /// Creates the store around an initial name; an empty one is refused.
    pub fn new(initial: String) -> (r: Result<SingleValueStore, RegistryError>)
        ensures
            initial@.len() == 0 ==> r == Err::<SingleValueStore, RegistryError>(
                RegistryError::InvalidArgument,
            ),
            initial@.len() > 0 ==> (r matches Ok(s) && s.value_spec() == initial@ && s.wf()),
    {
        if initial.as_str().is_empty() {
            Err(RegistryError::InvalidArgument)
        } else {
            Ok(SingleValueStore { value: initial })
        }
    }

    /// A copy of the current name.
    pub fn read(&self) -> (r: String)
        ensures
            r@ == self.value_spec(),
    {
        self.value.clone()
    }

    /// Swaps in a new name and returns the one it replaces. An empty new name
    /// is refused and the stored value stays exactly as it was; otherwise the
    /// returned text is the value immediately preceding this swap.
    pub fn set(&mut self, new_value: String) -> (r: Result<String, RegistryError>)
        ensures
            new_value@.len() == 0 ==> r == Err::<String, RegistryError>(
                RegistryError::InvalidArgument,
            ) && *final(self) == *old(self),
            new_value@.len() > 0 ==> (r matches Ok(prev) && prev@ == old(self).value_spec()
                && final(self).value_spec() == new_value@ && final(self).wf()),
    {
        if new_value.as_str().is_empty() {
            Err(RegistryError::InvalidArgument)
        } else {
            let prev = self.value.clone();
            self.value = new_value;
            Ok(prev)
        }
    }
}

} // verus!
