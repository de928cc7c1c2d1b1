use vstd::prelude::*;

verus! {

/// Identifier of a document, a 128-bit value.
#[derive(Debug, Clone, Copy, PartialEq, Eq, Structural, Hash)]
pub struct DocumentId {
    raw: u128,
}

impl DocumentId {
    /// The 128-bit value of this identifier.
    pub closed spec fn value(self) -> u128 {
        self.raw
    }

    /// Builds an identifier from its raw 128-bit value.
    pub fn from_raw(raw: u128) -> (id: DocumentId)
        ensures
            id.value() == raw,
    {
        DocumentId { raw }
    }

    /// The raw 128-bit value of this identifier.
    pub fn raw(&self) -> (r: u128)
        ensures
            r == self.value(),
    {
        self.raw
    }
}

} // verus!
