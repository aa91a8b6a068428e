use vstd::prelude::*;

verus! {

/// One registered collection: the child module's runtime-assigned address
/// (the registry key) with the name and symbol it was created under.
#[derive(Debug, Clone, PartialEq, Eq)]
pub struct CollectionData {
    pub address: String,
    pub name: String,
    pub symbol: String,
}

/// The single in-flight creation request, written when the instantiation
/// intent is emitted and taken exactly once by the matching completion.
#[derive(Debug, Clone, PartialEq, Eq)]
pub struct PendingCollection {
    pub name: String,
    pub symbol: String,
}

/// The factory's durable state: the admin identity, the registry of
/// completed collections in completion order, and the pending-creation slot.
#[derive(Debug, Clone, PartialEq, Eq)]
pub struct FactoryState {
    pub admin: String,
    pub collections: Vec<CollectionData>,
    pub pending: Option<PendingCollection>,
}

/// Whether some record in `s` is keyed by the module address `addr`.
pub open spec fn has_collection(s: Seq<CollectionData>, addr: Seq<char>) -> bool {
    exists|i: int| 0 <= i < s.len() && #[trigger] s[i].address@ == addr
}

impl FactoryState {
    /// Well-formedness: the registry holds at most one record per address.
    pub open spec fn wf(self) -> bool {
        forall|i: int, j: int|
            0 <= i < j < self.collections@.len() ==> #[trigger] self.collections@[i].address@
                != #[trigger] self.collections@[j].address@
    }
}

} // verus!
