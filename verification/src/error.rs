use vstd::prelude::*;

verus! {

/// The errors a factory or token-registry call can end in.
///
/// `Unauthorized` is an identity-check failure; `UnknownReplyId`,
/// `NoWasmEvent`, `NoContractAddress` and `PendingCollectionNotFound` mark
/// violations of the asynchronous completion protocol; `CollectionNotFound`,
/// `TokenNotFound` and `Claimed` are lookup failures against the registry.
#[derive(Debug, Clone, PartialEq, Eq)]
pub enum ContractError {
    /// The caller is not the identity the operation demands.
    Unauthorized {},
    /// A completion callback arrived under an identifier this module never uses.
    UnknownReplyId { id: u64 },
    /// A completion callback carried no instantiation notification.
    NoWasmEvent {},
    /// The instantiation notification lacks an address attribute.
    NoContractAddress {},
    /// No collection is registered under the given module address.
    CollectionNotFound { addr: String },
    /// A completion callback arrived while no creation was pending.
    PendingCollectionNotFound {},
    /// The host reported that instantiating the child module failed.
    InstantiateFailed {},
    /// No token is registered under the given item identifier.
    TokenNotFound { token_id: String },
    /// A token with the given item identifier already exists.
    Claimed { token_id: String },
}

} // verus!
