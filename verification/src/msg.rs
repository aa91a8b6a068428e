use vstd::prelude::*;

verus! {

/// Initialization payload: the admin identity, plus the name and symbol the
/// token-registry variant uses for itself.
#[derive(Debug, Clone, PartialEq, Eq)]
pub struct InstantiateMsg {
    pub name: String,
    pub symbol: String,
    pub admin: String,
}

/// A request to mint a batch of items on one registered collection.
#[derive(Debug, Clone, PartialEq, Eq)]
pub struct BatchMintMsg {
    pub collection_addr: String,
    pub token_ids: Vec<String>,
    pub owner: String,
}

/// One transfer of a batch: move `token_id` on `collection_addr` to `recipient`.
#[derive(Debug, Clone, PartialEq, Eq)]
pub struct SingleTransfer {
    pub collection_addr: String,
    pub token_id: String,
    pub recipient: String,
}

/// A request to transfer a batch of items, all-or-nothing.
#[derive(Debug, Clone, PartialEq, Eq)]
pub struct BatchTransferMsg {
    pub transfers: Vec<SingleTransfer>,
}

/// The factory's command surface.
#[derive(Debug, Clone, PartialEq, Eq)]
pub enum ExecuteMsg {
    CreateCollection { name: String, symbol: String },
    BatchMint(BatchMintMsg),
    BatchTransfer(BatchTransferMsg),
}

/// The factory's query surface.
#[derive(Debug, Clone, PartialEq, Eq)]
pub enum QueryMsg {
    Collections {},
    CollectionTokens { collection_addr: String },
}

/// Answer to `QueryMsg::Collections`.
#[derive(Debug, Clone, PartialEq, Eq)]
pub struct CollectionsResponse {
    pub collections: Vec<CollectionInfo>,
}

/// One registered collection, as reported by a query.
#[derive(Debug, Clone, PartialEq, Eq)]
pub struct CollectionInfo {
    pub address: String,
    pub name: String,
    pub symbol: String,
}

/// Answer to `QueryMsg::CollectionTokens`.
#[derive(Debug, Clone, PartialEq, Eq)]
pub struct TokensResponse {
    pub tokens: Vec<TokenInfo>,
}

/// One registered token: an item identifier and its current owner.
#[derive(Debug, Clone, PartialEq, Eq)]
pub struct TokenInfo {
    pub token_id: String,
    pub owner: String,
}

/// The answer a query entry point returns, one variant per query.
#[derive(Debug, Clone, PartialEq, Eq)]
pub enum QueryResponse {
    Collections(CollectionsResponse),
    CollectionTokens(TokensResponse),
}

/// An observability attribute of an acknowledgment: a key and a value.
#[derive(Debug, Clone, PartialEq, Eq)]
pub struct Attribute {
    pub key: String,
    pub value: String,
}

/// A cross-module request this module asks the host to execute after the
/// current call commits.  The host alone performs it; nothing here does.
#[derive(Debug, Clone, PartialEq, Eq)]
pub enum Intent {
    /// Instantiate a child asset-registry module.  The host must deliver the
    /// result as a completion callback under `reply_id`.
    InstantiateChild {
        admin: String,
        code_id: u64,
        name: String,
        symbol: String,
        minter: String,
        reply_id: u64,
    },
    /// Mint `token_id` to `owner` on the child module at `collection_addr`.
    MintToken { collection_addr: String, token_id: String, owner: String },
    /// Transfer `token_id` on the child module at `collection_addr` to `recipient`.
    TransferToken { collection_addr: String, token_id: String, recipient: String },
}

/// The structured acknowledgment of a successful call: action-tagged
/// metadata and the intents the host is to execute.
#[derive(Debug, Clone, PartialEq, Eq)]
pub struct Ack {
    pub attributes: Vec<Attribute>,
    pub intents: Vec<Intent>,
}

/// One notification inside a completion callback, as the host delivers it.
#[derive(Debug, Clone, PartialEq, Eq)]
pub struct Event {
    pub ty: String,
    pub attributes: Vec<Attribute>,
}

/// A completion callback: the correlation identifier chosen at emission time
/// and the notifications the host attached to the completed operation.
#[derive(Debug, Clone, PartialEq, Eq)]
pub struct ReplyMsg {
    pub id: u64,
    pub events: Vec<Event>,
}

} // verus!
