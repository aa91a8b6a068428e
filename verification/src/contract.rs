use vstd::prelude::*;

use crate::error::ContractError;
use crate::msg::{
    Ack, Attribute, BatchMintMsg, BatchTransferMsg, CollectionInfo, CollectionsResponse, Event,
    ExecuteMsg, InstantiateMsg, Intent, QueryMsg, QueryResponse, ReplyMsg, TokensResponse,
};
use crate::state::{has_collection, CollectionData, FactoryState, PendingCollection};

verus! {

/// The code identifier the host holds the child asset-registry module under.
pub const CW721_CODE_ID: u64 = 1;

/// The one correlation identifier reserved for child-instantiation replies.
pub const INSTANTIATE_REPLY_ID: u64 = 1;

/// Initialize the factory: record the admin identity, with an empty registry
/// and no pending creation.  The host validates `msg.admin` before the call.
pub fn instantiate(msg: InstantiateMsg) -> (r: (FactoryState, Ack))
    ensures
        r.0.admin@ == msg.admin@,
        r.0.collections@.len() == 0,
        r.0.pending is None,
        r.0.wf(),
        r.1.intents@.len() == 0,
        r.1.attributes@.len() == 2,
        r.1.attributes@[0].key@ == "method"@ && r.1.attributes@[0].value@ == "instantiate"@,
        r.1.attributes@[1].key@ == "admin"@ && r.1.attributes@[1].value@ == msg.admin@,
{
    let state = FactoryState {
        admin: msg.admin.clone(),
        collections: Vec::new(),
        pending: None,
    };
    let mut attributes: Vec<Attribute> = Vec::new();
    attributes.push(Attribute { key: "method".to_owned(), value: "instantiate".to_owned() });
    attributes.push(Attribute { key: "admin".to_owned(), value: msg.admin });
    let ack = Ack { attributes, intents: Vec::new() };
    (state, ack)
}

/// What a finished `CreateCollection` call guarantees: only the admin
/// succeeds; a success stores the pending record and emits exactly the one
/// child-instantiation intent; a failure changes nothing.
pub open spec fn create_collection_post(
    pre: FactoryState,
    post: FactoryState,
    sender: String,
    name: String,
    symbol: String,
    r: Result<Ack, ContractError>,
) -> bool {
    &&& (r is Ok <==> sender@ == pre.admin@)
    &&& (r is Err ==> r == Err::<Ack, ContractError>(ContractError::Unauthorized {}) && post
        == pre)
    &&& (r is Ok ==> {
        &&& post.admin == pre.admin
        &&& post.collections == pre.collections
        &&& post.pending == Some(PendingCollection { name, symbol })
        &&& r->Ok_0.intents@ == seq![
            (Intent::InstantiateChild {
                admin: sender,
                code_id: CW721_CODE_ID,
                name,
                symbol,
                minter: sender,
                reply_id: INSTANTIATE_REPLY_ID,
            }),
        ]
        &&& r->Ok_0.attributes@.len() == 3
        &&& r->Ok_0.attributes@[0].key@ == "action"@ && r->Ok_0.attributes@[0].value@
            == "create_collection"@
        &&& r->Ok_0.attributes@[1].key@ == "name"@ && r->Ok_0.attributes@[1].value@ == name@
        &&& r->Ok_0.attributes@[2].key@ == "symbol"@ && r->Ok_0.attributes@[2].value@ == symbol@
    })
}

/// Ask the host to create a child asset-registry module.
///
/// Only the admin may call this.  The pending-creation slot is written before
/// the instantiation intent is emitted, so the later completion callback can
/// be correlated back to this request; a prior pending record is overwritten.
pub fn execute_create_collection(
    state: &mut FactoryState,
    sender: String,
    name: String,
    symbol: String,
) -> (r: Result<Ack, ContractError>)
    ensures
        create_collection_post(*old(state), *final(state), sender, name, symbol, r),
{
    if !(sender == state.admin) {
        return Err(ContractError::Unauthorized {});
    }
    state.pending = Some(PendingCollection { name: name.clone(), symbol: symbol.clone() });

    let mut attributes: Vec<Attribute> = Vec::new();
    attributes.push(Attribute { key: "action".to_owned(), value: "create_collection".to_owned() });
    attributes.push(Attribute { key: "name".to_owned(), value: name.clone() });
    attributes.push(Attribute { key: "symbol".to_owned(), value: symbol.clone() });

    let mut intents: Vec<Intent> = Vec::new();
    intents.push(Intent::InstantiateChild {
        admin: sender.clone(),
        code_id: CW721_CODE_ID,
        name,
        symbol,
        minter: sender,
        reply_id: INSTANTIATE_REPLY_ID,
    });
    Ok(Ack { attributes, intents })
}

/// Search the registry for the record keyed by `addr`.
pub fn find_collection(s: &Vec<CollectionData>, addr: &String) -> (r: Option<usize>)
    ensures
        match r {
            Some(i) => i < s@.len() && s@[i as int].address@ == addr@,
            None => !has_collection(s@, addr@),
        },
{
    let mut i: usize = 0;
    while i < s.len()
        invariant
            i <= s@.len(),
            forall|j: int| 0 <= j < i ==> #[trigger] s@[j].address@ != addr@,
        decreases s@.len() - i,
    {
        if s[i].address == *addr {
            return Some(i);
        }
        i = i + 1;
    }
    None
}

/// What a finished `BatchMint` call guarantees: the target must be a
/// registered collection and the caller must be the admin; a success emits
/// one mint intent per item identifier, in input order, and never touches
/// the factory state.
pub open spec fn batch_mint_post(
    st: FactoryState,
    sender: String,
    msg: BatchMintMsg,
    r: Result<Ack, ContractError>,
) -> bool {
    &&& (r is Ok <==> has_collection(st.collections@, msg.collection_addr@) && sender@
        == st.admin@)
    &&& (!has_collection(st.collections@, msg.collection_addr@) ==> r == Err::<
        Ack,
        ContractError,
    >(ContractError::CollectionNotFound { addr: msg.collection_addr }))
    &&& (has_collection(st.collections@, msg.collection_addr@) && sender@ != st.admin@ ==> r
        == Err::<Ack, ContractError>(ContractError::Unauthorized {}))
    &&& (r is Ok ==> {
        &&& r->Ok_0.intents@.len() == msg.token_ids@.len()
        &&& forall|i: int|
            0 <= i < msg.token_ids@.len() ==> #[trigger] r->Ok_0.intents@[i]
                == (Intent::MintToken {
                collection_addr: msg.collection_addr,
                token_id: msg.token_ids@[i],
                owner: msg.owner,
            })
        &&& r->Ok_0.attributes@.len() == 3
        &&& r->Ok_0.attributes@[0].key@ == "action"@ && r->Ok_0.attributes@[0].value@
            == "batch_mint"@
        &&& r->Ok_0.attributes@[1].key@ == "collection"@ && r->Ok_0.attributes@[1].value@
            == msg.collection_addr@
        &&& r->Ok_0.attributes@[2].key@ == "recipient"@ && r->Ok_0.attributes@[2].value@
            == msg.owner@
    })
}

/// Ask the registered collection at `msg.collection_addr` to mint each item
/// of `msg.token_ids` to `msg.owner`, one intent per item, in input order.
///
/// Item identifiers are not checked for uniqueness here: a duplicate or
/// already-minted identifier fails at the child module, which rolls back the
/// whole enclosing call.
pub fn execute_batch_mint(state: &FactoryState, sender: String, msg: BatchMintMsg) -> (r: Result<
    Ack,
    ContractError,
>)
    ensures
        batch_mint_post(*state, sender, msg, r),
{
    if find_collection(&state.collections, &msg.collection_addr).is_none() {
        return Err(ContractError::CollectionNotFound { addr: msg.collection_addr });
    }
    if !(sender == state.admin) {
        return Err(ContractError::Unauthorized {});
    }

    let mut intents: Vec<Intent> = Vec::new();
    let mut i: usize = 0;
    while i < msg.token_ids.len()
        invariant
            i <= msg.token_ids@.len(),
            intents@.len() == i,
            forall|j: int|
                0 <= j < i ==> #[trigger] intents@[j] == (Intent::MintToken {
                    collection_addr: msg.collection_addr,
                    token_id: msg.token_ids@[j],
                    owner: msg.owner,
                }),
        decreases msg.token_ids@.len() - i,
    {
        intents.push(Intent::MintToken {
            collection_addr: msg.collection_addr.clone(),
            token_id: msg.token_ids[i].clone(),
            owner: msg.owner.clone(),
        });
        i = i + 1;
    }

    let mut attributes: Vec<Attribute> = Vec::new();
    attributes.push(Attribute { key: "action".to_owned(), value: "batch_mint".to_owned() });
    attributes.push(Attribute { key: "collection".to_owned(), value: msg.collection_addr });
    attributes.push(Attribute { key: "recipient".to_owned(), value: msg.owner });
    Ok(Ack { attributes, intents })
}

/// What a finished `BatchTransfer` call guarantees: it succeeds exactly when
/// every queried owner equals the caller, and then emits one transfer intent
/// per entry, in input order; otherwise it fails `Unauthorized` and, the
/// result being an error, carries no intent at all.
pub open spec fn batch_transfer_post(
    sender: String,
    msg: BatchTransferMsg,
    owners: Seq<String>,
    r: Result<Ack, ContractError>,
) -> bool {
    &&& (r is Ok <==> forall|i: int| 0 <= i < owners.len() ==> #[trigger] owners[i]@ == sender@)
    &&& (r is Err ==> r == Err::<Ack, ContractError>(ContractError::Unauthorized {}))
    &&& (r is Ok ==> {
        &&& r->Ok_0.intents@.len() == msg.transfers@.len()
        &&& forall|i: int|
            0 <= i < msg.transfers@.len() ==> #[trigger] r->Ok_0.intents@[i]
                == (Intent::TransferToken {
                collection_addr: msg.transfers@[i].collection_addr,
                token_id: msg.transfers@[i].token_id,
                recipient: msg.transfers@[i].recipient,
            })
        &&& r->Ok_0.attributes@.len() == 2
        &&& r->Ok_0.attributes@[0].key@ == "action"@ && r->Ok_0.attributes@[0].value@
            == "batch_transfer"@
        &&& r->Ok_0.attributes@[1].key@ == "sender"@ && r->Ok_0.attributes@[1].value@ == sender@
    })
}

/// Transfer a batch of items, all or nothing.
///
/// `owners` holds, for each entry of `msg.transfers`, the current owner of
/// that item as the host queried it from the child module.  The validation
/// pass checks every owner against the caller before the execution pass
/// emits the first intent: intents cannot be recalled once emitted, so a
/// partial batch must never be queued.
pub fn execute_batch_transfer(sender: String, msg: BatchTransferMsg, owners: &Vec<String>) -> (r:
    Result<Ack, ContractError>)
    requires
        owners@.len() == msg.transfers@.len(),
    ensures
        batch_transfer_post(sender, msg, owners@, r),
{
    let mut i: usize = 0;
    while i < owners.len()
        invariant
            i <= owners@.len(),
            forall|j: int| 0 <= j < i ==> #[trigger] owners@[j]@ == sender@,
        decreases owners@.len() - i,
    {
        if !(owners[i] == sender) {
            return Err(ContractError::Unauthorized {});
        }
        i = i + 1;
    }

    let mut intents: Vec<Intent> = Vec::new();
    let mut k: usize = 0;
    while k < msg.transfers.len()
        invariant
            k <= msg.transfers@.len(),
            intents@.len() == k,
            forall|j: int|
                0 <= j < k ==> #[trigger] intents@[j] == (Intent::TransferToken {
                    collection_addr: msg.transfers@[j].collection_addr,
                    token_id: msg.transfers@[j].token_id,
                    recipient: msg.transfers@[j].recipient,
                }),
        decreases msg.transfers@.len() - k,
    {
        intents.push(Intent::TransferToken {
            collection_addr: msg.transfers[k].collection_addr.clone(),
            token_id: msg.transfers[k].token_id.clone(),
            recipient: msg.transfers[k].recipient.clone(),
        });
        k = k + 1;
    }

    let mut attributes: Vec<Attribute> = Vec::new();
    attributes.push(Attribute { key: "action".to_owned(), value: "batch_transfer".to_owned() });
    attributes.push(Attribute { key: "sender".to_owned(), value: sender });
    Ok(Ack { attributes, intents })
}

/// The first notification in `events` whose type is `ty`.
pub open spec fn find_event(events: Seq<Event>, ty: Seq<char>) -> Option<Event>
    decreases events.len(),
{
    if events.len() == 0 {
        None
    } else if events[0].ty@ == ty {
        Some(events[0])
    } else {
        find_event(events.drop_first(), ty)
    }
}

/// The first attribute in `attrs` whose key is `key`.
pub open spec fn find_attr(attrs: Seq<Attribute>, key: Seq<char>) -> Option<Attribute>
    decreases attrs.len(),
{
    if attrs.len() == 0 {
        None
    } else if attrs[0].key@ == key {
        Some(attrs[0])
    } else {
        find_attr(attrs.drop_first(), key)
    }
}

proof fn lemma_find_event_skip(events: Seq<Event>, ty: Seq<char>, i: int)
    requires
        0 <= i <= events.len(),
        forall|j: int| 0 <= j < i ==> #[trigger] events[j].ty@ != ty,
    ensures
        find_event(events, ty) == find_event(events.skip(i), ty),
    decreases i,
{
    if i == 0 {
        assert(events.skip(0) =~= events);
    } else {
        lemma_find_event_skip(events, ty, i - 1);
        assert(events.skip(i - 1)[0] == events[i - 1]);
        assert(events.skip(i - 1)[0].ty@ != ty);
        assert(events.skip(i - 1).drop_first() =~= events.skip(i));
    }
}

proof fn lemma_find_attr_skip(attrs: Seq<Attribute>, key: Seq<char>, i: int)
    requires
        0 <= i <= attrs.len(),
        forall|j: int| 0 <= j < i ==> #[trigger] attrs[j].key@ != key,
    ensures
        find_attr(attrs, key) == find_attr(attrs.skip(i), key),
    decreases i,
{
    if i == 0 {
        assert(attrs.skip(0) =~= attrs);
    } else {
        lemma_find_attr_skip(attrs, key, i - 1);
        assert(attrs.skip(i - 1)[0] == attrs[i - 1]);
        assert(attrs.skip(i - 1)[0].key@ != key);
        assert(attrs.skip(i - 1).drop_first() =~= attrs.skip(i));
    }
}

/// Search `events` for the first notification of type `ty`.
fn find_event_index(events: &Vec<Event>, ty: &String) -> (r: Option<usize>)
    ensures
        match r {
            Some(i) => i < events@.len() && find_event(events@, ty@) == Some(events@[i as int]),
            None => find_event(events@, ty@) is None,
        },
{
    let mut i: usize = 0;
    while i < events.len()
        invariant
            i <= events@.len(),
            forall|j: int| 0 <= j < i ==> #[trigger] events@[j].ty@ != ty@,
        decreases events@.len() - i,
    {
        if events[i].ty == *ty {
            proof {
                lemma_find_event_skip(events@, ty@, i as int);
                assert(events@.skip(i as int)[0] == events@[i as int]);
            }
            return Some(i);
        }
        i = i + 1;
    }
    proof {
        lemma_find_event_skip(events@, ty@, events@.len() as int);
        assert(events@.skip(events@.len() as int) =~= Seq::<Event>::empty());
    }
    None
}

/// Search `attrs` for the first attribute keyed `key`.
fn find_attr_index(attrs: &Vec<Attribute>, key: &String) -> (r: Option<usize>)
    ensures
        match r {
            Some(i) => i < attrs@.len() && find_attr(attrs@, key@) == Some(attrs@[i as int]),
            None => find_attr(attrs@, key@) is None,
        },
{
    let mut i: usize = 0;
    while i < attrs.len()
        invariant
            i <= attrs@.len(),
            forall|j: int| 0 <= j < i ==> #[trigger] attrs@[j].key@ != key@,
        decreases attrs@.len() - i,
    {
        if attrs[i].key == *key {
            proof {
                lemma_find_attr_skip(attrs@, key@, i as int);
                assert(attrs@.skip(i as int)[0] == attrs@[i as int]);
            }
            return Some(i);
        }
        i = i + 1;
    }
    proof {
        lemma_find_attr_skip(attrs@, key@, attrs@.len() as int);
        assert(attrs@.skip(attrs@.len() as int) =~= Seq::<Attribute>::empty());
    }
    None
}

/// How the registry changes when a completion commits the record `c`: a
/// fresh address is appended, a colliding address has its record replaced.
pub open spec fn registered_with(
    pre: Seq<CollectionData>,
    post: Seq<CollectionData>,
    c: CollectionData,
) -> bool {
    if !has_collection(pre, c.address@) {
        post == pre.push(c)
    } else {
        exists|j: int|
            0 <= j < pre.len() && #[trigger] pre[j].address@ == c.address@ && post == pre.update(
                j,
                c,
            )
    }
}

/// What a finished completion callback under the reserved identifier
/// guarantees.  The callback must carry an instantiation notification with
/// an address attribute, and a creation must be pending; then the pending
/// record is taken and committed under the reported address.  Every failure
/// leaves the state exactly as it was.
pub open spec fn instantiate_reply_post(
    pre: FactoryState,
    post: FactoryState,
    msg: ReplyMsg,
    r: Result<Ack, ContractError>,
) -> bool {
    let ev = find_event(msg.events@, "instantiate"@);
    if ev is None {
        r == Err::<Ack, ContractError>(ContractError::NoWasmEvent {}) && post == pre
    } else {
        let at = find_attr(ev->0.attributes@, "_contract_address"@);
        if at is None {
            r == Err::<Ack, ContractError>(ContractError::NoContractAddress {}) && post == pre
        } else if pre.pending is None {
            r == Err::<Ack, ContractError>(ContractError::PendingCollectionNotFound {}) && post
                == pre
        } else {
            let c = CollectionData {
                address: at->0.value,
                name: pre.pending->0.name,
                symbol: pre.pending->0.symbol,
            };
            &&& r is Ok
            &&& post.admin == pre.admin
            &&& post.pending is None
            &&& registered_with(pre.collections@, post.collections@, c)
            &&& r->Ok_0.intents@.len() == 0
            &&& r->Ok_0.attributes@.len() == 2
            &&& r->Ok_0.attributes@[0].key@ == "action"@ && r->Ok_0.attributes@[0].value@
                == "instantiate_reply"@
            &&& r->Ok_0.attributes@[1].key@ == "collection_address"@
                && r->Ok_0.attributes@[1].value@ == at->0.value@
        }
    }
}

/// Commit a child-instantiation completion: extract the new module's address
/// from the instantiation notification, take the pending creation record,
/// and register the collection under that address.
///
/// This handler is the only writer of collection records and the only
/// reader and deleter of the pending-creation slot.
pub fn handle_instantiate_reply(state: &mut FactoryState, msg: ReplyMsg) -> (r: Result<
    Ack,
    ContractError,
>)
    requires
        old(state).wf(),
    ensures
        instantiate_reply_post(*old(state), *final(state), msg, r),
        final(state).wf(),
{
    let ty_lit: String = "instantiate".to_owned();
    let ei = match find_event_index(&msg.events, &ty_lit) {
        Some(i) => i,
        None => {
            return Err(ContractError::NoWasmEvent {});
        },
    };
    let key_lit: String = "_contract_address".to_owned();
    let ai = match find_attr_index(&msg.events[ei].attributes, &key_lit) {
        Some(i) => i,
        None => {
            return Err(ContractError::NoContractAddress {});
        },
    };
    let contract_addr = msg.events[ei].attributes[ai].value.clone();

    let pending = match &state.pending {
        Some(p) => PendingCollection { name: p.name.clone(), symbol: p.symbol.clone() },
        None => {
            return Err(ContractError::PendingCollectionNotFound {});
        },
    };

    let c = CollectionData {
        address: contract_addr.clone(),
        name: pending.name,
        symbol: pending.symbol,
    };
    let ghost pre_collections = state.collections@;
    match find_collection(&state.collections, &contract_addr) {
        Some(i) => {
            state.collections[i] = c;
            proof {
                assert(pre_collections[i as int].address@ == state.collections@[i as int].address@);
                assert forall|x: int, y: int|
                    0 <= x < y < state.collections@.len() implies state.collections@[x].address@
                    != state.collections@[y].address@ by {
                    assert(pre_collections[x].address@ != pre_collections[y].address@);
                }
            }
        },
        None => {
            state.collections.push(c);
            proof {
                assert forall|x: int, y: int|
                    0 <= x < y < state.collections@.len() implies state.collections@[x].address@
                    != state.collections@[y].address@ by {
                    if y == state.collections@.len() - 1 {
                        assert(!has_collection(pre_collections, state.collections@[y].address@));
                        assert(state.collections@[x] == pre_collections[x]);
                    } else {
                        assert(pre_collections[x].address@ != pre_collections[y].address@);
                    }
                }
            }
        },
    }
    state.pending = None;

    let mut attributes: Vec<Attribute> = Vec::new();
    attributes.push(Attribute { key: "action".to_owned(), value: "instantiate_reply".to_owned() });
    attributes.push(Attribute { key: "collection_address".to_owned(), value: contract_addr });
    Ok(Ack { attributes, intents: Vec::new() })
}

/// Route a completion callback by its correlation identifier.  Only the
/// reserved child-instantiation identifier is known; any other always fails
/// and leaves the state untouched.
pub fn reply(state: &mut FactoryState, msg: ReplyMsg) -> (r: Result<Ack, ContractError>)
    requires
        old(state).wf(),
    ensures
        msg.id == INSTANTIATE_REPLY_ID ==> instantiate_reply_post(
            *old(state),
            *final(state),
            msg,
            r,
        ),
        msg.id != INSTANTIATE_REPLY_ID ==> r == Err::<Ack, ContractError>(
            ContractError::UnknownReplyId { id: msg.id },
        ) && *final(state) == *old(state),
        final(state).wf(),
{
    if msg.id == INSTANTIATE_REPLY_ID {
        handle_instantiate_reply(state, msg)
    } else {
        Err(ContractError::UnknownReplyId { id: msg.id })
    }
}

/// Route a command to its handler.
///
/// For a `BatchTransfer`, `owners` holds the host-queried current owner of
/// each entry of the batch, in order; the other commands ignore it.
pub fn execute(
    state: &mut FactoryState,
    sender: String,
    msg: ExecuteMsg,
    owners: &Vec<String>,
) -> (r: Result<Ack, ContractError>)
    requires
        msg matches ExecuteMsg::BatchTransfer(m) ==> owners@.len() == m.transfers@.len(),
    ensures
        msg matches ExecuteMsg::CreateCollection { name, symbol } ==> create_collection_post(
            *old(state),
            *final(state),
            sender,
            name,
            symbol,
            r,
        ),
        msg matches ExecuteMsg::BatchMint(m) ==> *final(state) == *old(state) && batch_mint_post(
            *old(state),
            sender,
            m,
            r,
        ),
        msg matches ExecuteMsg::BatchTransfer(m) ==> *final(state) == *old(state)
            && batch_transfer_post(sender, m, owners@, r),
{
    match msg {
        ExecuteMsg::CreateCollection { name, symbol } => execute_create_collection(
            state,
            sender,
            name,
            symbol,
        ),
        ExecuteMsg::BatchMint(m) => execute_batch_mint(state, sender, m),
        ExecuteMsg::BatchTransfer(m) => execute_batch_transfer(sender, m, owners),
    }
}

/// The query projection of the registry: one entry per record, same order,
/// same fields.
pub open spec fn collections_projection(st: FactoryState, resp: CollectionsResponse) -> bool {
    &&& resp.collections@.len() == st.collections@.len()
    &&& forall|i: int|
        0 <= i < st.collections@.len() ==> #[trigger] resp.collections@[i] == (CollectionInfo {
            address: st.collections@[i].address,
            name: st.collections@[i].name,
            symbol: st.collections@[i].symbol,
        })
}

/// Read the registry: every completed collection, in completion order.
pub fn query_collections(state: &FactoryState) -> (resp: CollectionsResponse)
    ensures
        collections_projection(*state, resp),
{
    let mut collections: Vec<CollectionInfo> = Vec::new();
    let mut i: usize = 0;
    while i < state.collections.len()
        invariant
            i <= state.collections@.len(),
            collections@.len() == i,
            forall|j: int|
                0 <= j < i ==> #[trigger] collections@[j] == (CollectionInfo {
                    address: state.collections@[j].address,
                    name: state.collections@[j].name,
                    symbol: state.collections@[j].symbol,
                }),
        decreases state.collections@.len() - i,
    {
        collections.push(CollectionInfo {
            address: state.collections[i].address.clone(),
            name: state.collections[i].name.clone(),
            symbol: state.collections[i].symbol.clone(),
        });
        i = i + 1;
    }
    CollectionsResponse { collections }
}

/// Answer a query, read-only.
///
/// `CollectionTokens` is a stub boundary toward the child asset-registry
/// module: the factory keeps no per-token state, so it reports no tokens;
/// a complete answer would delegate to the child module itself.
pub fn query(state: &FactoryState, msg: QueryMsg) -> (r: QueryResponse)
    ensures
        msg is Collections ==> (r matches QueryResponse::Collections(resp)
            && collections_projection(*state, resp)),
        msg is CollectionTokens ==> (r matches QueryResponse::CollectionTokens(resp)
            && resp.tokens@.len() == 0),
{
    match msg {
        QueryMsg::Collections {} => QueryResponse::Collections(query_collections(state)),
        QueryMsg::CollectionTokens { collection_addr: _ } => QueryResponse::CollectionTokens(
            TokensResponse { tokens: Vec::new() },
        ),
    }
}

/// Only the admin identity may create a collection: any other caller is
/// refused `Unauthorized`, and the state is exactly as it was.
pub proof fn lemma_create_collection_admin_only(
    pre: FactoryState,
    post: FactoryState,
    sender: String,
    name: String,
    symbol: String,
    r: Result<Ack, ContractError>,
)
    requires
        create_collection_post(pre, post, sender, name, symbol, r),
        sender@ != pre.admin@,
    ensures
        r == Err::<Ack, ContractError>(ContractError::Unauthorized {}),
        post == pre,
{
}

/// Only the admin identity may batch-mint: any other caller is refused — on
/// a registered collection with `Unauthorized` — and no mint intent exists.
/// The handler reads the state only, so no state change is possible at all.
pub proof fn lemma_batch_mint_admin_only(
    st: FactoryState,
    sender: String,
    msg: BatchMintMsg,
    r: Result<Ack, ContractError>,
)
    requires
        batch_mint_post(st, sender, msg, r),
        sender@ != st.admin@,
    ensures
        r is Err,
        has_collection(st.collections@, msg.collection_addr@) ==> r == Err::<Ack, ContractError>(
            ContractError::Unauthorized {},
        ),
{
}

/// For every granted creation request, exactly the one pending record of
/// that request exists between the request and its completion, and the
/// matching completion takes it, leaving none.
pub proof fn lemma_pending_lifecycle(
    pre: FactoryState,
    mid: FactoryState,
    post: FactoryState,
    sender: String,
    name: String,
    symbol: String,
    r1: Result<Ack, ContractError>,
    msg: ReplyMsg,
    r2: Result<Ack, ContractError>,
)
    requires
        create_collection_post(pre, mid, sender, name, symbol, r1),
        r1 is Ok,
        instantiate_reply_post(mid, post, msg, r2),
        r2 is Ok,
    ensures
        mid.pending == Some(PendingCollection { name, symbol }),
        post.pending is None,
{
}

/// All-or-nothing batch transfer: if any single queried owner differs from
/// the caller, the whole call fails `Unauthorized`, and — the result being
/// an error — not one transfer intent is produced.
pub proof fn lemma_batch_transfer_all_or_nothing(
    sender: String,
    msg: BatchTransferMsg,
    owners: Seq<String>,
    r: Result<Ack, ContractError>,
    i: int,
)
    requires
        batch_transfer_post(sender, msg, owners, r),
        0 <= i < owners.len(),
        owners[i]@ != sender@,
    ensures
        r == Err::<Ack, ContractError>(ContractError::Unauthorized {}),
        forall|a: Ack| r != Ok::<Ack, ContractError>(a),
{
}

/// A successful completion under an address not yet registered appends
/// exactly one record, keyed by the address the host assigned at completion
/// time and carrying the pending request's name and symbol; every earlier
/// record is untouched.  With the listing projection preserving order, a
/// run of N such completions therefore lists N records in completion order.
pub proof fn lemma_completion_appends_record(
    pre: FactoryState,
    post: FactoryState,
    msg: ReplyMsg,
    r: Result<Ack, ContractError>,
    addr: Seq<char>,
)
    requires
        instantiate_reply_post(pre, post, msg, r),
        r is Ok,
        (find_event(msg.events@, "instantiate"@) matches Some(ev) && (find_attr(
            ev.attributes@,
            "_contract_address"@,
        ) matches Some(at) && at.value@ == addr)),
        !has_collection(pre.collections@, addr),
    ensures
        post.collections@.len() == pre.collections@.len() + 1,
        forall|j: int|
            0 <= j < pre.collections@.len() ==> #[trigger] post.collections@[j]
                == pre.collections@[j],
        post.collections@.last().address@ == addr,
        post.collections@.last().name@ == pre.pending->0.name@,
        post.collections@.last().symbol@ == pre.pending->0.symbol@,
{
}

} // verus!
