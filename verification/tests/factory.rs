use cw721_factory::contract::{
    execute, execute_batch_mint, execute_batch_transfer, execute_create_collection,
    handle_instantiate_reply, instantiate, query, query_collections, reply, INSTANTIATE_REPLY_ID,
};
use cw721_factory::error::ContractError;
use cw721_factory::msg::{
    Ack, Attribute, BatchMintMsg, BatchTransferMsg, CollectionInfo, Event, ExecuteMsg,
    InstantiateMsg, Intent, QueryMsg, QueryResponse, ReplyMsg, SingleTransfer,
};
use cw721_factory::state::{FactoryState, PendingCollection};

fn init(admin: &str) -> FactoryState {
    let msg = InstantiateMsg {
        name: "Test Factory".to_string(),
        symbol: "TFAC".to_string(),
        admin: admin.to_string(),
    };
    instantiate(msg).0
}

fn instantiate_reply(addr: &str) -> ReplyMsg {
    ReplyMsg {
        id: INSTANTIATE_REPLY_ID,
        events: vec![Event {
            ty: "instantiate".to_string(),
            attributes: vec![Attribute {
                key: "_contract_address".to_string(),
                value: addr.to_string(),
            }],
        }],
    }
}

fn complete(state: &mut FactoryState, addr: &str) -> Ack {
    reply(state, instantiate_reply(addr)).unwrap()
}

fn register(state: &mut FactoryState, admin: &str, name: &str, symbol: &str, addr: &str) {
    execute_create_collection(state, admin.to_string(), name.to_string(), symbol.to_string())
        .unwrap();
    complete(state, addr);
}

#[test]
fn proper_initialization() {
    let msg = InstantiateMsg {
        name: "Test Factory".to_string(),
        symbol: "TFAC".to_string(),
        admin: "admin".to_string(),
    };
    let (state, ack) = instantiate(msg);
    assert_eq!(0, ack.intents.len());
    assert_eq!(state.admin, "admin");
    assert!(state.collections.is_empty());
    assert!(state.pending.is_none());
}

#[test]
fn instantiate_reports_method_and_admin() {
    let msg = InstantiateMsg {
        name: "Test Factory".to_string(),
        symbol: "TFAC".to_string(),
        admin: "admin".to_string(),
    };
    let (_, ack) = instantiate(msg);
    assert_eq!(
        ack.attributes,
        vec![
            Attribute { key: "method".to_string(), value: "instantiate".to_string() },
            Attribute { key: "admin".to_string(), value: "admin".to_string() },
        ]
    );
}

#[test]
fn create_collection_as_admin_sets_pending_and_emits_intent() {
    let mut state = init("admin");
    let ack = execute_create_collection(
        &mut state,
        "admin".to_string(),
        "Art".to_string(),
        "ART".to_string(),
    )
    .unwrap();
    assert_eq!(
        state.pending,
        Some(PendingCollection { name: "Art".to_string(), symbol: "ART".to_string() })
    );
    assert_eq!(
        ack.intents,
        vec![Intent::InstantiateChild {
            admin: "admin".to_string(),
            code_id: 1,
            name: "Art".to_string(),
            symbol: "ART".to_string(),
            minter: "admin".to_string(),
            reply_id: INSTANTIATE_REPLY_ID,
        }]
    );
}

#[test]
fn create_collection_as_other_caller_is_refused() {
    let mut state = init("admin");
    let before = state.clone();
    let err = execute_create_collection(
        &mut state,
        "mallory".to_string(),
        "Art".to_string(),
        "ART".to_string(),
    )
    .unwrap_err();
    assert_eq!(err, ContractError::Unauthorized {});
    assert_eq!(state, before);
}

#[test]
fn create_and_complete_collection() {
    let mut state = init("admin");
    execute_create_collection(&mut state, "admin".to_string(), "Art".to_string(), "ART".to_string())
        .unwrap();
    assert_eq!(
        state.pending,
        Some(PendingCollection { name: "Art".to_string(), symbol: "ART".to_string() })
    );
    let ack = complete(&mut state, "addr1");
    assert!(state.pending.is_none());
    assert_eq!(ack.intents.len(), 0);
    let resp = query_collections(&state);
    assert_eq!(
        resp.collections,
        vec![CollectionInfo {
            address: "addr1".to_string(),
            name: "Art".to_string(),
            symbol: "ART".to_string(),
        }]
    );
}

#[test]
fn collections_are_listed_in_completion_order() {
    let mut state = init("admin");
    register(&mut state, "admin", "Art", "ART", "addr2");
    register(&mut state, "admin", "Music", "MUS", "addr1");
    register(&mut state, "admin", "Books", "BOK", "addr3");
    let resp = query_collections(&state);
    let listed: Vec<(String, String, String)> = resp
        .collections
        .into_iter()
        .map(|c| (c.address, c.name, c.symbol))
        .collect();
    assert_eq!(
        listed,
        vec![
            ("addr2".to_string(), "Art".to_string(), "ART".to_string()),
            ("addr1".to_string(), "Music".to_string(), "MUS".to_string()),
            ("addr3".to_string(), "Books".to_string(), "BOK".to_string()),
        ]
    );
}

#[test]
fn reply_with_unknown_id_is_refused_and_state_kept() {
    let mut state = init("admin");
    register(&mut state, "admin", "Art", "ART", "addr1");
    let before = state.clone();
    let mut msg = instantiate_reply("addr9");
    msg.id = 42;
    let err = reply(&mut state, msg).unwrap_err();
    assert_eq!(err, ContractError::UnknownReplyId { id: 42 });
    assert_eq!(state, before);
}

#[test]
fn reply_without_instantiate_event_is_refused() {
    let mut state = init("admin");
    execute_create_collection(&mut state, "admin".to_string(), "Art".to_string(), "ART".to_string())
        .unwrap();
    let before = state.clone();
    let msg = ReplyMsg {
        id: INSTANTIATE_REPLY_ID,
        events: vec![Event { ty: "execute".to_string(), attributes: vec![] }],
    };
    let err = handle_instantiate_reply(&mut state, msg).unwrap_err();
    assert_eq!(err, ContractError::NoWasmEvent {});
    assert_eq!(state, before);
}

#[test]
fn reply_without_address_attribute_is_refused() {
    let mut state = init("admin");
    execute_create_collection(&mut state, "admin".to_string(), "Art".to_string(), "ART".to_string())
        .unwrap();
    let before = state.clone();
    let msg = ReplyMsg {
        id: INSTANTIATE_REPLY_ID,
        events: vec![Event {
            ty: "instantiate".to_string(),
            attributes: vec![Attribute { key: "code_id".to_string(), value: "1".to_string() }],
        }],
    };
    let err = handle_instantiate_reply(&mut state, msg).unwrap_err();
    assert_eq!(err, ContractError::NoContractAddress {});
    assert_eq!(state, before);
}

#[test]
fn reply_without_pending_creation_is_refused() {
    let mut state = init("admin");
    let before = state.clone();
    let err = reply(&mut state, instantiate_reply("addr1")).unwrap_err();
    assert_eq!(err, ContractError::PendingCollectionNotFound {});
    assert_eq!(state, before);
}

#[test]
fn batch_mint_for_unregistered_module_is_refused() {
    let mut state = init("admin");
    register(&mut state, "admin", "Art", "ART", "addr1");
    let listed_before = query_collections(&state);
    let msg = BatchMintMsg {
        collection_addr: "addr9".to_string(),
        token_ids: vec!["1".to_string()],
        owner: "owner".to_string(),
    };
    let err = execute_batch_mint(&state, "admin".to_string(), msg).unwrap_err();
    assert_eq!(err, ContractError::CollectionNotFound { addr: "addr9".to_string() });
    assert_eq!(query_collections(&state), listed_before);
}

#[test]
fn batch_mint_as_other_caller_is_refused() {
    let mut state = init("admin");
    register(&mut state, "admin", "Art", "ART", "addr1");
    let msg = BatchMintMsg {
        collection_addr: "addr1".to_string(),
        token_ids: vec!["1".to_string()],
        owner: "owner".to_string(),
    };
    let err = execute_batch_mint(&state, "mallory".to_string(), msg).unwrap_err();
    assert_eq!(err, ContractError::Unauthorized {});
}

#[test]
fn batch_mint_emits_one_intent_per_item_in_order() {
    let mut state = init("admin");
    register(&mut state, "admin", "Art", "ART", "addr1");
    let msg = BatchMintMsg {
        collection_addr: "addr1".to_string(),
        token_ids: vec!["1".to_string(), "2".to_string(), "3".to_string()],
        owner: "owner".to_string(),
    };
    let ack = execute_batch_mint(&state, "admin".to_string(), msg).unwrap();
    let expected: Vec<Intent> = ["1", "2", "3"]
        .iter()
        .map(|id| Intent::MintToken {
            collection_addr: "addr1".to_string(),
            token_id: id.to_string(),
            owner: "owner".to_string(),
        })
        .collect();
    assert_eq!(ack.intents, expected);
}

#[test]
fn batch_transfer_with_one_foreign_item_emits_nothing() {
    let transfers = vec![
        SingleTransfer {
            collection_addr: "addr1".to_string(),
            token_id: "1".to_string(),
            recipient: "bob".to_string(),
        },
        SingleTransfer {
            collection_addr: "addr1".to_string(),
            token_id: "2".to_string(),
            recipient: "bob".to_string(),
        },
    ];
    let owners = vec!["alice".to_string(), "carol".to_string()];
    let r = execute_batch_transfer(
        "alice".to_string(),
        BatchTransferMsg { transfers },
        &owners,
    );
    assert_eq!(r.unwrap_err(), ContractError::Unauthorized {});
}

#[test]
fn batch_transfer_with_all_items_owned_emits_all_intents() {
    let transfers = vec![
        SingleTransfer {
            collection_addr: "addr1".to_string(),
            token_id: "1".to_string(),
            recipient: "bob".to_string(),
        },
        SingleTransfer {
            collection_addr: "addr2".to_string(),
            token_id: "2".to_string(),
            recipient: "carol".to_string(),
        },
    ];
    let owners = vec!["alice".to_string(), "alice".to_string()];
    let ack = execute_batch_transfer(
        "alice".to_string(),
        BatchTransferMsg { transfers },
        &owners,
    )
    .unwrap();
    assert_eq!(
        ack.intents,
        vec![
            Intent::TransferToken {
                collection_addr: "addr1".to_string(),
                token_id: "1".to_string(),
                recipient: "bob".to_string(),
            },
            Intent::TransferToken {
                collection_addr: "addr2".to_string(),
                token_id: "2".to_string(),
                recipient: "carol".to_string(),
            },
        ]
    );
}

#[test]
fn execute_routes_each_command() {
    let mut state = init("admin");
    let no_owners: Vec<String> = vec![];
    let ack = execute(
        &mut state,
        "admin".to_string(),
        ExecuteMsg::CreateCollection { name: "Art".to_string(), symbol: "ART".to_string() },
        &no_owners,
    )
    .unwrap();
    assert_eq!(ack.intents.len(), 1);
    complete(&mut state, "addr1");
    let ack = execute(
        &mut state,
        "admin".to_string(),
        ExecuteMsg::BatchMint(BatchMintMsg {
            collection_addr: "addr1".to_string(),
            token_ids: vec!["1".to_string()],
            owner: "owner".to_string(),
        }),
        &no_owners,
    )
    .unwrap();
    assert_eq!(ack.intents.len(), 1);
    let owners = vec!["owner".to_string()];
    let ack = execute(
        &mut state,
        "owner".to_string(),
        ExecuteMsg::BatchTransfer(BatchTransferMsg {
            transfers: vec![SingleTransfer {
                collection_addr: "addr1".to_string(),
                token_id: "1".to_string(),
                recipient: "bob".to_string(),
            }],
        }),
        &owners,
    )
    .unwrap();
    assert_eq!(ack.intents.len(), 1);
}

#[test]
fn empty_batches_succeed_with_no_intents() {
    let mut state = init("admin");
    register(&mut state, "admin", "Art", "ART", "addr1");
    let mint = BatchMintMsg {
        collection_addr: "addr1".to_string(),
        token_ids: vec![],
        owner: "owner".to_string(),
    };
    let ack = execute_batch_mint(&state, "admin".to_string(), mint).unwrap();
    assert!(ack.intents.is_empty());
    let no_owners: Vec<String> = vec![];
    let ack = execute_batch_transfer(
        "alice".to_string(),
        BatchTransferMsg { transfers: vec![] },
        &no_owners,
    )
    .unwrap();
    assert!(ack.intents.is_empty());
}

#[test]
fn second_creation_request_overwrites_pending() {
    let mut state = init("admin");
    execute_create_collection(&mut state, "admin".to_string(), "Art".to_string(), "ART".to_string())
        .unwrap();
    execute_create_collection(
        &mut state,
        "admin".to_string(),
        "Music".to_string(),
        "MUS".to_string(),
    )
    .unwrap();
    assert_eq!(
        state.pending,
        Some(PendingCollection { name: "Music".to_string(), symbol: "MUS".to_string() })
    );
    complete(&mut state, "addr1");
    let resp = query_collections(&state);
    assert_eq!(resp.collections.len(), 1);
    assert_eq!(resp.collections[0].name, "Music");
}

#[test]
fn completion_under_known_address_replaces_record() {
    let mut state = init("admin");
    register(&mut state, "admin", "Art", "ART", "addr1");
    register(&mut state, "admin", "Music", "MUS", "addr1");
    let resp = query_collections(&state);
    assert_eq!(
        resp.collections,
        vec![CollectionInfo {
            address: "addr1".to_string(),
            name: "Music".to_string(),
            symbol: "MUS".to_string(),
        }]
    );
}

#[test]
fn query_collection_tokens_is_a_stub() {
    let mut state = init("admin");
    register(&mut state, "admin", "Art", "ART", "addr1");
    match query(&state, QueryMsg::CollectionTokens { collection_addr: "addr1".to_string() }) {
        QueryResponse::CollectionTokens(resp) => assert!(resp.tokens.is_empty()),
        other => panic!("unexpected response: {:?}", other),
    }
    match query(&state, QueryMsg::Collections {}) {
        QueryResponse::Collections(resp) => assert_eq!(resp.collections.len(), 1),
        other => panic!("unexpected response: {:?}", other),
    }
}
