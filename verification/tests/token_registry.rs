use cw721_factory::error::ContractError;
use cw721_factory::token::{
    execute_batch_send, execute_mint, query_owner_of, token_execute, token_instantiate,
    token_query, BatchSendMsg, SingleSend, TokenExecuteMsg, TokenQueryMsg, TokenState,
};

fn minted(minter: &str, owner: &str, ids: &[&str]) -> TokenState {
    let mut st = token_instantiate("Art".to_string(), "ART".to_string(), minter.to_string());
    for id in ids {
        execute_mint(&mut st, minter.to_string(), id.to_string(), owner.to_string()).unwrap();
    }
    st
}

fn send(token_id: &str, recipient: &str) -> SingleSend {
    SingleSend { token_id: token_id.to_string(), recipient: recipient.to_string() }
}

#[test]
fn mint_records_owner() {
    let st = minted("minter", "owner", &["1"]);
    assert_eq!(query_owner_of(&st, &"1".to_string()).unwrap().owner, "owner");
}

#[test]
fn mint_as_other_caller_is_refused() {
    let mut st = minted("minter", "owner", &[]);
    let before = st.clone();
    let err = execute_mint(&mut st, "mallory".to_string(), "1".to_string(), "owner".to_string())
        .unwrap_err();
    assert_eq!(err, ContractError::Unauthorized {});
    assert_eq!(st, before);
}

#[test]
fn mint_of_claimed_item_is_refused() {
    let mut st = minted("minter", "owner", &["1"]);
    let before = st.clone();
    let err = execute_mint(&mut st, "minter".to_string(), "1".to_string(), "other".to_string())
        .unwrap_err();
    assert_eq!(err, ContractError::Claimed { token_id: "1".to_string() });
    assert_eq!(st, before);
}

#[test]
fn mint_then_batch_send_moves_ownership() {
    let mut st = minted("minter", "owner", &["1", "2", "3"]);
    let sends = vec![send("1", "recipient"), send("2", "recipient")];
    execute_batch_send(&mut st, "owner".to_string(), &sends).unwrap();
    assert_eq!(query_owner_of(&st, &"1".to_string()).unwrap().owner, "recipient");
    assert_eq!(query_owner_of(&st, &"2".to_string()).unwrap().owner, "recipient");
    assert_eq!(query_owner_of(&st, &"3".to_string()).unwrap().owner, "owner");

    let again = vec![send("1", "recipient")];
    let err = execute_batch_send(&mut st, "owner".to_string(), &again).unwrap_err();
    assert_eq!(err, ContractError::Unauthorized {});
}

#[test]
fn batch_send_with_one_foreign_item_moves_nothing() {
    let mut st = minted("minter", "owner", &["1"]);
    execute_mint(&mut st, "minter".to_string(), "2".to_string(), "other".to_string()).unwrap();
    let before = st.clone();
    let sends = vec![send("1", "recipient"), send("2", "recipient")];
    let err = execute_batch_send(&mut st, "owner".to_string(), &sends).unwrap_err();
    assert_eq!(err, ContractError::Unauthorized {});
    assert_eq!(st, before);
}

#[test]
fn batch_send_of_unknown_item_is_refused() {
    let mut st = minted("minter", "owner", &["1"]);
    let before = st.clone();
    let sends = vec![send("1", "recipient"), send("9", "recipient")];
    let err = execute_batch_send(&mut st, "owner".to_string(), &sends).unwrap_err();
    assert_eq!(err, ContractError::TokenNotFound { token_id: "9".to_string() });
    assert_eq!(st, before);
}

#[test]
fn empty_batch_send_succeeds() {
    let mut st = minted("minter", "owner", &["1"]);
    let before = st.clone();
    execute_batch_send(&mut st, "owner".to_string(), &vec![]).unwrap();
    assert_eq!(st, before);
}

#[test]
fn duplicate_item_in_one_batch_is_validated_against_the_ledger_before_the_batch() {
    let mut st = minted("minter", "owner", &["1"]);
    let sends = vec![send("1", "bob"), send("1", "carol")];
    execute_batch_send(&mut st, "owner".to_string(), &sends).unwrap();
    assert_eq!(query_owner_of(&st, &"1".to_string()).unwrap().owner, "carol");
}

#[test]
fn token_execute_routes_each_command() {
    let mut st = minted("minter", "owner", &[]);
    token_execute(
        &mut st,
        "minter".to_string(),
        TokenExecuteMsg::Mint { token_id: "1".to_string(), owner: "owner".to_string() },
    )
    .unwrap();
    token_execute(
        &mut st,
        "owner".to_string(),
        TokenExecuteMsg::BatchSend(BatchSendMsg { sends: vec![send("1", "bob")] }),
    )
    .unwrap();
    let resp = token_query(&st, &TokenQueryMsg::OwnerOf { token_id: "1".to_string() }).unwrap();
    assert_eq!(resp.owner, "bob");
}

#[test]
fn owner_of_unknown_item_is_refused() {
    let st = minted("minter", "owner", &["1"]);
    let err = query_owner_of(&st, &"9".to_string()).unwrap_err();
    assert_eq!(err, ContractError::TokenNotFound { token_id: "9".to_string() });
}
