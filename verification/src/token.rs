use vstd::prelude::*;

use crate::error::ContractError;
use crate::msg::{Ack, Attribute, TokenInfo};

verus! {

/// One send of a batch: move the item `token_id` to `recipient`.
#[derive(Debug, Clone, PartialEq, Eq)]
pub struct SingleSend {
    pub token_id: String,
    pub recipient: String,
}

/// A request to send a batch of items, all-or-nothing.
#[derive(Debug, Clone, PartialEq, Eq)]
pub struct BatchSendMsg {
    pub sends: Vec<SingleSend>,
}

/// The token registry's command surface.
#[derive(Debug, Clone, PartialEq, Eq)]
pub enum TokenExecuteMsg {
    Mint { token_id: String, owner: String },
    BatchSend(BatchSendMsg),
}

/// The token registry's query surface.
#[derive(Debug, Clone, PartialEq, Eq)]
pub enum TokenQueryMsg {
    OwnerOf { token_id: String },
}

/// Answer to an ownership query: the current owner of the queried item.
#[derive(Debug, Clone, PartialEq, Eq)]
pub struct OwnerOfResponse {
    pub owner: String,
}

/// The durable state of one child asset-registry module: its name and
/// symbol, the one identity allowed to mint, and the ownership ledger in
/// mint order.
#[derive(Debug, Clone, PartialEq, Eq)]
pub struct TokenState {
    pub name: String,
    pub symbol: String,
    pub minter: String,
    pub tokens: Vec<TokenInfo>,
}

/// Whether some token in `s` carries the item identifier `id`.
pub open spec fn has_token(s: Seq<TokenInfo>, id: Seq<char>) -> bool {
    exists|i: int| 0 <= i < s.len() && #[trigger] s[i].token_id@ == id
}

/// Whether `s` holds an entry for the item `id` currently owned by `who`.
pub open spec fn owner_is(s: Seq<TokenInfo>, id: Seq<char>, who: Seq<char>) -> bool {
    exists|i: int| 0 <= i < s.len() && #[trigger] s[i].token_id@ == id && s[i].owner@ == who
}

impl TokenState {
    /// Well-formedness: the ledger holds at most one entry per item identifier.
    pub open spec fn wf(self) -> bool {
        forall|i: int, j: int|
            0 <= i < j < self.tokens@.len() ==> #[trigger] self.tokens@[i].token_id@
                != #[trigger] self.tokens@[j].token_id@
    }
}

/// Initialize a token registry with no tokens.  The host validates `minter`
/// before the call.
pub fn token_instantiate(name: String, symbol: String, minter: String) -> (st: TokenState)
    ensures
        st.name@ == name@,
        st.symbol@ == symbol@,
        st.minter@ == minter@,
        st.tokens@.len() == 0,
        st.wf(),
{
    TokenState { name, symbol, minter, tokens: Vec::new() }
}

/// Search the ledger for the entry carrying `id`.
pub fn find_token_index(s: &Vec<TokenInfo>, id: &String) -> (r: Option<usize>)
    ensures
        match r {
            Some(i) => i < s@.len() && s@[i as int].token_id@ == id@,
            None => !has_token(s@, id@),
        },
{
    let mut i: usize = 0;
    while i < s.len()
        invariant
            i <= s@.len(),
            forall|j: int| 0 <= j < i ==> #[trigger] s@[j].token_id@ != id@,
        decreases s@.len() - i,
    {
        if s[i].token_id == *id {
            return Some(i);
        }
        i = i + 1;
    }
    None
}

/// What a finished `Mint` call guarantees: only the minter succeeds, an
/// already-claimed identifier is refused, and a success appends exactly the
/// new entry to the ledger.
pub open spec fn mint_post(
    pre: TokenState,
    post: TokenState,
    sender: String,
    token_id: String,
    owner: String,
    r: Result<Ack, ContractError>,
) -> bool {
    &&& (sender@ != pre.minter@ ==> r == Err::<Ack, ContractError>(ContractError::Unauthorized {})
        && post == pre)
    &&& (sender@ == pre.minter@ && has_token(pre.tokens@, token_id@) ==> r == Err::<
        Ack,
        ContractError,
    >(ContractError::Claimed { token_id }) && post == pre)
    &&& (sender@ == pre.minter@ && !has_token(pre.tokens@, token_id@) ==> {
        &&& r is Ok
        &&& post.name == pre.name && post.symbol == pre.symbol && post.minter == pre.minter
        &&& post.tokens@ == pre.tokens@.push(TokenInfo { token_id, owner })
        &&& r->Ok_0.intents@.len() == 0
        &&& r->Ok_0.attributes@.len() == 3
        &&& r->Ok_0.attributes@[0].key@ == "action"@ && r->Ok_0.attributes@[0].value@ == "mint"@
        &&& r->Ok_0.attributes@[1].key@ == "token_id"@ && r->Ok_0.attributes@[1].value@
            == token_id@
        &&& r->Ok_0.attributes@[2].key@ == "owner"@ && r->Ok_0.attributes@[2].value@ == owner@
    })
}

/// Mint the item `token_id` to `owner`.  Only the minter may call this, and
/// an identifier already on the ledger is refused as claimed.
pub fn execute_mint(state: &mut TokenState, sender: String, token_id: String, owner: String) -> (r:
    Result<Ack, ContractError>)
    requires
        old(state).wf(),
    ensures
        mint_post(*old(state), *final(state), sender, token_id, owner, r),
        final(state).wf(),
{
    if !(sender == state.minter) {
        return Err(ContractError::Unauthorized {});
    }
    if find_token_index(&state.tokens, &token_id).is_some() {
        return Err(ContractError::Claimed { token_id });
    }

    let ghost pre_tokens = state.tokens@;
    state.tokens.push(TokenInfo { token_id: token_id.clone(), owner: owner.clone() });
    proof {
        assert forall|x: int, y: int|
            0 <= x < y < state.tokens@.len() implies state.tokens@[x].token_id@
            != state.tokens@[y].token_id@ by {
            if y == state.tokens@.len() - 1 {
                assert(!has_token(pre_tokens, state.tokens@[y].token_id@));
                assert(state.tokens@[x] == pre_tokens[x]);
            } else {
                assert(pre_tokens[x].token_id@ != pre_tokens[y].token_id@);
            }
        }
    }

    let mut attributes: Vec<Attribute> = Vec::new();
    attributes.push(Attribute { key: "action".to_owned(), value: "mint".to_owned() });
    attributes.push(Attribute { key: "token_id".to_owned(), value: token_id });
    attributes.push(Attribute { key: "owner".to_owned(), value: owner });
    Ok(Ack { attributes, intents: Vec::new() })
}

/// The error, if any, on which the validation pass of a batch send stops:
/// the first send whose item is unknown or not owned by the caller decides.
pub open spec fn send_validation(
    toks: Seq<TokenInfo>,
    sends: Seq<SingleSend>,
    sender: Seq<char>,
) -> Option<ContractError>
    decreases sends.len(),
{
    if sends.len() == 0 {
        None
    } else if !has_token(toks, sends[0].token_id@) {
        Some(ContractError::TokenNotFound { token_id: sends[0].token_id })
    } else if !owner_is(toks, sends[0].token_id@, sender) {
        Some(ContractError::Unauthorized {})
    } else {
        send_validation(toks, sends.drop_first(), sender)
    }
}

/// One send applied to the ledger: the entry carrying `id` now belongs to
/// `recipient`; every other entry is untouched.
pub open spec fn send_one(toks: Seq<TokenInfo>, id: Seq<char>, recipient: String) -> Seq<
    TokenInfo,
> {
    toks.map(
        |i: int, t: TokenInfo|
            if t.token_id@ == id {
                (TokenInfo { token_id: t.token_id, owner: recipient })
            } else {
                t
            },
    )
}

/// A whole batch applied to the ledger, in input order.
pub open spec fn apply_sends(toks: Seq<TokenInfo>, sends: Seq<SingleSend>) -> Seq<TokenInfo>
    decreases sends.len(),
{
    if sends.len() == 0 {
        toks
    } else {
        send_one(
            apply_sends(toks, sends.drop_last()),
            sends.last().token_id@,
            sends.last().recipient,
        )
    }
}

proof fn lemma_send_validation_skip(
    toks: Seq<TokenInfo>,
    sends: Seq<SingleSend>,
    sender: Seq<char>,
    i: int,
)
    requires
        0 <= i <= sends.len(),
        forall|j: int|
            0 <= j < i ==> has_token(toks, #[trigger] sends[j].token_id@) && owner_is(
                toks,
                sends[j].token_id@,
                sender,
            ),
    ensures
        send_validation(toks, sends, sender) == send_validation(toks, sends.skip(i), sender),
    decreases i,
{
    if i == 0 {
        assert(sends.skip(0) =~= sends);
    } else {
        lemma_send_validation_skip(toks, sends, sender, i - 1);
        assert(sends.skip(i - 1)[0] == sends[i - 1]);
        assert(has_token(toks, sends.skip(i - 1)[0].token_id@));
        assert(owner_is(toks, sends.skip(i - 1)[0].token_id@, sender));
        assert(sends.skip(i - 1).drop_first() =~= sends.skip(i));
    }
}

/// What a finished `BatchSend` call guarantees: it fails on exactly the
/// error the validation pass finds first, changing nothing; it succeeds
/// exactly when every sent item is owned by the caller, and then the ledger
/// is the input ledger with every send applied, in input order.
pub open spec fn batch_send_post(
    pre: TokenState,
    post: TokenState,
    sender: String,
    sends: Seq<SingleSend>,
    r: Result<Ack, ContractError>,
) -> bool {
    &&& (r is Err <==> send_validation(pre.tokens@, sends, sender@) is Some)
    &&& (r is Err ==> r == Err::<Ack, ContractError>(
        send_validation(pre.tokens@, sends, sender@)->0,
    ) && post == pre)
    &&& (r is Ok ==> {
        &&& post.name == pre.name && post.symbol == pre.symbol && post.minter == pre.minter
        &&& post.tokens@ == apply_sends(pre.tokens@, sends)
        &&& r->Ok_0.intents@.len() == 0
        &&& r->Ok_0.attributes@.len() == 2
        &&& r->Ok_0.attributes@[0].key@ == "action"@ && r->Ok_0.attributes@[0].value@
            == "batch_send"@
        &&& r->Ok_0.attributes@[1].key@ == "sender"@ && r->Ok_0.attributes@[1].value@ == sender@
    })
}

/// Send a batch of items, all or nothing: first every send is validated
/// against the ledger as it stood before the batch, then — only if every
/// item exists and is owned by the caller — the sends are applied in input
/// order.  No send is applied unless all of them may be.
pub fn execute_batch_send(state: &mut TokenState, sender: String, sends: &Vec<SingleSend>) -> (r:
    Result<Ack, ContractError>)
    requires
        old(state).wf(),
    ensures
        batch_send_post(*old(state), *final(state), sender, sends@, r),
        final(state).wf(),
{
    let mut k: usize = 0;
    while k < sends.len()
        invariant
            k <= sends@.len(),
            *state == *old(state),
            old(state).wf(),
            forall|j: int|
                0 <= j < k ==> has_token(state.tokens@, #[trigger] sends@[j].token_id@)
                    && owner_is(state.tokens@, sends@[j].token_id@, sender@),
        decreases sends@.len() - k,
    {
        let snd = &sends[k];
        match find_token_index(&state.tokens, &snd.token_id) {
            Some(i) => {
                if !(state.tokens[i].owner == sender) {
                    proof {
                        assert forall|j: int|
                            0 <= j < state.tokens@.len() && state.tokens@[j].token_id@
                                == sends@[k as int].token_id@ implies state.tokens@[j].owner@
                            != sender@ by {
                            if j < i as int {
                                assert(state.tokens@[j].token_id@
                                    != state.tokens@[i as int].token_id@);
                            } else if j > i as int {
                                assert(state.tokens@[i as int].token_id@
                                    != state.tokens@[j].token_id@);
                            }
                        }
                        lemma_send_validation_skip(state.tokens@, sends@, sender@, k as int);
                        assert(sends@.skip(k as int)[0] == sends@[k as int]);
                    }
                    return Err(ContractError::Unauthorized {});
                }
            },
            None => {
                proof {
                    lemma_send_validation_skip(state.tokens@, sends@, sender@, k as int);
                    assert(sends@.skip(k as int)[0] == sends@[k as int]);
                }
                return Err(ContractError::TokenNotFound { token_id: snd.token_id.clone() });
            },
        }
        k = k + 1;
    }
    proof {
        lemma_send_validation_skip(state.tokens@, sends@, sender@, sends@.len() as int);
        assert(sends@.skip(sends@.len() as int) =~= Seq::<SingleSend>::empty());
    }

    let ghost toks0 = state.tokens@;
    let mut k2: usize = 0;
    while k2 < sends.len()
        invariant
            k2 <= sends@.len(),
            state.name == old(state).name,
            state.symbol == old(state).symbol,
            state.minter == old(state).minter,
            state.tokens@.len() == toks0.len(),
            forall|j: int|
                0 <= j < toks0.len() ==> #[trigger] state.tokens@[j].token_id@
                    == toks0[j].token_id@,
            state.tokens@ == apply_sends(toks0, sends@.take(k2 as int)),
            forall|i: int, j: int|
                0 <= i < j < toks0.len() ==> #[trigger] toks0[i].token_id@
                    != #[trigger] toks0[j].token_id@,
            forall|j: int| 0 <= j < sends@.len() ==> has_token(toks0, #[trigger] sends@[j].token_id@),
        decreases sends@.len() - k2,
    {
        let snd = &sends[k2];
        let ghost prev = state.tokens@;
        let idx = match find_token_index(&state.tokens, &snd.token_id) {
            Some(i) => i,
            None => {
                proof {
                    assert(has_token(toks0, sends@[k2 as int].token_id@));
                    let w = choose|w: int|
                        0 <= w < toks0.len() && #[trigger] toks0[w].token_id@
                            == sends@[k2 as int].token_id@;
                    assert(state.tokens@[w].token_id@ == sends@[k2 as int].token_id@);
                    assert(false);
                }
                return Err(ContractError::TokenNotFound { token_id: snd.token_id.clone() });
            },
        };
        let entry = TokenInfo {
            token_id: state.tokens[idx].token_id.clone(),
            owner: snd.recipient.clone(),
        };
        state.tokens[idx] = entry;
        proof {
            let id = sends@[k2 as int].token_id@;
            let rcpt = sends@[k2 as int].recipient;
            assert forall|j: int|
                0 <= j < prev.len() implies state.tokens@[j] == send_one(prev, id, rcpt)[j] by {
                if j != idx as int {
                    if j < idx as int {
                        assert(toks0[j].token_id@ != toks0[idx as int].token_id@);
                    } else {
                        assert(toks0[idx as int].token_id@ != toks0[j].token_id@);
                    }
                    assert(prev[j].token_id@ != id);
                }
            }
            assert(state.tokens@ =~= send_one(prev, id, rcpt));
            assert(sends@.take(k2 + 1).drop_last() =~= sends@.take(k2 as int));
            assert(sends@.take(k2 + 1).last() == sends@[k2 as int]);
            assert(apply_sends(toks0, sends@.take(k2 + 1)) == send_one(
                apply_sends(toks0, sends@.take(k2 as int)),
                id,
                rcpt,
            ));
        }
        k2 = k2 + 1;
    }
    proof {
        assert(sends@.take(sends@.len() as int) =~= sends@);
        assert forall|i: int, j: int|
            0 <= i < j < state.tokens@.len() implies state.tokens@[i].token_id@
            != state.tokens@[j].token_id@ by {
            assert(toks0[i].token_id@ != toks0[j].token_id@);
        }
    }

    let mut attributes: Vec<Attribute> = Vec::new();
    attributes.push(Attribute { key: "action".to_owned(), value: "batch_send".to_owned() });
    attributes.push(Attribute { key: "sender".to_owned(), value: sender });
    Ok(Ack { attributes, intents: Vec::new() })
}

/// Read the current owner of the item `token_id`.
pub fn query_owner_of(state: &TokenState, token_id: &String) -> (r: Result<
    OwnerOfResponse,
    ContractError,
>)
    requires
        state.wf(),
    ensures
        r is Ok <==> has_token(state.tokens@, token_id@),
        r is Ok ==> owner_is(state.tokens@, token_id@, r->Ok_0.owner@),
        r is Err ==> r == Err::<OwnerOfResponse, ContractError>(
            ContractError::TokenNotFound { token_id: *token_id },
        ),
{
    match find_token_index(&state.tokens, token_id) {
        Some(i) => Ok(OwnerOfResponse { owner: state.tokens[i].owner.clone() }),
        None => Err(ContractError::TokenNotFound { token_id: token_id.clone() }),
    }
}

/// Route a token-registry command to its handler.
pub fn token_execute(state: &mut TokenState, sender: String, msg: TokenExecuteMsg) -> (r: Result<
    Ack,
    ContractError,
>)
    requires
        old(state).wf(),
    ensures
        msg matches TokenExecuteMsg::Mint { token_id, owner } ==> mint_post(
            *old(state),
            *final(state),
            sender,
            token_id,
            owner,
            r,
        ),
        msg matches TokenExecuteMsg::BatchSend(m) ==> batch_send_post(
            *old(state),
            *final(state),
            sender,
            m.sends@,
            r,
        ),
        final(state).wf(),
{
    match msg {
        TokenExecuteMsg::Mint { token_id, owner } => execute_mint(state, sender, token_id, owner),
        TokenExecuteMsg::BatchSend(m) => execute_batch_send(state, sender, &m.sends),
    }
}

/// Answer a token-registry query, read-only.
pub fn token_query(state: &TokenState, msg: &TokenQueryMsg) -> (r: Result<
    OwnerOfResponse,
    ContractError,
>)
    requires
        state.wf(),
    ensures
        msg matches TokenQueryMsg::OwnerOf { token_id } ==> {
            &&& r is Ok <==> has_token(state.tokens@, token_id@)
            &&& r is Ok ==> owner_is(state.tokens@, token_id@, r->Ok_0.owner@)
            &&& r is Err ==> r == Err::<OwnerOfResponse, ContractError>(
                ContractError::TokenNotFound { token_id: *token_id },
            )
        },
{
    match msg {
        TokenQueryMsg::OwnerOf { token_id } => query_owner_of(state, token_id),
    }
}

proof fn lemma_send_validation_finds(
    toks: Seq<TokenInfo>,
    sends: Seq<SingleSend>,
    sender: Seq<char>,
    k: int,
)
    requires
        0 <= k < sends.len(),
        !owner_is(toks, sends[k].token_id@, sender),
    ensures
        send_validation(toks, sends, sender) is Some,
    decreases k,
{
    if k > 0 {
        if has_token(toks, sends[0].token_id@) && owner_is(toks, sends[0].token_id@, sender) {
            lemma_send_validation_finds(toks, sends.drop_first(), sender, k - 1);
            assert(sends.drop_first()[k - 1] == sends[k]);
        }
    }
}

/// All-or-nothing batch send: if any single sent item is not currently
/// owned by the caller, the whole call fails and the ledger is exactly as
/// it was — no send of the batch is applied.
pub proof fn lemma_batch_send_all_or_nothing(
    pre: TokenState,
    post: TokenState,
    sender: String,
    sends: Seq<SingleSend>,
    r: Result<Ack, ContractError>,
    k: int,
)
    requires
        batch_send_post(pre, post, sender, sends, r),
        0 <= k < sends.len(),
        !owner_is(pre.tokens@, sends[k].token_id@, sender@),
    ensures
        r is Err,
        post == pre,
{
    lemma_send_validation_finds(pre.tokens@, sends, sender@, k);
}

} // verus!
