use vstd::prelude::*;
use crate::error::ContractError;
use crate::msg::{
    CosmosMsg, ExecuteMsg, InstantiateMsg, MessageInfo, MigrateMsg, QueryMsg, Reply, ReplyOn,
    Response, SubMsg, SubMsgResult,
};
use crate::state::{Config, Identity, Proposal, ProposalStatus, Store};

verus! {

/// Reply id of the swap sub-operation.
pub const SWAP_REPLY_ID: u64 = 1;

/// Address of the contract that performs swaps.
pub const SWAP_CONTRACT: &'static str = "swap_contract";

/// Whether `reply` has a branch for sub-operations tagged `id`.
pub open spec fn handles_reply(id: u64) -> bool {
    id == SWAP_REPLY_ID
}

/// The configuration that instantiation by `sender` creates.
pub open spec fn initial_config(sender: Seq<char>) -> (Seq<char>, u128) {
    (sender, 0)
}

/// The authorization guard: succeeds exactly when `actual` is `expected`.
pub fn require_caller(actual: &Identity, expected: &Identity) -> (r: Result<(), ContractError>)
    ensures
        r is Ok <==> actual@ == expected@,
        r is Err ==> r->Err_0 == ContractError::Unauthorized,
{
    if actual.same(expected) {
        Ok(())
    } else {
        Err(ContractError::Unauthorized)
    }
}

/// Creates the configuration with the caller as admin and no supply.
pub fn instantiate(store: &mut Store, info: &MessageInfo, _msg: InstantiateMsg) -> (r: Result<
    Response,
    ContractError,
>)
    requires
        old(store).wf(),
    ensures
        final(store).wf(),
        instantiate_outcome(*old(store), *final(store), info.sender@, r),
{
    let config = Config { admin: info.sender.copied(), total_supply: 0 };
    store.save_config(config);
    Ok(Response::new())
}

/// What `instantiate` does.
pub open spec fn instantiate_outcome(
    pre: Store,
    post: Store,
    sender: Seq<char>,
    r: Result<Response, ContractError>,
) -> bool {
    &&& r is Ok
    &&& r->Ok_0.messages@.len() == 0
    &&& post.config_view() == Some(initial_config(sender))
    &&& post.balances_view() == pre.balances_view()
    &&& post.proposals_view() == pre.proposals_view()
    &&& post.backup_view() == pre.backup_view()
}

/// What `query` answers.
pub open spec fn query_outcome(store: Store, r: Result<Config, ContractError>) -> bool {
    match store.config_view() {
        Some(c) => r is Ok && r->Ok_0@ == c,
        None => r is Err && r->Err_0 == ContractError::NotFound,
    }
}

/// Reads the configuration.
pub fn query(store: &Store, msg: QueryMsg) -> (r: Result<Config, ContractError>)
    ensures
        query_outcome(*store, r),
{
    match msg {
        QueryMsg::Config {  } => store.load_config(),
    }
}

/// Replaces the admin. Only the current admin may do so, and only with an
/// address that the host validated (`validated_admin` is the host's verdict
/// on `new_admin`: `None` where it rejected it).
fn execute_update_config(
    store: &mut Store,
    info: &MessageInfo,
    validated_admin: Option<Identity>,
) -> (r: Result<Response, ContractError>)
    requires
        old(store).wf(),
    ensures
        final(store).wf(),
        update_config_outcome(*old(store), *final(store), info.sender@, validated_admin, r),
{
    let config = store.load_config()?;
    require_caller(&info.sender, &config.admin)?;
    let new_admin = match validated_admin {
        Some(a) => a,
        None => {
            return Err(ContractError::InvalidAddress);
        },
    };
    store.save_config(Config { admin: new_admin, total_supply: config.total_supply });
    Ok(Response::new())
}

/// What `UpdateConfig` does.
pub open spec fn update_config_outcome(
    pre: Store,
    post: Store,
    sender: Seq<char>,
    validated_admin: Option<Identity>,
    r: Result<Response, ContractError>,
) -> bool {
    match pre.config_view() {
        None => r is Err && r->Err_0 == ContractError::NotFound && post.same_view(&pre),
        Some(c) => if sender != c.0 {
            r is Err && r->Err_0 == ContractError::Unauthorized && post.same_view(&pre)
        } else if validated_admin is None {
            r is Err && r->Err_0 == ContractError::InvalidAddress && post.same_view(&pre)
        } else {
            &&& r is Ok
            &&& r->Ok_0.messages@.len() == 0
            &&& post.config_view() == Some((validated_admin->Some_0@, c.1))
            &&& post.balances_view() == pre.balances_view()
            &&& post.proposals_view() == pre.proposals_view()
            &&& post.backup_view() == pre.backup_view()
        },
    }
}

/// Adds `amount` to the total supply. Only the admin may mint; the supply
/// never wraps. Minting changes the supply only: no balance is credited.
fn execute_mint(store: &mut Store, info: &MessageInfo, amount: u128, _recipient: String) -> (r:
    Result<Response, ContractError>)
    requires
        old(store).wf(),
    ensures
        final(store).wf(),
        mint_outcome(*old(store), *final(store), info.sender@, amount, r),
{
    let config = store.load_config()?;
    require_caller(&info.sender, &config.admin)?;
    let total_supply = match config.total_supply.checked_add(amount) {
        Some(t) => t,
        None => {
            return Err(ContractError::ArithmeticOverflow);
        },
    };
    store.save_config(Config { admin: config.admin, total_supply });
    Ok(Response::new())
}

/// What `Mint` does.
pub open spec fn mint_outcome(
    pre: Store,
    post: Store,
    sender: Seq<char>,
    amount: u128,
    r: Result<Response, ContractError>,
) -> bool {
    match pre.config_view() {
        None => r is Err && r->Err_0 == ContractError::NotFound && post.same_view(&pre),
        Some(c) => if sender != c.0 {
            r is Err && r->Err_0 == ContractError::Unauthorized && post.same_view(&pre)
        } else if c.1 + amount > u128::MAX {
            r is Err && r->Err_0 == ContractError::ArithmeticOverflow && post.same_view(&pre)
        } else {
            &&& r is Ok
            &&& r->Ok_0.messages@.len() == 0
            &&& post.config_view() == Some((c.0, (c.1 + amount) as u128))
            &&& post.balances_view() == pre.balances_view()
            &&& post.proposals_view() == pre.proposals_view()
            &&& post.backup_view() == pre.backup_view()
        },
    }
}

/// The stored balance of `who`, zero where none is stored.
pub open spec fn balance_of(store: Store, who: Seq<char>) -> u128 {
    if store.balances_view().contains_key(who) {
        store.balances_view()[who]
    } else {
        0
    }
}

/// Takes `amount` from the caller's own balance; fails closed when it does
/// not hold that much.
fn execute_withdraw(store: &mut Store, info: &MessageInfo, amount: u128) -> (r: Result<
    Response,
    ContractError,
>)
    requires
        old(store).wf(),
    ensures
        final(store).wf(),
        withdraw_outcome(*old(store), *final(store), info.sender@, amount, r),
{
    let balance = match store.load_balance(&info.sender) {
        Some(b) => b,
        None => 0,
    };
    if amount > balance {
        return Err(ContractError::InsufficientFunds);
    }
    store.save_balance(&info.sender, balance - amount);
    Ok(Response::new())
}

/// What `Withdraw` does.
pub open spec fn withdraw_outcome(
    pre: Store,
    post: Store,
    sender: Seq<char>,
    amount: u128,
    r: Result<Response, ContractError>,
) -> bool {
    let b = balance_of(pre, sender);
    if amount > b {
        r is Err && r->Err_0 == ContractError::InsufficientFunds && post.same_view(&pre)
    } else {
        &&& r is Ok
        &&& r->Ok_0.messages@.len() == 0
        &&& post.balances_view() == pre.balances_view().insert(sender, (b - amount) as u128)
        &&& post.config_view() == pre.config_view()
        &&& post.proposals_view() == pre.proposals_view()
        &&& post.backup_view() == pre.backup_view()
    }
}

/// Moves a passed proposal to rejected; any other status is refused.
fn execute_finalize_proposal(store: &mut Store, _info: &MessageInfo, proposal_id: u64) -> (r:
    Result<Response, ContractError>)
    requires
        old(store).wf(),
    ensures
        final(store).wf(),
        finalize_outcome(*old(store), *final(store), proposal_id, r),
{
    let mut proposal = store.load_proposal(proposal_id)?;
    if proposal.status != ProposalStatus::Passed {
        return Err(ContractError::InvalidState);
    }
    proposal.status = ProposalStatus::Rejected;
    store.save_proposal(proposal_id, proposal);
    Ok(Response::new())
}

/// What `FinalizeProposal` does.
pub open spec fn finalize_outcome(
    pre: Store,
    post: Store,
    id: u64,
    r: Result<Response, ContractError>,
) -> bool {
    if !pre.proposals_view().contains_key(id) {
        r is Err && r->Err_0 == ContractError::NotFound && post.same_view(&pre)
    } else if pre.proposals_view()[id] != ProposalStatus::Passed {
        r is Err && r->Err_0 == ContractError::InvalidState && post.same_view(&pre)
    } else {
        &&& r is Ok
        &&& r->Ok_0.messages@.len() == 0
        &&& post.proposals_view() == pre.proposals_view().insert(id, ProposalStatus::Rejected)
        &&& post.config_view() == pre.config_view()
        &&& post.balances_view() == pre.balances_view()
        &&& post.backup_view() == pre.backup_view()
    }
}

/// Handles a request. `Mint` changes the total supply only: its recipient is
/// carried but no balance is credited. `validated_admin` is the host's verdict on the address
/// that an `UpdateConfig` carries (`None` where the host rejected it); the
/// other requests ignore it.
pub fn execute(
    store: &mut Store,
    info: &MessageInfo,
    msg: ExecuteMsg,
    validated_admin: Option<Identity>,
) -> (r: Result<Response, ContractError>)
    requires
        old(store).wf(),
    ensures
        final(store).wf(),
        match msg {
            ExecuteMsg::UpdateConfig { .. } => update_config_outcome(
                *old(store),
                *final(store),
                info.sender@,
                validated_admin,
                r,
            ),
            ExecuteMsg::Mint { amount, .. } => mint_outcome(
                *old(store),
                *final(store),
                info.sender@,
                amount,
                r,
            ),
            ExecuteMsg::Withdraw { amount } => withdraw_outcome(
                *old(store),
                *final(store),
                info.sender@,
                amount,
                r,
            ),
            ExecuteMsg::FinalizeProposal { proposal_id } => finalize_outcome(
                *old(store),
                *final(store),
                proposal_id,
                r,
            ),
        },
{
    match msg {
        ExecuteMsg::UpdateConfig { .. } => execute_update_config(store, info, validated_admin),
        ExecuteMsg::Mint { amount, recipient } => execute_mint(store, info, amount, recipient),
        ExecuteMsg::Withdraw { amount } => execute_withdraw(store, info, amount),
        ExecuteMsg::FinalizeProposal { proposal_id } => execute_finalize_proposal(
            store,
            info,
            proposal_id,
        ),
    }
}

/// Checks that `caller` is the admin recorded in the configuration.
fn ensure_admin(store: &Store, caller: &Identity) -> (r: Result<(), ContractError>)
    ensures
        match store.config_view() {
            None => r is Err && r->Err_0 == ContractError::NotFound,
            Some(c) => if caller@ == c.0 {
                r is Ok
            } else {
                r is Err && r->Err_0 == ContractError::Unauthorized
            },
        },
{
    let config = store.load_config()?;
    require_caller(caller, &config.admin)
}

/// Upgrades the contract; only the admin may migrate it. The state needs no
/// conversion, so a successful migration leaves the store as it was.
pub fn migrate(store: &mut Store, info: &MessageInfo, _msg: MigrateMsg) -> (r: Result<
    Response,
    ContractError,
>)
    requires
        old(store).wf(),
    ensures
        final(store).wf(),
        final(store).same_view(&*old(store)),
        match old(store).config_view() {
            None => r is Err && r->Err_0 == ContractError::NotFound,
            Some(c) => if info.sender@ == c.0 {
                r is Ok && r->Ok_0.messages@.len() == 0
            } else {
                r is Err && r->Err_0 == ContractError::Unauthorized
            },
        },
{
    ensure_admin(store, &info.sender)?;
    Ok(Response::new())
}

/// What `reply` answers.
pub open spec fn reply_outcome(msg: Reply, r: Result<Response, ContractError>) -> bool {
    if !handles_reply(msg.id) {
        r is Err && r->Err_0 == (ContractError::UnknownReply { id: msg.id })
    } else {
        match msg.result {
            SubMsgResult::Succeeded(_) => r is Ok && r->Ok_0.messages@.len() == 0,
            SubMsgResult::Failed(e) => r is Err && r->Err_0 == (ContractError::SubMsgFailed {
                error: e,
            }),
        }
    }
}

/// Receives the outcome of a sub-operation. Ids that no dispatch site
/// produces are refused; a failure is surfaced as an error so that the host
/// rolls back the whole invocation.
pub fn reply(msg: Reply) -> (r: Result<Response, ContractError>)
    ensures
        reply_outcome(msg, r),
{
    if msg.id != SWAP_REPLY_ID {
        return Err(ContractError::UnknownReply { id: msg.id });
    }
    match msg.result {
        SubMsgResult::Succeeded(_) => Ok(Response::new()),
        SubMsgResult::Failed(error) => Err(ContractError::SubMsgFailed { error }),
    }
}

/// Whether `m` is the swap call: an execution of `{}` on the swap contract
/// whose success is reported back under the swap reply id.
pub open spec fn is_swap_submsg(m: SubMsg) -> bool {
    &&& m.id == SWAP_REPLY_ID
    &&& m.reply_on == ReplyOn::Success
    &&& match m.msg {
        CosmosMsg::WasmExecute { contract_addr, msg } => contract_addr@ == SWAP_CONTRACT@ && msg@
            == seq![123u8, 125u8],
        _ => false,
    }
}

/// What `execute_swap` hands back: a response holding the swap call alone.
pub open spec fn swap_outcome(r: Result<Response, ContractError>) -> bool {
    &&& r is Ok
    &&& r->Ok_0.messages@.len() == 1
    &&& is_swap_submsg(r->Ok_0.messages@[0])
}

/// Dispatches a swap whose success is reported back to `reply`.
pub fn execute_swap() -> (r: Result<Response, ContractError>)
    ensures
        swap_outcome(r),
{
    let swap_msg = CosmosMsg::WasmExecute {
        contract_addr: String::from_str(SWAP_CONTRACT),
        msg: vec![123u8, 125u8],
    };
    let msg = SubMsg { id: SWAP_REPLY_ID, msg: swap_msg, reply_on: ReplyOn::Success };
    Ok(Response::new().add_submessage(msg))
}

} // verus!
