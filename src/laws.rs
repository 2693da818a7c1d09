use vstd::prelude::*;
use crate::contract::{
    balance_of, finalize_outcome, handles_reply, instantiate_outcome, mint_outcome,
    query_outcome, reply_outcome, swap_outcome, update_config_outcome, withdraw_outcome,
};
use crate::error::ContractError;
use crate::msg::{Reply, ReplyOn, Response, SubMsgResult};
use crate::state::{all_distinct, namespace_seq, Config, Identity, ProposalStatus, Store};

verus! {

/// A caller other than the admin can neither update the configuration nor
/// mint: both are refused as unauthorized and the store keeps its state.
pub proof fn non_admin_is_refused(
    pre: Store,
    post: Store,
    sender: Seq<char>,
    validated_admin: Option<Identity>,
    amount: u128,
    r: Result<Response, ContractError>,
)
    requires
        pre.config_view() is Some,
        sender != pre.config_view()->Some_0.0,
    ensures
        update_config_outcome(pre, post, sender, validated_admin, r) ==> r is Err && r->Err_0
            == ContractError::Unauthorized && post.same_view(&pre),
        mint_outcome(pre, post, sender, amount, r) ==> r is Err && r->Err_0
            == ContractError::Unauthorized && post.same_view(&pre),
{
}

/// When the admin mints an amount that would take the supply past the range
/// of `u128`, the mint fails with an overflow and the supply is unchanged.
pub proof fn overflowing_mint_keeps_supply(
    pre: Store,
    post: Store,
    amount: u128,
    r: Result<Response, ContractError>,
)
    requires
        pre.config_view() is Some,
        pre.config_view()->Some_0.1 + amount > u128::MAX,
        mint_outcome(pre, post, pre.config_view()->Some_0.0, amount, r),
    ensures
        r is Err,
        r->Err_0 == ContractError::ArithmeticOverflow,
        post.config_view() == pre.config_view(),
{
}

/// Withdrawing more than an account holds fails with insufficient funds and
/// leaves its balance exactly as it was.
pub proof fn overdraft_keeps_balance(
    pre: Store,
    post: Store,
    account: Seq<char>,
    amount: u128,
    r: Result<Response, ContractError>,
)
    requires
        amount > balance_of(pre, account),
        withdraw_outcome(pre, post, account, amount, r),
    ensures
        r is Err,
        r->Err_0 == ContractError::InsufficientFunds,
        balance_of(post, account) == balance_of(pre, account),
{
}

/// Finalizing a stored proposal succeeds exactly when it has passed, and then
/// rejects it; otherwise it fails with an invalid state and the status stays.
pub proof fn finalize_only_from_passed(
    pre: Store,
    post: Store,
    id: u64,
    r: Result<Response, ContractError>,
)
    requires
        pre.proposals_view().contains_key(id),
        finalize_outcome(pre, post, id, r),
    ensures
        r is Ok <==> pre.proposals_view()[id] == ProposalStatus::Passed,
        r is Ok ==> post.proposals_view()[id] == ProposalStatus::Rejected,
        r is Err ==> r->Err_0 == ContractError::InvalidState && post.proposals_view()[id]
            == pre.proposals_view()[id],
{
}

/// Querying right after instantiation answers the instantiator as admin and
/// a zero supply.
pub proof fn instantiate_then_query(
    pre: Store,
    post: Store,
    sender: Seq<char>,
    r_init: Result<Response, ContractError>,
    r_query: Result<Config, ContractError>,
)
    requires
        instantiate_outcome(pre, post, sender, r_init),
        query_outcome(post, r_query),
    ensures
        r_query is Ok,
        r_query->Ok_0.admin@ == sender,
        r_query->Ok_0.total_supply == 0,
{
}

/// Every sub-operation of a swap that asks for a reply carries an id that
/// `reply` handles: its success is accepted and its failure surfaces as an
/// error that carries the failure.
pub proof fn swap_replies_are_handled(
    r: Result<Response, ContractError>,
    i: int,
    result: SubMsgResult,
    r_reply: Result<Response, ContractError>,
)
    requires
        swap_outcome(r),
        0 <= i < r->Ok_0.messages@.len(),
        r->Ok_0.messages@[i].reply_on != ReplyOn::Never,
        reply_outcome(Reply { id: r->Ok_0.messages@[i].id, result }, r_reply),
    ensures
        handles_reply(r->Ok_0.messages@[i].id),
        result is Succeeded ==> r_reply is Ok && r_reply->Ok_0.messages@.len() == 0,
        result is Failed ==> r_reply is Err && r_reply->Err_0 == (ContractError::SubMsgFailed {
            error: result->Failed_0,
        }),
{
}

/// No two storage entities share a namespace.
pub proof fn storage_namespaces_are_distinct()
    ensures
        all_distinct(namespace_seq()),
{
    reveal_strlit("config");
    reveal_strlit("bal");
    reveal_strlit("proposal");
    reveal_strlit("backup");
    let n = namespace_seq();
    assert(n[0].len() == 6 && n[1].len() == 3 && n[2].len() == 8 && n[3].len() == 6);
    assert(n[0][0] != n[3][0]);
}

} // verus!
