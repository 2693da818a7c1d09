use vstd::prelude::*;
use crate::error::ContractError;
use crate::msg::{CosmosMsg, ReplyOn, Response};
use crate::state::Store;

verus! {

/// Account that the timeout refund goes to.
pub const REFUND_ADDRESS: &'static str = "sender";

/// Denomination of the timeout refund.
pub const REFUND_DENOM: &'static str = "uatom";

/// Amount of the timeout refund.
pub const REFUND_AMOUNT: u128 = 100;

/// Whether `m` is the refund that a timed-out packet triggers.
pub open spec fn is_refund(m: CosmosMsg) -> bool {
    match m {
        CosmosMsg::BankSend { to_address, denom, amount } => {
            &&& to_address@ == REFUND_ADDRESS@
            &&& denom@ == REFUND_DENOM@
            &&& amount == REFUND_AMOUNT
        },
        _ => false,
    }
}

/// Handles the timeout of a packet that this contract sent. The host delivers
/// this only once the timeout is established; the handler then checks that
/// the configuration exists, removes it, and only after that queues the
/// refund.
pub fn ibc_packet_timeout(store: &mut Store) -> (r: Result<Response, ContractError>)
    requires
        old(store).wf(),
    ensures
        final(store).wf(),
        old(store).config_view() is None ==> r is Err && r->Err_0 == ContractError::NotFound
            && final(store).same_view(&*old(store)),
        old(store).config_view() is Some ==> {
            &&& r is Ok
            &&& r->Ok_0.messages@.len() == 1
            &&& r->Ok_0.messages@[0].id == 0
            &&& r->Ok_0.messages@[0].reply_on == ReplyOn::Never
            &&& is_refund(r->Ok_0.messages@[0].msg)
            &&& final(store).config_view() is None
            &&& final(store).balances_view() == old(store).balances_view()
            &&& final(store).proposals_view() == old(store).proposals_view()
            &&& final(store).backup_view() == old(store).backup_view()
        },
{
    store.load_config()?;
    store.remove_config();
    let refund = CosmosMsg::BankSend {
        to_address: String::from_str(REFUND_ADDRESS),
        denom: String::from_str(REFUND_DENOM),
        amount: REFUND_AMOUNT,
    };
    Ok(Response::new().add_message(refund))
}

} // verus!
