use vstd::prelude::*;
use crate::state::Identity;

verus! {

/// Payload of `instantiate`.
#[derive(Debug, Clone, PartialEq, Eq)]
pub struct InstantiateMsg {
    pub admin: String,
}

/// Requests accepted by `execute`. The recipient of `Mint` is not credited.
#[derive(Debug, Clone, PartialEq, Eq)]
pub enum ExecuteMsg {
    UpdateConfig { new_admin: String },
    Mint { amount: u128, recipient: String },
    Withdraw { amount: u128 },
    FinalizeProposal { proposal_id: u64 },
}

/// Requests accepted by `query`.
#[derive(Debug, Clone, PartialEq, Eq)]
pub enum QueryMsg {
    Config {},
}

/// Payload of `migrate`.
#[derive(Debug, Clone, PartialEq, Eq)]
pub struct MigrateMsg {}

/// Who invoked an entry point, as authenticated by the host.
#[derive(Debug, Clone, PartialEq, Eq)]
pub struct MessageInfo {
    pub sender: Identity,
}

/// When the host reports a sub-operation's outcome back to `reply`.
#[derive(Debug, Clone, Copy, PartialEq, Eq, Structural)]
pub enum ReplyOn {
    Never,
    Success,
    Error,
    Always,
}

/// A downstream message for the host to dispatch.
#[derive(Debug, Clone, PartialEq, Eq)]
pub enum CosmosMsg {
    /// Runs `msg` on the contract at `contract_addr`.
    WasmExecute { contract_addr: String, msg: Vec<u8> },
    /// Transfers `amount` of `denom` to `to_address`.
    BankSend { to_address: String, denom: String, amount: u128 },
}

/// A dispatched message, with the reply id that correlates its outcome.
#[derive(Debug, Clone, PartialEq, Eq)]
pub struct SubMsg {
    pub id: u64,
    pub msg: CosmosMsg,
    pub reply_on: ReplyOn,
}

/// What an entry point hands back to the host on success.
#[derive(Debug, Clone, PartialEq, Eq)]
pub struct Response {
    pub messages: Vec<SubMsg>,
}

impl Response {
    /// A response that dispatches nothing.
    pub fn new() -> (r: Response)
        ensures
            r.messages@.len() == 0,
    {
        Response { messages: Vec::new() }
    }

    /// Appends a message whose outcome is not reported back.
    pub fn add_message(self, msg: CosmosMsg) -> (r: Response)
        ensures
            r.messages@ == self.messages@.push(SubMsg { id: 0, msg, reply_on: ReplyOn::Never }),
    {
        let mut messages = self.messages;
        messages.push(SubMsg { id: 0, msg, reply_on: ReplyOn::Never });
        Response { messages }
    }

    /// Appends a sub-operation.
    pub fn add_submessage(self, msg: SubMsg) -> (r: Response)
        ensures
            r.messages@ == self.messages@.push(msg),
    {
        let mut messages = self.messages;
        messages.push(msg);
        Response { messages }
    }
}

/// Outcome of a sub-operation.
#[derive(Debug, Clone, PartialEq, Eq)]
pub enum SubMsgResult {
    Succeeded(Vec<u8>),
    Failed(String),
}

/// Payload of `reply`: the outcome of the sub-operation tagged `id`.
#[derive(Debug, Clone, PartialEq, Eq)]
pub struct Reply {
    pub id: u64,
    pub result: SubMsgResult,
}

} // verus!
