use guarded_contract::contract::{
    execute, execute_swap, instantiate, migrate, query, reply, require_caller, SWAP_REPLY_ID,
};
use guarded_contract::error::ContractError;
use guarded_contract::ibc::ibc_packet_timeout;
use guarded_contract::msg::{
    CosmosMsg, ExecuteMsg, InstantiateMsg, MessageInfo, MigrateMsg, QueryMsg, Reply, ReplyOn,
    SubMsgResult,
};
use guarded_contract::state::{
    check_namespaces, storage_namespaces, Identity, Proposal, ProposalStatus, Store,
};

fn id(s: &str) -> Identity {
    Identity::from_validated(s.to_string())
}

fn info(s: &str) -> MessageInfo {
    MessageInfo { sender: id(s) }
}

fn instantiated(admin: &str) -> Store {
    let mut store = Store::new();
    instantiate(&mut store, &info(admin), InstantiateMsg { admin: admin.to_string() }).unwrap();
    store
}

fn mint(amount: u128) -> ExecuteMsg {
    ExecuteMsg::Mint { amount, recipient: "bob".to_string() }
}

fn supply(store: &Store) -> u128 {
    query(store, QueryMsg::Config {}).unwrap().total_supply
}

#[test]
fn alice_mints_and_bob_is_refused() {
    let mut store = instantiated("alice");
    let config = query(&store, QueryMsg::Config {}).unwrap();
    assert_eq!(config.admin.as_str(), "alice");
    assert_eq!(config.total_supply, 0);

    let r = execute(&mut store, &info("alice"), mint(100), None);
    assert!(r.is_ok());
    assert_eq!(supply(&store), 100);

    let r = execute(&mut store, &info("bob"), mint(100), None);
    assert_eq!(r.unwrap_err(), ContractError::Unauthorized);
    assert_eq!(supply(&store), 100);
}

#[test]
fn non_admin_cannot_update_config() {
    let mut store = instantiated("alice");
    execute(&mut store, &info("alice"), mint(7), None).unwrap();
    let before = query(&store, QueryMsg::Config {}).unwrap();
    let msg = ExecuteMsg::UpdateConfig { new_admin: "mallory".to_string() };
    let r = execute(&mut store, &info("mallory"), msg, Some(id("mallory")));
    assert_eq!(r.unwrap_err(), ContractError::Unauthorized);
    assert_eq!(query(&store, QueryMsg::Config {}).unwrap(), before);
}

#[test]
fn admin_updates_config_and_keeps_supply() {
    let mut store = instantiated("alice");
    execute(&mut store, &info("alice"), mint(42), None).unwrap();
    let msg = ExecuteMsg::UpdateConfig { new_admin: "carol".to_string() };
    execute(&mut store, &info("alice"), msg, Some(id("carol"))).unwrap();
    let config = query(&store, QueryMsg::Config {}).unwrap();
    assert_eq!(config.admin.as_str(), "carol");
    assert_eq!(config.total_supply, 42);
    // the old admin has lost its rights
    let r = execute(&mut store, &info("alice"), mint(1), None);
    assert_eq!(r.unwrap_err(), ContractError::Unauthorized);
}

#[test]
fn update_config_with_rejected_address_fails() {
    let mut store = instantiated("alice");
    let msg = ExecuteMsg::UpdateConfig { new_admin: "NOT AN ADDRESS".to_string() };
    let r = execute(&mut store, &info("alice"), msg, None);
    assert_eq!(r.unwrap_err(), ContractError::InvalidAddress);
    assert_eq!(query(&store, QueryMsg::Config {}).unwrap().admin.as_str(), "alice");
}

#[test]
fn overflowing_mint_keeps_supply() {
    let mut store = instantiated("alice");
    execute(&mut store, &info("alice"), mint(u128::MAX - 5), None).unwrap();
    let r = execute(&mut store, &info("alice"), mint(6), None);
    assert_eq!(r.unwrap_err(), ContractError::ArithmeticOverflow);
    assert_eq!(supply(&store), u128::MAX - 5);
    execute(&mut store, &info("alice"), mint(5), None).unwrap();
    assert_eq!(supply(&store), u128::MAX);
}

#[test]
fn mint_credits_no_balance() {
    let mut store = instantiated("alice");
    execute(&mut store, &info("alice"), mint(100), None).unwrap();
    assert_eq!(store.load_balance(&id("bob")), None);
}

#[test]
fn execute_before_instantiate_is_not_found() {
    let mut store = Store::new();
    let r = execute(&mut store, &info("alice"), mint(1), None);
    assert_eq!(r.unwrap_err(), ContractError::NotFound);
    assert_eq!(query(&store, QueryMsg::Config {}).unwrap_err(), ContractError::NotFound);
}

#[test]
fn overdraft_keeps_balance() {
    let mut store = instantiated("alice");
    store.save_balance(&id("dave"), 50);
    let r = execute(&mut store, &info("dave"), ExecuteMsg::Withdraw { amount: 51 }, None);
    assert_eq!(r.unwrap_err(), ContractError::InsufficientFunds);
    assert_eq!(store.load_balance(&id("dave")), Some(50));
}

#[test]
fn withdraw_takes_from_own_balance() {
    let mut store = instantiated("alice");
    store.save_balance(&id("dave"), 50);
    store.save_balance(&id("erin"), 9);
    execute(&mut store, &info("dave"), ExecuteMsg::Withdraw { amount: 20 }, None).unwrap();
    assert_eq!(store.load_balance(&id("dave")), Some(30));
    assert_eq!(store.load_balance(&id("erin")), Some(9));
    execute(&mut store, &info("dave"), ExecuteMsg::Withdraw { amount: 30 }, None).unwrap();
    assert_eq!(store.load_balance(&id("dave")), Some(0));
}

#[test]
fn withdraw_without_balance() {
    let mut store = instantiated("alice");
    let r = execute(&mut store, &info("frank"), ExecuteMsg::Withdraw { amount: 1 }, None);
    assert_eq!(r.unwrap_err(), ContractError::InsufficientFunds);
    assert_eq!(store.load_balance(&id("frank")), None);
    execute(&mut store, &info("frank"), ExecuteMsg::Withdraw { amount: 0 }, None).unwrap();
    assert_eq!(store.load_balance(&id("frank")), Some(0));
}

#[test]
fn finalize_only_from_passed() {
    let mut store = instantiated("alice");
    store.save_proposal(1, Proposal { status: ProposalStatus::Pending });
    store.save_proposal(2, Proposal { status: ProposalStatus::Passed });
    store.save_proposal(3, Proposal { status: ProposalStatus::Rejected });

    let r = execute(&mut store, &info("bob"), ExecuteMsg::FinalizeProposal { proposal_id: 2 }, None);
    assert!(r.is_ok());
    assert_eq!(store.load_proposal(2).unwrap().status, ProposalStatus::Rejected);

    for (pid, status) in [(1, ProposalStatus::Pending), (2, ProposalStatus::Rejected), (3, ProposalStatus::Rejected)] {
        let msg = ExecuteMsg::FinalizeProposal { proposal_id: pid };
        let r = execute(&mut store, &info("bob"), msg, None);
        assert_eq!(r.unwrap_err(), ContractError::InvalidState);
        assert_eq!(store.load_proposal(pid).unwrap().status, status);
    }

    let r = execute(&mut store, &info("bob"), ExecuteMsg::FinalizeProposal { proposal_id: 9 }, None);
    assert_eq!(r.unwrap_err(), ContractError::NotFound);
}

#[test]
fn instantiate_then_query_round_trip() {
    let store = instantiated("zed");
    let config = query(&store, QueryMsg::Config {}).unwrap();
    assert_eq!(config.admin, id("zed"));
    assert_eq!(config.total_supply, 0);
}

#[test]
fn swap_reply_is_handled_both_ways() {
    let response = execute_swap().unwrap();
    assert_eq!(response.messages.len(), 1);
    let sub = &response.messages[0];
    assert_eq!(sub.id, SWAP_REPLY_ID);
    assert_eq!(sub.id, 1);
    assert_eq!(sub.reply_on, ReplyOn::Success);
    assert_eq!(
        sub.msg,
        CosmosMsg::WasmExecute { contract_addr: "swap_contract".to_string(), msg: b"{}".to_vec() }
    );

    for sub in response.messages.iter().filter(|m| m.reply_on != ReplyOn::Never) {
        let ok = reply(Reply { id: sub.id, result: SubMsgResult::Succeeded(vec![]) }).unwrap();
        assert!(ok.messages.is_empty());
        let err = reply(Reply { id: sub.id, result: SubMsgResult::Failed("swap failed".to_string()) });
        assert_eq!(err.unwrap_err(), ContractError::SubMsgFailed { error: "swap failed".to_string() });
    }
}

#[test]
fn reply_with_unknown_id_is_refused() {
    let r = reply(Reply { id: 2, result: SubMsgResult::Succeeded(vec![1]) });
    assert_eq!(r.unwrap_err(), ContractError::UnknownReply { id: 2 });
}

#[test]
fn namespaces_are_distinct() {
    let names = storage_namespaces();
    assert_eq!(names, vec!["config", "bal", "proposal", "backup"]);
    for i in 0..names.len() {
        for j in 0..names.len() {
            if i != j {
                assert_ne!(names[i], names[j]);
            }
        }
    }
    assert_eq!(check_namespaces(&names), Ok(()));
}

#[test]
fn colliding_namespaces_are_refused() {
    let names = vec!["config".to_string(), "bal".to_string(), "bal".to_string()];
    assert_eq!(check_namespaces(&names), Err(ContractError::KeyCollision));
    assert_eq!(check_namespaces(&vec![]), Ok(()));
}

#[test]
fn migrate_requires_admin() {
    let mut store = instantiated("alice");
    assert_eq!(migrate(&mut store, &info("bob"), MigrateMsg {}).unwrap_err(), ContractError::Unauthorized);
    assert!(migrate(&mut store, &info("alice"), MigrateMsg {}).is_ok());
    let mut empty = Store::new();
    assert_eq!(migrate(&mut empty, &info("alice"), MigrateMsg {}).unwrap_err(), ContractError::NotFound);
}

#[test]
fn guard_compares_identities() {
    assert_eq!(require_caller(&id("a"), &id("a")), Ok(()));
    assert_eq!(require_caller(&id("a"), &id("b")), Err(ContractError::Unauthorized));
}

#[test]
fn timeout_removes_config_then_refunds() {
    let mut store = instantiated("alice");
    store.save_balance(&id("dave"), 3);
    let response = ibc_packet_timeout(&mut store).unwrap();
    assert_eq!(response.messages.len(), 1);
    assert_eq!(response.messages[0].reply_on, ReplyOn::Never);
    assert_eq!(
        response.messages[0].msg,
        CosmosMsg::BankSend { to_address: "sender".to_string(), denom: "uatom".to_string(), amount: 100 }
    );
    assert_eq!(query(&store, QueryMsg::Config {}).unwrap_err(), ContractError::NotFound);
    assert_eq!(store.load_balance(&id("dave")), Some(3));
    // a second timeout finds nothing to undo and emits nothing
    assert_eq!(ibc_packet_timeout(&mut store).unwrap_err(), ContractError::NotFound);
}

#[test]
fn backup_slot_is_separate() {
    let mut store = instantiated("alice");
    assert!(store.load_backup().is_none());
    store.save_backup(vec![1, 2, 3]);
    assert_eq!(store.load_backup(), Some(&vec![1, 2, 3]));
    assert_eq!(supply(&store), 0);
    store.save_balance(&id("bal"), 4);
    assert_eq!(store.load_backup(), Some(&vec![1, 2, 3]));
}
