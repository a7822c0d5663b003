use cw721_minter::{
    coin, coins, Coin, ContractError, InstantiateMsg, MessageInfo, MigrateMsg, MinterContract,
    PendingMint, QueryMsg, State, SubcallResult,
};

fn config(collection_address: Option<&str>) -> State {
    State {
        native_denom: "uusd".to_string(),
        native_price: 200,
        token_contract: "token-contract".to_string(),
        token_price: 1500,
        collection_code_id: 11,
        collection_address: collection_address.map(str::to_string),
    }
}

#[test]
fn instantiation_stores_the_terms() {
    let minter = MinterContract::instantiate(InstantiateMsg {
        native_denom: "uusd".to_string(),
        native_price: 200,
        token_contract: "token-contract".to_string(),
        token_price: 1500,
        collection_code_id: 11,
    })
    .unwrap();
    assert_eq!(minter.state(), config(None));
    assert_eq!(minter.query(&QueryMsg::State), config(None));
    assert_eq!(minter.pending(), None);
    assert_eq!(minter.tokens_minted(), 0);
}

#[test]
fn coin_and_coins_build_what_they_say() {
    assert_eq!(coin(7, "uusd"), Coin { denom: "uusd".to_string(), amount: 7 });
    assert_eq!(coins(200, "uusd"), vec![Coin { denom: "uusd".to_string(), amount: 200 }]);
}

#[test]
fn restore_gives_back_what_was_stored() {
    let pending = Some(PendingMint { recipient: "alice".to_string(), token_id: 4 });
    let minter = MinterContract::restore(config(Some("collection")), pending.clone(), 4).unwrap();
    assert_eq!(minter.state(), config(Some("collection")));
    assert_eq!(minter.pending(), pending);
    assert_eq!(minter.tokens_minted(), 4);
}

#[test]
fn restore_then_reply_continues_the_transaction() {
    let pending = Some(PendingMint { recipient: "alice".to_string(), token_id: 4 });
    let mut minter = MinterContract::restore(config(Some("collection")), pending, 4).unwrap();
    let success = SubcallResult::Success { collection: Some("collection".to_string()) };
    let receipt = minter.reply(4, &success).unwrap();
    assert_eq!(receipt.token_id, 4);
    assert_eq!(receipt.owner, "alice");
    assert_eq!(receipt.collection, "collection");
    assert_eq!(minter.tokens_minted(), 5);
    assert_eq!(minter.pending(), None);
}

#[test]
fn restore_refuses_what_no_contract_stores() {
    let zero_native = State { native_price: 0, ..config(None) };
    assert_eq!(
        MinterContract::restore(zero_native, None, 0).err(),
        Some(ContractError::InvalidConfiguration)
    );
    let zero_token = State { token_price: 0, ..config(None) };
    assert_eq!(
        MinterContract::restore(zero_token, None, 0).err(),
        Some(ContractError::InvalidConfiguration)
    );
    let stale = Some(PendingMint { recipient: "alice".to_string(), token_id: 3 });
    assert_eq!(
        MinterContract::restore(config(Some("collection")), stale, 4).err(),
        Some(ContractError::InvalidConfiguration)
    );
    let beyond = Some(PendingMint { recipient: "alice".to_string(), token_id: u64::MAX });
    assert_eq!(
        MinterContract::restore(config(Some("collection")), beyond, u64::MAX).err(),
        Some(ContractError::InvalidConfiguration)
    );
    // The address is known exactly if something has been minted.
    assert_eq!(
        MinterContract::restore(config(None), None, 4).err(),
        Some(ContractError::InvalidConfiguration)
    );
    assert_eq!(
        MinterContract::restore(config(Some("collection")), None, 0).err(),
        Some(ContractError::InvalidConfiguration)
    );
}

#[test]
fn migration_keeps_the_state() {
    let pending = Some(PendingMint { recipient: "alice".to_string(), token_id: 2 });
    let mut minter = MinterContract::restore(config(Some("collection")), pending.clone(), 2).unwrap();
    assert_eq!(minter.migrate(&MigrateMsg {}), Ok(()));
    assert_eq!(minter.state(), config(Some("collection")));
    assert_eq!(minter.state().collection_address, Some("collection".to_string()));
    assert_eq!(minter.pending(), pending);
    assert_eq!(minter.tokens_minted(), 2);
}

#[test]
fn query_has_no_effect() {
    let mut minter = MinterContract::restore(config(None), None, 0).unwrap();
    let first = minter.state();
    let second = minter.state();
    assert_eq!(first, second);
    let payer = MessageInfo { sender: "alice".to_string(), funds: coins(200, "uusd") };
    assert_eq!(minter.mint(&payer).unwrap().token_id, 0);
}
