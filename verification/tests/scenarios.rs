use cw721_minter::{
    coins, mint_request_payload, CollectionRef, ContractError, ExecuteMsg, InstantiateMsg,
    MessageInfo, MintReceipt, MinterContract, QueryMsg, SubcallResult, TokenNotification,
};

const TOKEN_CONTRACT: &str = "token-contract";
const COLLECTION: &str = "collection";

fn terms() -> InstantiateMsg {
    InstantiateMsg {
        native_denom: "uusd".to_string(),
        native_price: 200,
        token_contract: TOKEN_CONTRACT.to_string(),
        token_price: 1500,
        collection_code_id: 11,
    }
}

fn caller(sender: &str, amount: u128) -> MessageInfo {
    MessageInfo { sender: sender.to_string(), funds: coins(amount, "uusd") }
}

fn token_contract() -> MessageInfo {
    MessageInfo { sender: TOKEN_CONTRACT.to_string(), funds: vec![] }
}

fn notification(sender: &str, amount: u128) -> TokenNotification {
    TokenNotification { sender: sender.to_string(), amount, payload: mint_request_payload() }
}

fn minted() -> SubcallResult {
    SubcallResult::Success { collection: Some(COLLECTION.to_string()) }
}

/// A contract on which one native payment has been confirmed.
fn after_first_mint() -> MinterContract {
    let mut minter = MinterContract::instantiate(terms()).unwrap();
    let instruction = minter.mint(&caller("alice", 200)).unwrap();
    minter.reply(instruction.reply_id, &minted()).unwrap();
    minter
}

#[test]
fn native_payment_mints_one_token_to_the_caller() {
    let mut minter = MinterContract::instantiate(terms()).unwrap();
    assert_eq!(minter.tokens_minted(), 0);
    assert_eq!(minter.state().collection_address, None);

    let instruction = minter.mint(&caller("alice", 200)).unwrap();
    assert_eq!(instruction.collection, CollectionRef::CodeId(11));
    assert_eq!(instruction.token_id, 0);
    assert_eq!(instruction.owner, "alice");
    assert_eq!(instruction.reply_id, 0);
    assert_eq!(minter.tokens_minted(), 0);
    assert_eq!(minter.pending().unwrap().recipient, "alice");

    let receipt = minter.reply(instruction.reply_id, &minted()).unwrap();
    assert_eq!(
        receipt,
        MintReceipt { token_id: 0, owner: "alice".to_string(), collection: COLLECTION.to_string() }
    );
    assert_eq!(minter.tokens_minted(), 1);
    assert_eq!(minter.pending(), None);
    assert_eq!(minter.state().collection_address, Some(COLLECTION.to_string()));
}

#[test]
fn token_payment_mints_a_second_token_to_the_token_sender() {
    let mut minter = after_first_mint();
    assert_eq!(minter.tokens_minted(), 1);

    let instruction = minter.receive(&token_contract(), &notification("bob", 1500)).unwrap();
    assert_eq!(instruction.collection, CollectionRef::Address(COLLECTION.to_string()));
    assert_eq!(instruction.token_id, 1);
    assert_eq!(instruction.owner, "bob");
    assert_eq!(instruction.reply_id, 1);

    let receipt = minter.reply(instruction.reply_id, &minted()).unwrap();
    assert_eq!(receipt.owner, "bob");
    assert_eq!(receipt.token_id, 1);
    assert_eq!(minter.tokens_minted(), 2);
}

#[test]
fn underpayment_fails_with_payment_mismatch() {
    let mut minter = after_first_mint();
    let result = minter.mint(&caller("alice", 199));
    assert_eq!(result, Err(ContractError::PaymentMismatch));
    assert_eq!(minter.tokens_minted(), 1);
    assert_eq!(minter.pending(), None);
}

#[test]
fn third_party_notification_is_unauthorized() {
    let mut minter = after_first_mint();
    let third_party = MessageInfo { sender: "mallory".to_string(), funds: vec![] };
    let result = minter.receive(&third_party, &notification("mallory", 1500));
    assert_eq!(result, Err(ContractError::Unauthorized));
    assert_eq!(minter.tokens_minted(), 1);
    assert_eq!(minter.pending(), None);
}

#[test]
fn both_payment_paths_through_execute() {
    let mut minter = MinterContract::instantiate(terms()).unwrap();
    let state = minter.query(&QueryMsg::State);
    assert_eq!(state.native_denom, "uusd");
    assert_eq!(state.native_price, 200);
    assert_eq!(state.token_contract, TOKEN_CONTRACT);
    assert_eq!(state.token_price, 1500);
    assert_eq!(state.collection_code_id, 11);
    assert_eq!(state.collection_address, None);

    let first = minter.execute(&caller("alice", 200), &ExecuteMsg::Mint).unwrap();
    assert_eq!(first.owner, "alice");
    minter.reply(first.reply_id, &minted()).unwrap();
    assert_eq!(minter.tokens_minted(), 1);

    let second = minter
        .execute(&token_contract(), &ExecuteMsg::Receive(notification("alice", 1500)))
        .unwrap();
    assert_eq!(second.owner, "alice");
    assert_eq!(second.token_id, 1);
    minter.reply(second.reply_id, &minted()).unwrap();
    assert_eq!(minter.tokens_minted(), 2);
}

#[test]
fn exact_payment_mints_for_other_prices_too() {
    let mut minter = MinterContract::instantiate(InstantiateMsg {
        native_denom: "ujuno".to_string(),
        native_price: 1,
        token_contract: TOKEN_CONTRACT.to_string(),
        token_price: u128::MAX,
        collection_code_id: 0,
    })
    .unwrap();
    let payer = MessageInfo { sender: "carol".to_string(), funds: coins(1, "ujuno") };
    let instruction = minter.mint(&payer).unwrap();
    assert_eq!(instruction.owner, "carol");
    assert_eq!(instruction.collection, CollectionRef::CodeId(0));
    minter.reply(instruction.reply_id, &minted()).unwrap();
    assert_eq!(minter.tokens_minted(), 1);

    let instruction = minter.receive(&token_contract(), &notification("dave", u128::MAX)).unwrap();
    assert_eq!(instruction.owner, "dave");
    minter.reply(instruction.reply_id, &minted()).unwrap();
    assert_eq!(minter.tokens_minted(), 2);
}

#[test]
fn collection_address_stays_after_the_first_mint() {
    let mut minter = after_first_mint();
    let recorded = minter.state().collection_address;
    assert_eq!(recorded, Some(COLLECTION.to_string()));

    // A later reply that reports another address does not replace the recorded one.
    let instruction = minter.mint(&caller("alice", 200)).unwrap();
    assert_eq!(minter.state().collection_address, recorded);
    let elsewhere = SubcallResult::Success { collection: Some("elsewhere".to_string()) };
    let receipt = minter.reply(instruction.reply_id, &elsewhere).unwrap();
    assert_eq!(receipt.collection, COLLECTION);
    assert_eq!(minter.state().collection_address, recorded);

    // A reply that reports no address is enough once the address is known.
    let instruction = minter.mint(&caller("alice", 200)).unwrap();
    let receipt = minter.reply(instruction.reply_id, &SubcallResult::Success { collection: None });
    assert_eq!(receipt.unwrap().collection, COLLECTION);
    assert_eq!(minter.state().collection_address, recorded);

    // Neither do failures of any kind.
    assert!(minter.mint(&caller("alice", 1)).is_err());
    assert_eq!(minter.state().collection_address, recorded);
    let instruction = minter.receive(&token_contract(), &notification("bob", 1500)).unwrap();
    assert!(minter.reply(instruction.reply_id, &SubcallResult::Failure).is_err());
    assert_eq!(minter.state().collection_address, recorded);
    assert_eq!(minter.tokens_minted(), 3);
}

#[test]
fn token_ids_count_up() {
    let mut minter = MinterContract::instantiate(terms()).unwrap();
    for expected in 0..5u64 {
        let instruction = minter.mint(&caller("alice", 200)).unwrap();
        assert_eq!(instruction.token_id, expected);
        let receipt = minter.reply(instruction.reply_id, &minted()).unwrap();
        assert_eq!(receipt.token_id, expected);
        assert_eq!(minter.tokens_minted(), expected + 1);
    }
}
