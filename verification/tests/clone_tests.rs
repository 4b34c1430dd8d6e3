use near_contract_standards::non_fungible_token::metadata::TokenMetadata as LedgerTokenMetadata;
use near_sdk::test_utils::{accounts, VMContextBuilder};
use near_sdk::{NearToken, PromiseResult};
use nft_clone::contract::NonFungibleTokenClone;
use nft_clone::token::{Token, TokenError};
use std::collections::HashMap;

/// Puts a mocked host behind `near_sdk::env` with enough attached deposit
/// to cover the storage of the mints below.
#[allow(deprecated)]
fn set_test_context() {
    let mut builder = VMContextBuilder::new();
    builder.attached_deposit(NearToken::from_yoctonear(7000000000000000000000));
    near_sdk::test_utils::testing_env_with_promise_results(
        builder.build(),
        PromiseResult::Successful(vec![]),
    );
}

/// Re-contexts the mocked host with exactly one yoctoNEAR attached (what a
/// transfer demands), keeping the storage written so far.
#[allow(deprecated)]
fn set_one_yocto_context() {
    let mut builder = VMContextBuilder::new();
    builder.attached_deposit(NearToken::from_yoctonear(1));
    builder.predecessor_account_id(accounts(1));
    near_sdk::test_utils::testing_env_with_promise_results(
        builder.build(),
        PromiseResult::Successful(vec![]),
    );
}

fn new_contract() -> NonFungibleTokenClone {
    NonFungibleTokenClone::new(
        b"t".to_vec(),
        near_sdk::env::current_account_id(),
        Some(b"m".to_vec()),
        Some(b"e".to_vec()),
        Some(b"a".to_vec()),
        b"c".to_vec(),
        b"k".to_vec(),
    )
}

fn parent_metadata() -> LedgerTokenMetadata {
    LedgerTokenMetadata {
        title: Some("title".into()),
        description: Some("description".into()),
        media: None,
        media_hash: None,
        copies: None,
        issued_at: None,
        expires_at: None,
        starts_at: None,
        updated_at: None,
        extra: None,
        reference: None,
        reference_hash: None,
    }
}

#[test]
fn test_clone_many() {
    set_test_context();
    let mut contract = new_contract();

    let clone_from_id: String = "1".into();
    let parent = parent_metadata();
    contract
        .nft
        .internal_mint(clone_from_id.clone(), accounts(0), Some(parent.clone()));

    for index in 0..10 {
        let clone_token_id: String = format!("{}", 2 + index);

        let clone_owner_id = accounts(1);
        contract
            .internal_clone_mint(
                clone_token_id.clone(),
                clone_from_id.clone(),
                clone_owner_id.clone(),
                near_sdk::env::predecessor_account_id(),
            )
            .unwrap();
        assert!(
            contract.nft_clone_count.get(&clone_from_id.clone()) == Some(index + 1),
            "Invalid clone count GET:{:?}",
            contract.nft_clone_count.get(&clone_from_id.clone())
        );

        let clone: Token = contract
            .nft_token(clone_token_id.clone())
            .unwrap_or_else(|_| panic!("Clone token not exist"));

        assert!(
            clone.token_id == clone_token_id,
            "Clone token id doesn't match"
        );

        assert!(
            clone.owner_id == clone_owner_id,
            "Clone token owner doesn't match"
        );

        let clone_metadata = clone.metadata.unwrap();
        assert!(
            clone_metadata.title == parent.clone().title
                && clone_metadata.description == parent.clone().description
                && clone_metadata.media == parent.media
                && clone_metadata.media_hash == parent.media_hash.clone().map(|h| h.0)
                && clone_metadata.copies == parent.copies
                && clone_metadata.issued_at == parent.issued_at
                && clone_metadata.expires_at == parent.expires_at
                && clone_metadata.starts_at == parent.starts_at
                && clone_metadata.updated_at == parent.updated_at
                && clone_metadata.extra == parent.extra
                && clone_metadata.reference == parent.reference
                && clone_metadata.reference_hash == parent.reference_hash.clone().map(|h| h.0),
            "Clone token metadada doesn't match"
        );
    }

    let tokens = contract
        .nft_tokens_for_owner(accounts(0), None, None)
        .unwrap();
    assert_eq!(accounts(0), tokens[0].owner_id, "Owner must be Alice");

    let token = contract.nft_token("1".to_string());
    assert_eq!(accounts(0), token.unwrap().owner_id, "Owner must be Alice");

    let token = contract.nft_token("2".to_string());
    assert_eq!(accounts(1), token.unwrap().owner_id, "Owner must be Bob");

    assert!(
        contract.nft_total_supply() == 11,
        "Total should be 11 tokens 1 parent and 10 clones"
    );

    let alice_tokens_count = contract.nft_supply_for_owner(accounts(0));
    assert!(
        alice_tokens_count == 1u128,
        "Total must be 1 but got: {:?}",
        alice_tokens_count
    );

    let bob_tokens_count = contract.nft_supply_for_owner(accounts(1));
    assert!(
        bob_tokens_count == 10u128,
        "Total must be 10 but got: {:?}",
        bob_tokens_count
    );
    contract.nft_supply_for_owner(accounts(1));
}

#[test]
fn test_token_not_found() {
    set_test_context();
    let contract = new_contract();
    let result = contract.nft_token("999".to_string());
    assert_eq!(result.unwrap_err(), TokenError::NotFound);
}

#[test]
fn test_clone_mint_without_metadata_store() {
    set_test_context();
    let mut contract = NonFungibleTokenClone::new(
        b"t".to_vec(),
        near_sdk::env::current_account_id(),
        None,
        Some(b"e".to_vec()),
        Some(b"a".to_vec()),
        b"c".to_vec(),
        b"k".to_vec(),
    );
    contract
        .nft
        .internal_mint("1".to_string(), accounts(0), None);
    let result = contract.internal_clone_mint(
        "2".to_string(),
        "1".to_string(),
        accounts(1),
        near_sdk::env::predecessor_account_id(),
    );
    assert_eq!(result.unwrap_err(), TokenError::MetadataExtensionDisabled);

    let looked_up = contract.nft_token("1".to_string());
    assert_eq!(
        looked_up.unwrap_err(),
        TokenError::MetadataExtensionDisabled
    );

    // Every read path treats the missing store as fatal, enumeration too.
    assert_eq!(
        contract.nft_tokens(None, None).unwrap_err(),
        TokenError::MetadataExtensionDisabled
    );
    assert_eq!(
        contract
            .nft_tokens_for_owner(accounts(0), None, None)
            .unwrap_err(),
        TokenError::MetadataExtensionDisabled
    );
}

#[test]
fn test_list_tokens_pagination() {
    set_test_context();
    let mut contract = new_contract();
    contract
        .nft
        .internal_mint("1".to_string(), accounts(0), Some(parent_metadata()));
    for index in 0..10 {
        contract
            .internal_clone_mint(
                format!("{}", 2 + index),
                "1".to_string(),
                accounts(1),
                near_sdk::env::predecessor_account_id(),
            )
            .unwrap();
    }

    // min(limit, total) entries, in the ledger index's (key) order.
    let page = contract.nft_tokens(Some(0), Some(3)).unwrap();
    assert_eq!(page.len(), 3);
    assert_eq!(page[0].token_id, "1".to_string());
    assert_eq!(page[1].token_id, "10".to_string());
    assert_eq!(page[2].token_id, "11".to_string());
    assert_eq!(
        page[0].metadata.as_ref().unwrap().title,
        Some("title".to_string())
    );
    assert_eq!(page[0].approved_account_ids, Some(HashMap::new()));

    let all = contract.nft_tokens(None, Some(100)).unwrap();
    assert_eq!(all.len(), 11);

    let rest = contract.nft_tokens(Some(9), None).unwrap();
    assert_eq!(rest.len(), 2);

    let empty = contract.nft_tokens(Some(11), None).unwrap();
    assert_eq!(empty.len(), 0);

    assert_eq!(
        contract.nft_tokens(Some(12), None).unwrap_err(),
        TokenError::OutOfRange
    );
    assert_eq!(
        contract.nft_tokens(None, Some(0)).unwrap_err(),
        TokenError::InvalidLimit
    );
}

#[test]
fn test_tokens_for_owner_pagination() {
    set_test_context();
    let mut contract = new_contract();
    contract
        .nft
        .internal_mint("1".to_string(), accounts(0), Some(parent_metadata()));
    for index in 0..4 {
        contract
            .internal_clone_mint(
                format!("{}", 2 + index),
                "1".to_string(),
                accounts(1),
                near_sdk::env::predecessor_account_id(),
            )
            .unwrap();
    }

    // An owner the index does not list: empty, whatever the arguments.
    let none_owned = contract
        .nft_tokens_for_owner(accounts(2), Some(50), Some(0))
        .unwrap();
    assert_eq!(none_owned.len(), 0);

    // The per-owner index keeps insertion order.
    let page = contract
        .nft_tokens_for_owner(accounts(1), Some(1), Some(2))
        .unwrap();
    assert_eq!(page.len(), 2);
    assert_eq!(page[0].token_id, "3".to_string());
    assert_eq!(page[1].token_id, "4".to_string());
    assert_eq!(page[0].owner_id, accounts(1));
    assert_eq!(
        page[1].metadata.as_ref().unwrap().description,
        Some("description".to_string())
    );

    assert_eq!(
        contract
            .nft_tokens_for_owner(accounts(1), None, Some(0))
            .unwrap_err(),
        TokenError::InvalidLimit
    );
    // A start index equal to the owner's count yields an empty page, as in
    // the global listing; only one strictly beyond it is out of range.
    let boundary = contract
        .nft_tokens_for_owner(accounts(1), Some(4), None)
        .unwrap();
    assert_eq!(boundary.len(), 0);
    assert_eq!(
        contract
            .nft_tokens_for_owner(accounts(1), Some(5), None)
            .unwrap_err(),
        TokenError::OutOfRange
    );
}

#[test]
fn test_clone_stores_no_metadata() {
    set_test_context();
    let mut contract = new_contract();
    contract
        .nft
        .internal_mint("1".to_string(), accounts(0), Some(parent_metadata()));
    contract
        .internal_clone_mint(
            "2".to_string(),
            "1".to_string(),
            accounts(1),
            near_sdk::env::predecessor_account_id(),
        )
        .unwrap();

    // The clone's own id holds no record in the metadata store; only the
    // origin's does, and reads reach it through resolution.
    let store = contract.nft.token_metadata_by_id.as_ref().unwrap();
    assert!(store.get(&"2".to_string()).is_none());
    assert!(store.get(&"1".to_string()).is_some());

    let resolved = contract.nft_token("2".to_string()).unwrap();
    assert_eq!(
        resolved.metadata.unwrap().title,
        Some("title".to_string())
    );
}

#[test]
fn test_clone_counts_per_origin() {
    set_test_context();
    let mut contract = new_contract();
    contract
        .nft
        .internal_mint("1".to_string(), accounts(0), Some(parent_metadata()));
    contract
        .nft
        .internal_mint("2".to_string(), accounts(0), Some(parent_metadata()));

    // Counts start at zero.
    assert_eq!(contract.clone_count(&"1".to_string()), 0);
    assert_eq!(contract.clone_count(&"2".to_string()), 0);
    assert_eq!(contract.clone_count(&"999".to_string()), 0);

    for index in 0..3 {
        contract
            .internal_clone_mint(
                format!("a{}", index),
                "1".to_string(),
                accounts(1),
                near_sdk::env::predecessor_account_id(),
            )
            .unwrap();
    }
    contract
        .internal_clone_mint(
            "b0".to_string(),
            "2".to_string(),
            accounts(1),
            near_sdk::env::predecessor_account_id(),
        )
        .unwrap();

    // Each successful clone mint raises exactly its origin's count.
    assert_eq!(contract.clone_count(&"1".to_string()), 3);
    assert_eq!(contract.clone_count(&"2".to_string()), 1);
    assert_eq!(contract.clone_count(&"999".to_string()), 0);
}

#[test]
fn test_resolve_origin_fallback() {
    set_test_context();
    let mut contract = new_contract();
    contract
        .nft
        .internal_mint("1".to_string(), accounts(0), Some(parent_metadata()));
    contract
        .internal_clone_mint(
            "2".to_string(),
            "1".to_string(),
            accounts(1),
            near_sdk::env::predecessor_account_id(),
        )
        .unwrap();

    assert_eq!(contract.resolve_origin(&"2".to_string()), "1".to_string());
    assert_eq!(contract.resolve_origin(&"1".to_string()), "1".to_string());
    assert_eq!(
        contract.resolve_origin(&"999".to_string()),
        "999".to_string()
    );
}

#[test]
fn test_clone_mint_returns_minted_record() {
    set_test_context();
    let mut contract = new_contract();
    contract
        .nft
        .internal_mint("1".to_string(), accounts(0), Some(parent_metadata()));
    let token = contract
        .internal_clone_mint(
            "2".to_string(),
            "1".to_string(),
            accounts(1),
            near_sdk::env::predecessor_account_id(),
        )
        .unwrap();

    // The mint returns the record as the ledger produced it: the metadata
    // is the placeholder, not yet resolved to the origin.
    assert_eq!(token.token_id, "2".to_string());
    assert_eq!(token.owner_id, accounts(1));
    let placeholder = token.metadata.unwrap();
    assert_eq!(placeholder.title, None);
    assert_eq!(placeholder.description, None);
    assert_eq!(token.approved_account_ids, Some(HashMap::new()));
}

#[test]
fn test_transfer_rerecords_owner() {
    set_test_context();
    let mut contract = new_contract();
    contract
        .nft
        .internal_mint("1".to_string(), accounts(0), Some(parent_metadata()));
    contract
        .internal_clone_mint(
            "2".to_string(),
            "1".to_string(),
            accounts(1),
            near_sdk::env::predecessor_account_id(),
        )
        .unwrap();

    // The transfer itself demands exactly one yoctoNEAR attached; the
    // default context's predecessor (the clone's owner) sends it away.
    set_one_yocto_context();
    contract.nft_transfer(accounts(0), "2".to_string(), None, None);

    let moved = contract.nft_token("2".to_string()).unwrap();
    assert_eq!(moved.owner_id, accounts(0));
    assert_eq!(
        moved.metadata.unwrap().title,
        Some("title".to_string())
    );
    assert_eq!(contract.nft_total_supply(), 2);
    assert_eq!(contract.clone_count(&"1".to_string()), 1);
    assert_eq!(contract.resolve_origin(&"2".to_string()), "1".to_string());
}
