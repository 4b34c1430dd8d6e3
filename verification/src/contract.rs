//! The clone-aware token contract: a ledger plus the clone registry and the
//! clone counter, with the two-phase clone mint and the indirection-aware
//! single-token lookup.

use vstd::prelude::*;
use near_contract_standards::non_fungible_token::NonFungibleToken;
use near_sdk::AccountId;
use near_sdk::PromiseOrValue;
use near_sdk::collections::{LookupMap, TreeMap};
use crate::resolve_origin_spec;
use crate::ledger::{
    emit_mint_event, ledger_approvals, ledger_has_metadata_store, ledger_has_owner_index,
    ledger_index, ledger_metadata, ledger_metadata_get, ledger_metadata_store_enabled,
    ledger_mint, ledger_new, ledger_owner_listed, ledger_owner_of, ledger_owner_tokens,
    ledger_owners, ledger_remove_metadata, ledger_token_approvals, ledger_transfer,
    ledger_transfer_call, to_stored_metadata,
};
use crate::registry::{
    counter_get, counter_insert, counter_new, counter_view, registry_get, registry_insert,
    registry_new, registry_view,
};
use crate::token::{
    MetadataV, Token, TokenError, TokenV, empty_approvals, empty_metadata, empty_metadata_view,
};

verus! {

/// A token ledger extended with the clone primitive: `nft_clone_from_id`
/// maps each clone id to its origin id, and `nft_clone_count` counts the
/// clones minted against each origin.
pub struct NonFungibleTokenClone {
    pub nft: NonFungibleToken,
    pub nft_clone_from_id: TreeMap<String, String>,
    pub nft_clone_count: LookupMap<String, u128>,
}

/// The count stored for an origin, zero when none is stored.
pub open spec fn clone_count_spec(counter: Map<Seq<char>, u128>, origin: Seq<char>) -> u128 {
    if counter.contains_key(origin) {
        counter[origin]
    } else {
        0
    }
}

/// One more than the count, held at the numeric ceiling.
pub open spec fn saturating_bump(count: u128) -> u128 {
    if count < u128::MAX {
        (count + 1) as u128
    } else {
        count
    }
}

impl NonFungibleTokenClone {
    /// The structural invariant every operation preserves: the ledger's
    /// index enumerates each minted id once and agrees with the owner
    /// records, metadata records exist only for minted ids, every
    /// registered clone is a minted token, and — the zero-duplication
    /// guarantee — no clone id holds a metadata record of its own.
    pub open spec fn wf(self) -> bool {
        &&& ledger_index(self.nft).no_duplicates()
        &&& ledger_owners(self.nft).dom() == ledger_index(self.nft).to_set()
        &&& ledger_metadata(self.nft).dom().subset_of(ledger_owners(self.nft).dom())
        &&& registry_view(self.nft_clone_from_id).dom().finite()
        &&& registry_view(self.nft_clone_from_id).dom().subset_of(ledger_owners(self.nft).dom())
        &&& forall|c: Seq<char>| registry_view(self.nft_clone_from_id).contains_key(c)
            ==> !ledger_metadata(self.nft).contains_key(c)
        &&& counter_view(self.nft_clone_count).dom().finite()
    }

    /// The metadata a read of this id resolves to: the record stored under
    /// the id's origin, if the store is configured and holds one.
    pub open spec fn resolved_metadata_spec(self, id: Seq<char>) -> Option<MetadataV> {
        let origin = resolve_origin_spec(registry_view(self.nft_clone_from_id), id);
        if ledger_has_metadata_store(self.nft) && ledger_metadata(self.nft).contains_key(origin) {
            Some(ledger_metadata(self.nft)[origin])
        } else {
            None
        }
    }

    /// The token record a read of this id assembles for this owner.
    pub open spec fn resolved_token_view(self, id: Seq<char>, owner: AccountId) -> TokenV {
        TokenV {
            token_id: id,
            owner_id: owner,
            metadata: self.resolved_metadata_spec(id),
            approved_account_ids: ledger_approvals(self.nft, id),
        }
    }

    /// Creates the contract state over caller-reserved storage namespaces;
    /// the metadata store and the enumeration and approval indexes exist
    /// exactly when their prefixes are supplied, so a fresh contract
    /// reports an empty approval set for every id, or none without the
    /// approval extension.
    pub fn new(
        owner_by_id_prefix: Vec<u8>,
        owner_id: AccountId,
        token_metadata_prefix: Option<Vec<u8>>,
        enumeration_prefix: Option<Vec<u8>>,
        approval_prefix: Option<Vec<u8>>,
        clone_prefix: Vec<u8>,
        clone_count_prefix: Vec<u8>,
    ) -> (contract: Self)
        ensures
            contract.wf(),
            ledger_index(contract.nft).len() == 0,
            ledger_has_metadata_store(contract.nft) == (token_metadata_prefix is Some),
            ledger_has_owner_index(contract.nft) == (enumeration_prefix is Some),
            forall|a: AccountId| ledger_owner_tokens(contract.nft, a).len() == 0,
            forall|a: AccountId| !ledger_owner_listed(contract.nft, a),
            (approval_prefix is Some) ==> forall|i: Seq<char>|
                (#[trigger] ledger_approvals(contract.nft, i)) == Some(empty_approvals()),
            (approval_prefix is None) ==> forall|i: Seq<char>|
                (#[trigger] ledger_approvals(contract.nft, i)) is None,
            registry_view(contract.nft_clone_from_id).dom() =~= Set::empty(),
            counter_view(contract.nft_clone_count).dom() =~= Set::empty(),
            forall|o: Seq<char>| clone_count_spec(counter_view(contract.nft_clone_count), o) == 0,
    {
        let contract = NonFungibleTokenClone {
            nft: ledger_new(
                owner_by_id_prefix,
                owner_id,
                token_metadata_prefix,
                enumeration_prefix,
                approval_prefix,
            ),
            nft_clone_from_id: registry_new(clone_prefix),
            nft_clone_count: counter_new(clone_count_prefix),
        };
        proof {
            assert(ledger_index(contract.nft).to_set() =~= Set::empty());
            assert(ledger_owners(contract.nft).dom() =~= Set::empty());
        }
        contract
    }

    /// The origin a read of this id resolves to: the registered origin for
    /// a clone id, the id itself otherwise.
    pub fn resolve_origin(&self, token_id: &String) -> (origin: String)
        ensures
            origin@ == resolve_origin_spec(registry_view(self.nft_clone_from_id), token_id@),
    {
        match registry_get(&self.nft_clone_from_id, token_id) {
            Some(origin) => origin,
            None => token_id.clone(),
        }
    }

    /// Mints `token_id` for `token_owner_id` as a clone of `clone_from_id`:
    /// the ledger is handed a throw-away all-empty metadata record (its mint
    /// demands one) which is deleted again within the same call, the clone
    /// counter of the origin grows by one, and the clone is registered. The
    /// storage deposit is attributed to `refund_to`. Fails when the ledger
    /// has no metadata store; the ledger itself aborts the call on a taken
    /// id, so a fresh id is required.
    pub fn internal_clone_mint(
        &mut self,
        token_id: String,
        clone_from_id: String,
        token_owner_id: AccountId,
        refund_to: AccountId,
    ) -> (result: Result<Token, TokenError>)
        requires
            old(self).wf(),
            !ledger_owners(old(self).nft).contains_key(token_id@),
        ensures
            final(self).wf(),
            match result {
                Err(e) => {
                    &&& e == TokenError::MetadataExtensionDisabled
                    &&& !ledger_has_metadata_store(old(self).nft)
                    &&& *final(self) == *old(self)
                },
                Ok(token) => {
                    &&& ledger_has_metadata_store(old(self).nft)
                    &&& ledger_index(final(self).nft).to_set()
                        == ledger_index(old(self).nft).to_set().insert(token_id@)
                    &&& ledger_index(final(self).nft).len() == ledger_index(old(self).nft).len() + 1
                    &&& ledger_owners(final(self).nft)
                        == ledger_owners(old(self).nft).insert(token_id@, token_owner_id)
                    &&& ledger_metadata(final(self).nft) == ledger_metadata(old(self).nft)
                    &&& ledger_has_metadata_store(final(self).nft)
                    &&& ledger_has_owner_index(final(self).nft)
                        == ledger_has_owner_index(old(self).nft)
                    &&& registry_view(final(self).nft_clone_from_id)
                        == registry_view(old(self).nft_clone_from_id).insert(token_id@, clone_from_id@)
                    &&& counter_view(final(self).nft_clone_count)
                        == counter_view(old(self).nft_clone_count).insert(
                            clone_from_id@,
                            saturating_bump(clone_count_spec(counter_view(old(self).nft_clone_count), clone_from_id@)),
                        )
                    &&& ledger_has_owner_index(old(self).nft) ==> {
                        &&& ledger_owner_tokens(final(self).nft, token_owner_id)
                            == ledger_owner_tokens(old(self).nft, token_owner_id).push(token_id@)
                        &&& ledger_owner_listed(final(self).nft, token_owner_id)
                    }
                    &&& forall|a: AccountId| a != token_owner_id
                        ==> #[trigger] ledger_owner_tokens(final(self).nft, a)
                            == ledger_owner_tokens(old(self).nft, a)
                    &&& forall|a: AccountId| a != token_owner_id
                        ==> #[trigger] ledger_owner_listed(final(self).nft, a)
                            == ledger_owner_listed(old(self).nft, a)
                    &&& token.token_id@ == token_id@
                    &&& token.owner_id == token_owner_id
                    &&& token@.metadata == Some(empty_metadata_view())
                    &&& token@.approved_account_ids == ledger_approvals(final(self).nft, token_id@)
                },
            },
    {
        if !ledger_metadata_store_enabled(&self.nft) {
            return Err(TokenError::MetadataExtensionDisabled);
        }

        let ghost metadata_before = ledger_metadata(self.nft);

        // Phase one: the ledger's mint demands a metadata record, so hand it
        // a throw-away empty one.
        let placeholder = to_stored_metadata(empty_metadata());
        let (minted_id, minted_owner, minted_approvals) = ledger_mint(
            &mut self.nft,
            token_id.clone(),
            token_owner_id,
            placeholder,
            refund_to,
        );

        let count = match counter_get(&self.nft_clone_count, &clone_from_id) {
            Some(count) => count,
            None => 0,
        };
        let new_count: u128 = if count < u128::MAX { count + 1 } else { count };
        counter_insert(&mut self.nft_clone_count, &clone_from_id, new_count);

        // Phase two: delete the placeholder again, so the clone id holds no
        // record of its own.
        ledger_remove_metadata(&mut self.nft, &token_id);

        registry_insert(&mut self.nft_clone_from_id, &token_id, &clone_from_id);

        emit_mint_event(&minted_owner, &minted_id);

        proof {
            assert(ledger_metadata(self.nft) =~= metadata_before);
            assert(ledger_owners(self.nft).dom() =~= ledger_index(self.nft).to_set());
        }

        Ok(Token {
            token_id: minted_id,
            owner_id: minted_owner,
            metadata: Some(empty_metadata()),
            approved_account_ids: minted_approvals,
        })
    }

    /// Transfers a token; entirely the ledger's affair: on every normal
    /// return the token is re-recorded under the receiver, while the set of
    /// minted ids, the metadata store and the clone records are untouched.
    /// Authorization and the one-yoctoNEAR guard are checked by the ledger,
    /// which aborts the whole call when they fail.
    pub fn nft_transfer(
        &mut self,
        receiver_id: AccountId,
        token_id: String,
        approval_id: Option<u64>,
        memo: Option<String>,
    )
        requires
            old(self).wf(),
        ensures
            final(self).wf(),
            ledger_owners(final(self).nft)
                == ledger_owners(old(self).nft).insert(token_id@, receiver_id),
            ledger_owners(final(self).nft).dom() == ledger_owners(old(self).nft).dom(),
            ledger_index(final(self).nft) == ledger_index(old(self).nft),
            ledger_metadata(final(self).nft) == ledger_metadata(old(self).nft),
            registry_view(final(self).nft_clone_from_id) == registry_view(old(self).nft_clone_from_id),
            counter_view(final(self).nft_clone_count) == counter_view(old(self).nft_clone_count),
    {
        ledger_transfer(&mut self.nft, receiver_id, token_id, approval_id, memo);
    }

    /// Transfers a token and starts the receiver's callback; entirely the
    /// ledger's affair: on every normal return the token is re-recorded
    /// under the receiver, while the set of minted ids, the metadata store
    /// and the clone records are untouched. The outcome of the callback
    /// belongs to the ledger and its host.
    pub fn nft_transfer_call(
        &mut self,
        receiver_id: AccountId,
        token_id: String,
        approval_id: Option<u64>,
        memo: Option<String>,
        msg: String,
    ) -> (outcome: PromiseOrValue<bool>)
        requires
            old(self).wf(),
        ensures
            final(self).wf(),
            ledger_owners(final(self).nft)
                == ledger_owners(old(self).nft).insert(token_id@, receiver_id),
            ledger_owners(final(self).nft).dom() == ledger_owners(old(self).nft).dom(),
            ledger_index(final(self).nft) == ledger_index(old(self).nft),
            ledger_metadata(final(self).nft) == ledger_metadata(old(self).nft),
            registry_view(final(self).nft_clone_from_id) == registry_view(old(self).nft_clone_from_id),
            counter_view(final(self).nft_clone_count) == counter_view(old(self).nft_clone_count),
    {
        ledger_transfer_call(&mut self.nft, receiver_id, token_id, approval_id, memo, msg)
    }

    /// Looks one token up and resolves its metadata through its origin.
    /// Fails with `NotFound` for an id the ledger does not know, and with
    /// `MetadataExtensionDisabled` when the ledger has no metadata store.
    pub fn nft_token(&self, token_id: String) -> (result: Result<Token, TokenError>)
        ensures
            match result {
                Ok(token) => {
                    &&& ledger_owners(self.nft).contains_key(token_id@)
                    &&& ledger_has_metadata_store(self.nft)
                    &&& token@ == self.resolved_token_view(token_id@, ledger_owners(self.nft)[token_id@])
                },
                Err(e) => {
                    ||| (e == TokenError::NotFound && !ledger_owners(self.nft).contains_key(token_id@))
                    ||| (e == TokenError::MetadataExtensionDisabled
                        && ledger_owners(self.nft).contains_key(token_id@)
                        && !ledger_has_metadata_store(self.nft))
                },
            },
    {
        let owner_id = match ledger_owner_of(&self.nft, &token_id) {
            Some(owner_id) => owner_id,
            None => {
                return Err(TokenError::NotFound);
            },
        };
        if !ledger_metadata_store_enabled(&self.nft) {
            return Err(TokenError::MetadataExtensionDisabled);
        }
        let clone_from = self.resolve_origin(&token_id);
        let metadata = ledger_metadata_get(&self.nft, &clone_from);
        let approved_account_ids = ledger_token_approvals(&self.nft, &token_id);
        Ok(Token { token_id, owner_id, metadata, approved_account_ids })
    }

    /// The stored clone count of an origin, zero when none was ever minted.
    pub fn clone_count(&self, origin_id: &String) -> (count: u128)
        ensures
            count == clone_count_spec(counter_view(self.nft_clone_count), origin_id@),
    {
        match counter_get(&self.nft_clone_count, origin_id) {
            Some(count) => count,
            None => 0,
        }
    }
}

} // verus!
