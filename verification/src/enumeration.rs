//! Enumeration over the ledger's indexes: global and per-owner pagination,
//! with the same metadata resolution as the single-token lookup applied to
//! every entry.

use vstd::prelude::*;
use near_sdk::AccountId;
use crate::contract::NonFungibleTokenClone;
use crate::ledger::{
    ledger_entries, ledger_has_metadata_store, ledger_has_owner_index, ledger_index,
    ledger_metadata_get, ledger_metadata_store_enabled, ledger_owner_listed,
    ledger_owner_token_ids, ledger_owner_tokens, ledger_owners, ledger_supply_for_owner,
    ledger_token_count, ledger_token_approvals,
};
use crate::token::{Token, TokenError};

verus! {

/// The start index pagination uses: the given one, or zero.
pub open spec fn start_spec(from_index: Option<u128>) -> int {
    match from_index {
        Some(v) => v as int,
        None => 0,
    }
}

/// How many entries a page holds: all remaining ones, capped by the limit
/// when one is given.
pub open spec fn page_len_spec(limit: Option<u64>, total: int, start: int) -> int {
    match limit {
        Some(l) => if (l as int) < total - start {
            l as int
        } else {
            total - start
        },
        None => total - start,
    }
}

impl NonFungibleTokenClone {
    /// Assembles the record enumeration yields for one entry of an
    /// ownership index: the owner as the index states it, the metadata
    /// resolved through the clone registry.
    fn enum_get_token(&self, owner_id: AccountId, token_id: String) -> (token: Token)
        ensures
            token@ == self.resolved_token_view(token_id@, owner_id),
    {
        let clone_id = self.resolve_origin(&token_id);
        let metadata = ledger_metadata_get(&self.nft, &clone_id);
        let approved_account_ids = ledger_token_approvals(&self.nft, &token_id);
        Token { token_id, owner_id, metadata, approved_account_ids }
    }

    /// How many tokens the ledger has minted in all, origins and clones
    /// alike.
    pub fn nft_total_supply(&self) -> (supply: u128)
        ensures
            supply == ledger_index(self.nft).len(),
    {
        ledger_token_count(&self.nft) as u128
    }

    /// One page of the global ownership index, in the index's order, each
    /// entry with its metadata resolved. Fails with
    /// `MetadataExtensionDisabled` when the ledger has no metadata store
    /// (resolution backs every entry, so a missing store is fatal here as
    /// on every other read path), with `OutOfRange` when the start index
    /// lies beyond the collection, and with `InvalidLimit` on a limit of
    /// zero.
    pub fn nft_tokens(&self, from_index: Option<u128>, limit: Option<u64>) -> (result: Result<
        Vec<Token>,
        TokenError,
    >)
        ensures
            match result {
                Ok(tokens) => {
                    &&& ledger_has_metadata_store(self.nft)
                    &&& start_spec(from_index) <= ledger_index(self.nft).len()
                    &&& limit != Some(0u64)
                    &&& tokens@.len() == page_len_spec(
                        limit,
                        ledger_index(self.nft).len() as int,
                        start_spec(from_index),
                    )
                    &&& forall|j: int| 0 <= j < tokens@.len()
                        ==> (#[trigger] tokens@[j])@ == self.resolved_token_view(
                            ledger_index(self.nft)[start_spec(from_index) + j],
                            ledger_owners(self.nft)[ledger_index(self.nft)[start_spec(from_index) + j]],
                        )
                },
                Err(e) => {
                    ||| (e == TokenError::MetadataExtensionDisabled
                        && !ledger_has_metadata_store(self.nft))
                    ||| (e == TokenError::OutOfRange
                        && ledger_has_metadata_store(self.nft)
                        && start_spec(from_index) > ledger_index(self.nft).len())
                    ||| (e == TokenError::InvalidLimit
                        && ledger_has_metadata_store(self.nft)
                        && start_spec(from_index) <= ledger_index(self.nft).len()
                        && limit == Some(0u64))
                },
            },
    {
        if !ledger_metadata_store_enabled(&self.nft) {
            return Err(TokenError::MetadataExtensionDisabled);
        }
        let start_index: u128 = match from_index {
            Some(v) => v,
            None => 0,
        };
        let total: u64 = ledger_token_count(&self.nft);
        if start_index > total as u128 {
            return Err(TokenError::OutOfRange);
        }
        if let Some(l) = limit {
            if l == 0 {
                return Err(TokenError::InvalidLimit);
            }
        }
        let entries = ledger_entries(&self.nft);
        assert(start_index <= entries@.len() as u128);
        let start: usize = start_index as usize;
        let remaining: usize = entries.len() - start;
        let take: usize = match limit {
            Some(l) => if (l as u128) < (remaining as u128) {
                l as usize
            } else {
                remaining
            },
            None => remaining,
        };
        let end: usize = start + take;
        let mut tokens: Vec<Token> = Vec::new();
        let mut i: usize = start;
        while i < end
            invariant
                start <= i <= end,
                end <= entries@.len(),
                end - start == page_len_spec(
                    limit,
                    ledger_index(self.nft).len() as int,
                    start as int,
                ),
                entries@.len() == ledger_index(self.nft).len(),
                forall|k: int| 0 <= k < entries@.len()
                    ==> (#[trigger] entries@[k]).0@ == ledger_index(self.nft)[k]
                        && entries@[k].1 == ledger_owners(self.nft)[ledger_index(self.nft)[k]],
                tokens@.len() == i - start,
                forall|j: int| 0 <= j < tokens@.len()
                    ==> (#[trigger] tokens@[j])@ == self.resolved_token_view(
                        ledger_index(self.nft)[start + j],
                        ledger_owners(self.nft)[ledger_index(self.nft)[start + j]],
                    ),
            decreases end - i,
        {
            let token_id = entries[i].0.clone();
            let owner_id = entries[i].1.clone();
            let token = self.enum_get_token(owner_id, token_id);
            tokens.push(token);
            i += 1;
        }
        Ok(tokens)
    }

    /// How many tokens the ledger's per-owner index lists for this owner.
    pub fn nft_supply_for_owner(&self, account_id: AccountId) -> (supply: u128)
        requires
            ledger_has_owner_index(self.nft),
        ensures
            supply == ledger_owner_tokens(self.nft, account_id).len(),
    {
        ledger_supply_for_owner(&self.nft, account_id)
    }

    /// One page of one owner's token-set index, in the index's order, each
    /// entry with its metadata resolved, under the same pagination contract
    /// as the global listing. Fails with `MetadataExtensionDisabled` when
    /// the ledger has no metadata store; an owner the index does not list
    /// yields an empty page whatever the arguments; otherwise a limit of
    /// zero fails with `InvalidLimit`, and a start index strictly beyond
    /// the owner's count fails with `OutOfRange` (a start index equal to it
    /// yields an empty page).
    pub fn nft_tokens_for_owner(
        &self,
        account_id: AccountId,
        from_index: Option<u128>,
        limit: Option<u64>,
    ) -> (result: Result<Vec<Token>, TokenError>)
        requires
            ledger_has_owner_index(self.nft),
        ensures
            match result {
                Ok(tokens) => {
                    &&& ledger_has_metadata_store(self.nft)
                    &&& {
                        ||| (!ledger_owner_listed(self.nft, account_id) && tokens@.len() == 0)
                        ||| {
                        &&& ledger_owner_listed(self.nft, account_id)
                        &&& limit != Some(0u64)
                        &&& start_spec(from_index) <= ledger_owner_tokens(self.nft, account_id).len()
                        &&& tokens@.len() == page_len_spec(
                            limit,
                            ledger_owner_tokens(self.nft, account_id).len() as int,
                            start_spec(from_index),
                        )
                        &&& forall|j: int| 0 <= j < tokens@.len()
                            ==> (#[trigger] tokens@[j])@ == self.resolved_token_view(
                                ledger_owner_tokens(self.nft, account_id)[start_spec(from_index) + j],
                                account_id,
                            )
                        }
                    }
                },
                Err(e) => {
                    ||| (e == TokenError::MetadataExtensionDisabled
                        && !ledger_has_metadata_store(self.nft))
                    ||| {
                        &&& ledger_has_metadata_store(self.nft)
                        &&& ledger_owner_listed(self.nft, account_id)
                        &&& {
                            ||| (e == TokenError::InvalidLimit && limit == Some(0u64))
                            ||| (e == TokenError::OutOfRange && limit != Some(0u64)
                                && start_spec(from_index)
                                    > ledger_owner_tokens(self.nft, account_id).len())
                        }
                    }
                },
            },
    {
        if !ledger_metadata_store_enabled(&self.nft) {
            return Err(TokenError::MetadataExtensionDisabled);
        }
        let token_ids = match ledger_owner_token_ids(&self.nft, &account_id) {
            Some(ids) => ids,
            None => {
                return Ok(Vec::new());
            },
        };
        if let Some(l) = limit {
            if l == 0 {
                return Err(TokenError::InvalidLimit);
            }
        }
        let start_index: u128 = match from_index {
            Some(v) => v,
            None => 0,
        };
        if start_index > token_ids.len() as u128 {
            return Err(TokenError::OutOfRange);
        }
        let start: usize = start_index as usize;
        let remaining: usize = token_ids.len() - start;
        let take: usize = match limit {
            Some(l) => if (l as u128) < (remaining as u128) {
                l as usize
            } else {
                remaining
            },
            None => remaining,
        };
        let end: usize = start + take;
        let mut tokens: Vec<Token> = Vec::new();
        let mut i: usize = start;
        while i < end
            invariant
                start <= i <= end,
                end <= token_ids@.len(),
                end - start == page_len_spec(
                    limit,
                    ledger_owner_tokens(self.nft, account_id).len() as int,
                    start as int,
                ),
                token_ids@.len() == ledger_owner_tokens(self.nft, account_id).len(),
                forall|k: int| 0 <= k < token_ids@.len()
                    ==> (#[trigger] token_ids@[k])@ == ledger_owner_tokens(self.nft, account_id)[k],
                tokens@.len() == i - start,
                forall|j: int| 0 <= j < tokens@.len()
                    ==> (#[trigger] tokens@[j])@ == self.resolved_token_view(
                        ledger_owner_tokens(self.nft, account_id)[start + j],
                        account_id,
                    ),
            decreases end - i,
        {
            let token_id = token_ids[i].clone();
            let owner_id = account_id.clone();
            let token = self.enum_get_token(owner_id, token_id);
            tokens.push(token);
            i += 1;
        }
        Ok(tokens)
    }
}

} // verus!
