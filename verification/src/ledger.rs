//! The trusted boundary to the external ledger: the component that owns
//! token ownership, approvals and the metadata key-value store. Everything
//! the library states about it is phrased over a handful of uninterpreted
//! views of the ledger value; each wrapper below names the ledger operation
//! it relies on.

use vstd::prelude::*;
use near_contract_standards::non_fungible_token::NonFungibleToken;
use near_contract_standards::non_fungible_token::enumeration::NonFungibleTokenEnumeration;
use near_contract_standards::non_fungible_token::events::NftMint;
use near_contract_standards::non_fungible_token::metadata::TokenMetadata as LedgerTokenMetadata;
use near_sdk::AccountId;
use near_sdk::PromiseOrValue;
use near_sdk::json_types::Base64VecU8;
use std::collections::HashMap;
use crate::token::{MetadataV, TokenMetadata, empty_approvals, empty_ids, empty_metadata_map, empty_owners};

verus! {

#[verifier::external_type_specification]
#[verifier::external_body]
pub struct ExNonFungibleToken(NonFungibleToken);

#[verifier::external_type_specification]
#[verifier::external_body]
pub struct ExLedgerTokenMetadata(LedgerTokenMetadata);

#[verifier::external_type_specification]
#[verifier::external_body]
pub struct ExAccountId(AccountId);

#[verifier::external_type_specification]
#[verifier::external_body]
#[verifier::reject_recursive_types(T)]
pub struct ExPromiseOrValue<T>(PromiseOrValue<T>);

/// The token ids the ledger's ownership index enumerates, in its order.
pub uninterp spec fn ledger_index(nft: NonFungibleToken) -> Seq<Seq<char>>;

/// The owner the ledger records for each minted token id.
pub uninterp spec fn ledger_owners(nft: NonFungibleToken) -> Map<Seq<char>, AccountId>;

/// The records the ledger's metadata store holds, keyed by token id.
pub uninterp spec fn ledger_metadata(nft: NonFungibleToken) -> Map<Seq<char>, MetadataV>;

/// Whether the ledger was configured with a metadata store.
pub uninterp spec fn ledger_has_metadata_store(nft: NonFungibleToken) -> bool;

/// Whether the ledger was configured with a per-owner token index.
pub uninterp spec fn ledger_has_owner_index(nft: NonFungibleToken) -> bool;

/// Whether the per-owner index holds an entry for this owner at all.
pub uninterp spec fn ledger_owner_listed(nft: NonFungibleToken, owner: AccountId) -> bool;

/// The token ids the per-owner index lists for this owner, in its order;
/// empty for an owner it does not list.
pub uninterp spec fn ledger_owner_tokens(nft: NonFungibleToken, owner: AccountId) -> Seq<Seq<char>>;

/// The approval set the ledger reports for a token id when a token record
/// is assembled; absent exactly when the approval extension is off.
pub uninterp spec fn ledger_approvals(nft: NonFungibleToken, id: Seq<char>) -> Option<Map<AccountId, u64>>;

/// The content of a record in the shape the ledger's metadata store takes.
pub uninterp spec fn stored_metadata_view(m: LedgerTokenMetadata) -> MetadataV;

/// Relies on `<AccountId as Clone>::clone`: the copy carries the same account
/// name as the original.
pub assume_specification [ <AccountId as Clone>::clone ](a: &AccountId) -> (r: AccountId)
    ensures
        r == *a,
;

/// Relies on `NonFungibleToken::new`: builds a ledger whose storage
/// namespaces start out empty, so every index is empty; the metadata store,
/// the per-owner index and the approval index exist exactly when their
/// prefixes are supplied, so a fresh ledger reports an empty approval set
/// for every id, or none at all without the approval extension. The caller
/// must keep the namespaces from colliding with ones already in use; a
/// collision is a configuration error the ledger does not detect.
#[verifier::external_body]
pub(crate) fn ledger_new(
    owner_by_id_prefix: Vec<u8>,
    owner_id: AccountId,
    token_metadata_prefix: Option<Vec<u8>>,
    enumeration_prefix: Option<Vec<u8>>,
    approval_prefix: Option<Vec<u8>>,
) -> (nft: NonFungibleToken)
    ensures
        ledger_index(nft) == empty_ids(),
        ledger_owners(nft) == empty_owners(),
        ledger_metadata(nft) == empty_metadata_map(),
        ledger_has_metadata_store(nft) == (token_metadata_prefix is Some),
        ledger_has_owner_index(nft) == (enumeration_prefix is Some),
        forall|a: AccountId| !ledger_owner_listed(nft, a),
        forall|a: AccountId| ledger_owner_tokens(nft, a) == empty_ids(),
        (approval_prefix is Some) ==> forall|i: Seq<char>|
            (#[trigger] ledger_approvals(nft, i)) == Some(empty_approvals()),
        (approval_prefix is None) ==> forall|i: Seq<char>|
            (#[trigger] ledger_approvals(nft, i)) is None,
{
    NonFungibleToken::new(
        owner_by_id_prefix,
        owner_id,
        token_metadata_prefix,
        enumeration_prefix,
        approval_prefix,
    )
}

/// Relies on `NonFungibleToken::internal_mint_with_refund`: refuses a taken
/// id, records the new token in the ownership index and the per-owner index,
/// stores its metadata record, and returns the new record's id, owner and
/// (empty or absent) approval set. The storage cost is charged against the
/// call's attached deposit with the rest refunded to `refund_to`; when the
/// deposit cannot cover it the host aborts the whole call, so nothing is
/// returned in that case.
#[verifier::external_body]
pub(crate) fn ledger_mint(
    nft: &mut NonFungibleToken,
    token_id: String,
    owner: AccountId,
    metadata: LedgerTokenMetadata,
    refund_to: AccountId,
) -> (minted: (String, AccountId, Option<HashMap<AccountId, u64>>))
    requires
        ledger_has_metadata_store(*old(nft)),
        !ledger_owners(*old(nft)).contains_key(token_id@),
    ensures
        ledger_index(*final(nft)).to_set() == ledger_index(*old(nft)).to_set().insert(token_id@),
        ledger_index(*final(nft)).len() == ledger_index(*old(nft)).len() + 1,
        ledger_index(*old(nft)).no_duplicates() ==> ledger_index(*final(nft)).no_duplicates(),
        ledger_owners(*final(nft)) == ledger_owners(*old(nft)).insert(token_id@, owner),
        ledger_metadata(*final(nft)) == ledger_metadata(*old(nft)).insert(token_id@, stored_metadata_view(metadata)),
        ledger_has_metadata_store(*final(nft)) == ledger_has_metadata_store(*old(nft)),
        ledger_has_owner_index(*final(nft)) == ledger_has_owner_index(*old(nft)),
        ledger_has_owner_index(*old(nft)) ==> ledger_owner_listed(*final(nft), owner),
        ledger_has_owner_index(*old(nft)) ==> ledger_owner_tokens(*final(nft), owner)
            == ledger_owner_tokens(*old(nft), owner).push(token_id@),
        !ledger_has_owner_index(*old(nft)) ==> ledger_owner_tokens(*final(nft), owner)
            == ledger_owner_tokens(*old(nft), owner),
        forall|a: AccountId| a != owner ==>
            #[trigger] ledger_owner_tokens(*final(nft), a) == ledger_owner_tokens(*old(nft), a),
        forall|a: AccountId| a != owner ==>
            #[trigger] ledger_owner_listed(*final(nft), a) == ledger_owner_listed(*old(nft), a),
        minted.0@ == token_id@,
        minted.1 == owner,
        match minted.2 {
            Some(h) => h@ == empty_approvals()
                && ledger_approvals(*final(nft), token_id@) == Some(empty_approvals()),
            None => ledger_approvals(*final(nft), token_id@) is None,
        },
{
    let t = nft.internal_mint_with_refund(token_id, owner, Some(metadata), Some(refund_to));
    (t.token_id, t.owner_id, t.approved_account_ids)
}

/// Relies on `LookupMap::remove` on the ledger's metadata store: deletes the
/// record for this id, if any, and touches nothing else; a no-op when the
/// ledger has no metadata store.
#[verifier::external_body]
pub(crate) fn ledger_remove_metadata(nft: &mut NonFungibleToken, token_id: &String)
    ensures
        ledger_has_metadata_store(*old(nft)) ==> ledger_metadata(*final(nft))
            == ledger_metadata(*old(nft)).remove(token_id@),
        !ledger_has_metadata_store(*old(nft)) ==> ledger_metadata(*final(nft))
            == ledger_metadata(*old(nft)),
        ledger_index(*final(nft)) == ledger_index(*old(nft)),
        ledger_owners(*final(nft)) == ledger_owners(*old(nft)),
        ledger_has_metadata_store(*final(nft)) == ledger_has_metadata_store(*old(nft)),
        ledger_has_owner_index(*final(nft)) == ledger_has_owner_index(*old(nft)),
        forall|a: AccountId| #[trigger] ledger_owner_tokens(*final(nft), a) == ledger_owner_tokens(*old(nft), a),
        forall|a: AccountId| #[trigger] ledger_owner_listed(*final(nft), a) == ledger_owner_listed(*old(nft), a),
        forall|i: Seq<char>| #[trigger] ledger_approvals(*final(nft), i) == ledger_approvals(*old(nft), i),
{
    nft.token_metadata_by_id.as_mut().and_then(|by_id| by_id.remove(token_id));
}

/// Relies on `TreeMap::get` on the ledger's ownership index: returns the
/// recorded owner of the id, or nothing for an id never minted.
#[verifier::external_body]
pub(crate) fn ledger_owner_of(nft: &NonFungibleToken, token_id: &String) -> (r: Option<AccountId>)
    ensures
        match r {
            Some(a) => ledger_owners(*nft).contains_key(token_id@)
                && a == ledger_owners(*nft)[token_id@],
            None => !ledger_owners(*nft).contains_key(token_id@),
        },
{
    nft.owner_by_id.get(token_id)
}

/// Relies on `LookupMap::get` on the ledger's metadata store: returns the
/// record stored under this id, or nothing when there is none or the store
/// is not configured.
#[verifier::external_body]
pub(crate) fn ledger_metadata_get(nft: &NonFungibleToken, token_id: &String) -> (r: Option<TokenMetadata>)
    ensures
        match r {
            Some(m) => ledger_has_metadata_store(*nft)
                && ledger_metadata(*nft).contains_key(token_id@)
                && m@ == ledger_metadata(*nft)[token_id@],
            None => !ledger_has_metadata_store(*nft)
                || !ledger_metadata(*nft).contains_key(token_id@),
        },
{
    let m = match nft.token_metadata_by_id.as_ref().and_then(|by_id| by_id.get(token_id)) {
        Some(m) => m,
        None => return None,
    };
    Some(TokenMetadata {
        title: m.title, description: m.description, media: m.media,
        media_hash: m.media_hash.map(|h| h.0), copies: m.copies,
        issued_at: m.issued_at, expires_at: m.expires_at, starts_at: m.starts_at,
        updated_at: m.updated_at, extra: m.extra, reference: m.reference,
        reference_hash: m.reference_hash.map(|h| h.0),
    })
}

/// Relies on the shape of the ledger's metadata record type: builds the
/// record that holds the same content as the given one.
#[verifier::external_body]
pub(crate) fn to_stored_metadata(m: TokenMetadata) -> (r: LedgerTokenMetadata)
    ensures
        stored_metadata_view(r) == m@,
{
    LedgerTokenMetadata {
        title: m.title, description: m.description, media: m.media,
        media_hash: m.media_hash.map(Base64VecU8), copies: m.copies,
        issued_at: m.issued_at, expires_at: m.expires_at, starts_at: m.starts_at,
        updated_at: m.updated_at, extra: m.extra, reference: m.reference,
        reference_hash: m.reference_hash.map(Base64VecU8),
    }
}

/// Relies on `Option::is_some` over the ledger's metadata store field.
#[verifier::external_body]
pub(crate) fn ledger_metadata_store_enabled(nft: &NonFungibleToken) -> (r: bool)
    ensures
        r == ledger_has_metadata_store(*nft),
{
    nft.token_metadata_by_id.is_some()
}

/// Relies on `TreeMap::len` on the ledger's ownership index.
#[verifier::external_body]
pub(crate) fn ledger_token_count(nft: &NonFungibleToken) -> (r: u64)
    ensures
        r == ledger_index(*nft).len(),
{
    nft.owner_by_id.len()
}

/// Relies on `TreeMap::iter` on the ledger's ownership index: yields every
/// (token id, owner) entry in the index's enumeration order.
#[verifier::external_body]
pub(crate) fn ledger_entries(nft: &NonFungibleToken) -> (r: Vec<(String, AccountId)>)
    ensures
        r@.len() == ledger_index(*nft).len(),
        forall|i: int| 0 <= i < r@.len() ==> (#[trigger] r@[i]).0@ == ledger_index(*nft)[i]
            && r@[i].1 == ledger_owners(*nft)[ledger_index(*nft)[i]],
{
    nft.owner_by_id.iter().collect()
}

/// Relies on `NonFungibleToken::nft_supply_for_owner`: the length of the
/// per-owner index entry, zero for an owner it does not list. Panics when
/// the ledger has no per-owner index, so that case is excluded.
#[verifier::external_body]
pub(crate) fn ledger_supply_for_owner(nft: &NonFungibleToken, owner: AccountId) -> (r: u128)
    requires
        ledger_has_owner_index(*nft),
    ensures
        r == ledger_owner_tokens(*nft, owner).len(),
{
    nft.nft_supply_for_owner(owner).0
}

/// Relies on `LookupMap::get` and `UnorderedSet::to_vec` on the per-owner
/// index: the ids listed for this owner, in the index's order, or nothing
/// for an owner it does not list. Panics when the ledger has no per-owner
/// index, so that case is excluded.
#[verifier::external_body]
pub(crate) fn ledger_owner_token_ids(nft: &NonFungibleToken, owner: &AccountId) -> (r: Option<Vec<String>>)
    requires
        ledger_has_owner_index(*nft),
    ensures
        match r {
            Some(v) => ledger_owner_listed(*nft, *owner)
                && v@.len() == ledger_owner_tokens(*nft, *owner).len()
                && forall|i: int| 0 <= i < v@.len() ==> (#[trigger] v@[i])@ == ledger_owner_tokens(*nft, *owner)[i],
            None => !ledger_owner_listed(*nft, *owner)
                && ledger_owner_tokens(*nft, *owner) == empty_ids(),
        },
{
    nft.tokens_per_owner.as_ref().unwrap().get(owner).map(|s| s.to_vec())
}

/// Relies on `LookupMap::get` on the ledger's approval index, with an empty
/// set for a token that has no entry: the approval set a token record
/// carries, absent exactly when the approval extension is off.
#[verifier::external_body]
pub(crate) fn ledger_token_approvals(nft: &NonFungibleToken, token_id: &String) -> (r: Option<HashMap<AccountId, u64>>)
    ensures
        match r {
            Some(h) => ledger_approvals(*nft, token_id@) == Some(h@),
            None => ledger_approvals(*nft, token_id@) is None,
        },
{
    nft.approvals_by_id.as_ref().map(|by_id| by_id.get(token_id).unwrap_or_default())
}

/// Relies on `NonFungibleToken::nft_transfer`: on every normal return the
/// token is re-recorded under the receiver, and the ledger maintains its
/// own indexes; the set of minted ids, the metadata store and both
/// extension flags are untouched. The ledger checks that the token exists,
/// the authorization and the one-yoctoNEAR deposit itself and aborts the
/// whole call when any fails, so nothing is returned then.
#[verifier::external_body]
pub(crate) fn ledger_transfer(
    nft: &mut NonFungibleToken,
    receiver_id: AccountId,
    token_id: String,
    approval_id: Option<u64>,
    memo: Option<String>,
)
    ensures
        ledger_index(*final(nft)) == ledger_index(*old(nft)),
        ledger_owners(*final(nft)) == ledger_owners(*old(nft)).insert(token_id@, receiver_id),
        ledger_owners(*final(nft)).dom() == ledger_owners(*old(nft)).dom(),
        ledger_metadata(*final(nft)) == ledger_metadata(*old(nft)),
        ledger_has_metadata_store(*final(nft)) == ledger_has_metadata_store(*old(nft)),
        ledger_has_owner_index(*final(nft)) == ledger_has_owner_index(*old(nft)),
{
    near_contract_standards::non_fungible_token::core::NonFungibleTokenCore::nft_transfer(
        nft, receiver_id, token_id, approval_id, memo,
    );
}

/// Relies on `NonFungibleToken::nft_transfer_call`: as `ledger_transfer`
/// (the token re-recorded under the receiver on every normal return), then
/// starts the receiver's callback; completion semantics belong to the
/// ledger and its host.
#[verifier::external_body]
pub(crate) fn ledger_transfer_call(
    nft: &mut NonFungibleToken,
    receiver_id: AccountId,
    token_id: String,
    approval_id: Option<u64>,
    memo: Option<String>,
    msg: String,
) -> (outcome: PromiseOrValue<bool>)
    ensures
        ledger_index(*final(nft)) == ledger_index(*old(nft)),
        ledger_owners(*final(nft)) == ledger_owners(*old(nft)).insert(token_id@, receiver_id),
        ledger_owners(*final(nft)).dom() == ledger_owners(*old(nft)).dom(),
        ledger_metadata(*final(nft)) == ledger_metadata(*old(nft)),
        ledger_has_metadata_store(*final(nft)) == ledger_has_metadata_store(*old(nft)),
        ledger_has_owner_index(*final(nft)) == ledger_has_owner_index(*old(nft)),
{
    near_contract_standards::non_fungible_token::core::NonFungibleTokenCore::nft_transfer_call(
        nft, receiver_id, token_id, approval_id, memo, msg,
    )
}

/// Relies on `NftMint::emit`: writes the standard mint notification to the
/// host's log; no contract state changes.
#[verifier::external_body]
pub(crate) fn emit_mint_event(owner_id: &AccountId, token_id: &String) {
    NftMint { owner_id, token_ids: &[token_id], memo: None }.emit();
}

} // verus!
