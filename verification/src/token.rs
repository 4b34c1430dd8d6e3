use vstd::prelude::*;
use near_sdk::AccountId;
use std::collections::HashMap;

verus! {

/// Descriptive metadata for a token, mirroring the record shape that the
/// ledger's metadata store persists.
#[derive(Clone, Debug, PartialEq)]
pub struct TokenMetadata {
    pub title: Option<String>,
    pub description: Option<String>,
    pub media: Option<String>,
    pub media_hash: Option<Vec<u8>>,
    pub copies: Option<u64>,
    pub issued_at: Option<String>,
    pub expires_at: Option<String>,
    pub starts_at: Option<String>,
    pub updated_at: Option<String>,
    pub extra: Option<String>,
    pub reference: Option<String>,
    pub reference_hash: Option<Vec<u8>>,
}

/// Mathematical content of a metadata record.
pub ghost struct MetadataV {
    pub title: Option<Seq<char>>,
    pub description: Option<Seq<char>>,
    pub media: Option<Seq<char>>,
    pub media_hash: Option<Seq<u8>>,
    pub copies: Option<u64>,
    pub issued_at: Option<Seq<char>>,
    pub expires_at: Option<Seq<char>>,
    pub starts_at: Option<Seq<char>>,
    pub updated_at: Option<Seq<char>>,
    pub extra: Option<Seq<char>>,
    pub reference: Option<Seq<char>>,
    pub reference_hash: Option<Seq<u8>>,
}

pub open spec fn opt_str_view(o: Option<String>) -> Option<Seq<char>> {
    match o {
        Some(s) => Some(s@),
        None => None,
    }
}

pub open spec fn opt_bytes_view(o: Option<Vec<u8>>) -> Option<Seq<u8>> {
    match o {
        Some(b) => Some(b@),
        None => None,
    }
}

impl View for TokenMetadata {
    type V = MetadataV;

    open spec fn view(&self) -> MetadataV {
        MetadataV {
            title: opt_str_view(self.title),
            description: opt_str_view(self.description),
            media: opt_str_view(self.media),
            media_hash: opt_bytes_view(self.media_hash),
            copies: self.copies,
            issued_at: opt_str_view(self.issued_at),
            expires_at: opt_str_view(self.expires_at),
            starts_at: opt_str_view(self.starts_at),
            updated_at: opt_str_view(self.updated_at),
            extra: opt_str_view(self.extra),
            reference: opt_str_view(self.reference),
            reference_hash: opt_bytes_view(self.reference_hash),
        }
    }
}

/// The empty contents of each freshly created index or store.
pub open spec fn empty_ids() -> Seq<Seq<char>> {
    Seq::empty()
}

pub open spec fn empty_owners() -> Map<Seq<char>, AccountId> {
    Map::empty()
}

pub open spec fn empty_metadata_map() -> Map<Seq<char>, MetadataV> {
    Map::empty()
}

pub open spec fn empty_registry() -> Map<Seq<char>, Seq<char>> {
    Map::empty()
}

pub open spec fn empty_counter() -> Map<Seq<char>, u128> {
    Map::empty()
}

pub open spec fn empty_approvals() -> Map<AccountId, u64> {
    Map::empty()
}

/// The all-empty record used as a mint placeholder.
pub open spec fn empty_metadata_view() -> MetadataV {
    MetadataV {
        title: None,
        description: None,
        media: None,
        media_hash: None,
        copies: None,
        issued_at: None,
        expires_at: None,
        starts_at: None,
        updated_at: None,
        extra: None,
        reference: None,
        reference_hash: None,
    }
}

/// Builds the all-empty placeholder record that a clone mint hands to the
/// ledger before deleting it again.
pub fn empty_metadata() -> (m: TokenMetadata)
    ensures
        m@ == empty_metadata_view(),
{
    TokenMetadata {
        title: None,
        description: None,
        media: None,
        media_hash: None,
        copies: None,
        issued_at: None,
        expires_at: None,
        starts_at: None,
        updated_at: None,
        extra: None,
        reference: None,
        reference_hash: None,
    }
}

/// A user-facing token record: identity, ownership, approvals and the
/// metadata that resolution produced for it.
#[derive(Debug)]
pub struct Token {
    pub token_id: String,
    pub owner_id: AccountId,
    pub metadata: Option<TokenMetadata>,
    pub approved_account_ids: Option<HashMap<AccountId, u64>>,
}

/// Mathematical content of a token record.
pub ghost struct TokenV {
    pub token_id: Seq<char>,
    pub owner_id: AccountId,
    pub metadata: Option<MetadataV>,
    pub approved_account_ids: Option<Map<AccountId, u64>>,
}

impl View for Token {
    type V = TokenV;

    open spec fn view(&self) -> TokenV {
        TokenV {
            token_id: self.token_id@,
            owner_id: self.owner_id,
            metadata: match self.metadata {
                Some(m) => Some(m@),
                None => None,
            },
            approved_account_ids: match self.approved_account_ids {
                Some(h) => Some(h@),
                None => None,
            },
        }
    }
}

/// Why a read or a mint was refused.
#[derive(Clone, Copy, Debug, PartialEq, Eq)]
pub enum TokenError {
    /// The requested token id has no record in the ledger.
    NotFound,
    /// The ledger was configured without a metadata store.
    MetadataExtensionDisabled,
    /// A pagination start index lies beyond the collection.
    OutOfRange,
    /// A pagination limit of zero was given.
    InvalidLimit,
}

} // verus!
