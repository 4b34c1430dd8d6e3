//! The library's laws: properties that relate several operations, stated
//! over the same views the operations' own contracts use.

use vstd::prelude::*;
use near_sdk::AccountId;
use crate::contract::{NonFungibleTokenClone, clone_count_spec, saturating_bump};
use crate::ledger::{ledger_has_metadata_store, ledger_index, ledger_metadata, ledger_owners};
use crate::registry::registry_view;

verus! {

impl NonFungibleTokenClone {
    /// A clone minted against an origin reads exactly the origin's stored
    /// metadata record, while its owner stays whatever owner the clone was
    /// minted for — independent of who owns the origin.
    pub proof fn lemma_clone_reads_origin_record(self, clone_id: Seq<char>, owner: AccountId)
        requires
            registry_view(self.nft_clone_from_id).contains_key(clone_id),
            ledger_has_metadata_store(self.nft),
            ledger_metadata(self.nft).contains_key(registry_view(self.nft_clone_from_id)[clone_id]),
        ensures
            self.resolved_token_view(clone_id, owner).metadata == Some(
                ledger_metadata(self.nft)[registry_view(self.nft_clone_from_id)[clone_id]],
            ),
            self.resolved_token_view(clone_id, owner).owner_id == owner,
    {
    }

    /// Two clones registered against the same origin resolve to identical
    /// metadata, whoever owns each of them.
    pub proof fn lemma_clones_share_metadata(self, clone_a: Seq<char>, clone_b: Seq<char>)
        requires
            registry_view(self.nft_clone_from_id).contains_key(clone_a),
            registry_view(self.nft_clone_from_id).contains_key(clone_b),
            registry_view(self.nft_clone_from_id)[clone_a]
                == registry_view(self.nft_clone_from_id)[clone_b],
        ensures
            self.resolved_metadata_spec(clone_a) == self.resolved_metadata_spec(clone_b),
    {
    }

    /// The ledger's index never lists a minted id twice: however many
    /// clones are minted, their ids are pairwise distinct.
    pub proof fn lemma_minted_ids_distinct(self)
        requires
            self.wf(),
        ensures
            ledger_index(self.nft).no_duplicates(),
    {
    }

    /// An id that the ledger's index never listed has no owner record, so
    /// looking it up fails with `NotFound`.
    pub proof fn lemma_unminted_id_unknown(self, id: Seq<char>)
        requires
            self.wf(),
            !ledger_index(self.nft).to_set().contains(id),
        ensures
            !ledger_owners(self.nft).contains_key(id),
    {
    }

    /// A registered clone id holds no metadata record of its own: its
    /// metadata is observable only through resolution to its origin.
    pub proof fn lemma_clone_stores_no_metadata(self, clone_id: Seq<char>)
        requires
            self.wf(),
            registry_view(self.nft_clone_from_id).contains_key(clone_id),
        ensures
            !ledger_metadata(self.nft).contains_key(clone_id),
    {
    }
}

/// Recording one clone mint against an origin raises that origin's count by
/// exactly one (saturating at the numeric ceiling) and leaves the count of
/// every other origin unchanged.
pub proof fn lemma_clone_count_update(
    counter: Map<Seq<char>, u128>,
    origin: Seq<char>,
    other: Seq<char>,
)
    requires
        other != origin,
    ensures
        clone_count_spec(
            counter.insert(origin, saturating_bump(clone_count_spec(counter, origin))),
            origin,
        ) == saturating_bump(clone_count_spec(counter, origin)),
        clone_count_spec(counter, origin) < u128::MAX ==> clone_count_spec(
            counter.insert(origin, saturating_bump(clone_count_spec(counter, origin))),
            origin,
        ) == clone_count_spec(counter, origin) + 1,
        clone_count_spec(
            counter.insert(origin, saturating_bump(clone_count_spec(counter, origin))),
            other,
        ) == clone_count_spec(counter, other),
{
}

} // verus!
