//! Properties of the ledger that relate several operations or hold in every
//! state, proved from the operations' contracts.
use vstd::prelude::*;
use crate::account::valid_account_id;
use crate::contract::{page, Contract, NftError, MAX_NFT_MINT, MAX_ROYALTY_SHARES};
use crate::metadata::TokenMetadata;

verus! {

/// In every consistent state, an id is listed under an owner in the
/// ownership index exactly when the registry gives that token that owner.
pub proof fn law_ownership_bijection(c: &Contract, o: Seq<char>, id: Seq<char>)
    requires
        c.wf(),
    ensures
        c.owner_tokens(o).contains(id) <==> (c.tokens().contains_key(id) && c.tokens()[id].owner_id@ == o),
{
    c.lemma_owner_tokens(o);
}

/// Approving the same delegate of a token twice in a row stores a strictly
/// larger approval id, and the id of the first approval no longer matches.
pub proof fn law_reapproval_refreshes_id(
    c0: &Contract,
    c1: &Contract,
    c2: &Contract,
    caller_id: Seq<char>,
    token_id: Seq<char>,
    account_id: Seq<char>,
)
    requires
        c0.wf(),
        c0.approve_error(caller_id, token_id, account_id) is None,
        c0.approve_step(c1, token_id, account_id),
        c1.approve_error(caller_id, token_id, account_id) is None,
        c1.approve_step(c2, token_id, account_id),
    ensures
        c2.tokens()[token_id].approved_account_ids@[account_id]
            > c1.tokens()[token_id].approved_account_ids@[account_id],
        !c2.approved(token_id, account_id, Some(c1.tokens()[token_id].approved_account_ids@[account_id])),
{
}

/// After a transfer, no delegate is approved for the token, under any
/// approval id or none.
pub proof fn law_transfer_clears_approvals(
    c0: &Contract,
    c1: &Contract,
    token_id: Seq<char>,
    receiver_id: Seq<char>,
    delegate: Seq<char>,
    approval_id: Option<u64>,
)
    requires
        c0.wf(),
        c0.transfer_step(c1, token_id, receiver_id),
    ensures
        !c1.approved(token_id, delegate, approval_id),
{
}

/// The mint counter never passes the cap. Below the cap a valid privileged
/// mint of a new id passes every check; at the cap it fails with
/// `CapExceeded`, which leaves the state as it was.
pub proof fn law_mint_cap(
    c: &Contract,
    predecessor_id: Seq<char>,
    current_account_id: Seq<char>,
    receiver_id: Seq<char>,
    token_id: Seq<char>,
)
    requires
        c.wf(),
        valid_account_id(receiver_id),
        predecessor_id == current_account_id,
        c.royalties().len() <= MAX_ROYALTY_SHARES,
        !c.tokens().contains_key(token_id),
    ensures
        c.minted() <= MAX_NFT_MINT,
        c.token_ids().len() <= MAX_NFT_MINT,
        c.minted() < MAX_NFT_MINT ==> c.mint_error(predecessor_id, current_account_id, receiver_id, token_id)
            is None,
        c.minted() == MAX_NFT_MINT ==> c.mint_error(predecessor_id, current_account_id, receiver_id, token_id)
            == Some(NftError::CapExceeded),
{
    c.lemma_registry();
}

/// A minted token reads back with the receiver as owner, the metadata given
/// at mint and no approvals; after a transfer it reads back with the new
/// owner, the same metadata and no approvals.
pub proof fn law_mint_transfer_round_trip(
    c0: &Contract,
    c1: &Contract,
    c2: &Contract,
    token_id: Seq<char>,
    owner_a: Seq<char>,
    owner_b: Seq<char>,
    metadata: TokenMetadata,
)
    requires
        c0.wf(),
        c0.minted_to(c1, token_id, owner_a, metadata),
        c1.transfer_step(c2, token_id, owner_b),
    ensures
        c1.tokens().contains_key(token_id),
        c1.tokens()[token_id].owner_id@ == owner_a,
        c1.token_metadata()[token_id] == metadata,
        c1.tokens()[token_id].approved_account_ids@ == Map::<Seq<char>, u64>::empty(),
        c2.tokens().contains_key(token_id),
        c2.tokens()[token_id].owner_id@ == owner_b,
        c2.token_metadata()[token_id] == metadata,
        c2.tokens()[token_id].approved_account_ids@ == Map::<Seq<char>, u64>::empty(),
{
}

/// Two consecutive windows of a paginated listing, the second starting where
/// the first ends, together make the window of their joint length.
pub proof fn law_pages_concatenate(ids: Seq<Seq<char>>, from: nat, l1: nat, l2: nat)
    ensures
        page(ids, from as int, l1 as int) + page(ids, (from + l1) as int, l2 as int) == page(
            ids,
            from as int,
            (l1 + l2) as int,
        ),
{
    assert(page(ids, from as int, l1 as int) + page(ids, (from + l1) as int, l2 as int) =~= page(
        ids,
        from as int,
        (l1 + l2) as int,
    ));
}

/// A window from the start that is at least as long as an owner's listing is
/// the whole listing, and the listing holds each id whose token that owner
/// holds, once, and no other id.
pub proof fn law_enumeration_complete(c: &Contract, o: Seq<char>, limit: nat)
    requires
        c.wf(),
        limit >= c.owner_tokens(o).len(),
    ensures
        page(c.owner_tokens(o), 0, limit as int) == c.owner_tokens(o),
        c.owner_tokens(o).no_duplicates(),
        c.owner_tokens(o).to_set() == Set::new(
            |id: Seq<char>| c.tokens().contains_key(id) && c.tokens()[id].owner_id@ == o,
        ),
{
    c.lemma_owner_tokens(o);
    assert(page(c.owner_tokens(o), 0, limit as int) =~= c.owner_tokens(o));
    assert(c.owner_tokens(o).to_set() =~= Set::new(
        |id: Seq<char>| c.tokens().contains_key(id) && c.tokens()[id].owner_id@ == o,
    ));
}

} // verus!
