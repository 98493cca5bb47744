use nft::contract::{
    Contract, NftError, DEFAULT_PAGE_LIMIT, MAX_NFT_MINT, MINT_CALL_DEPOSIT, MINT_PRICE, RECEIVER_ROYALTY,
};
use nft::events::{EventLog, EventLogVariant, NFT_METADATA_SPEC, NFT_STANDARD_NAME};
use nft::metadata::TokenMetadata;

const SELF_ID: &str = "nft.near";

fn meta(title: &str) -> TokenMetadata {
    TokenMetadata {
        title: Some(title.to_string()),
        description: Some("a token".to_string()),
        media: Some("https://example.org/a.png".to_string()),
        media_hash: None,
        copies: Some(1),
        issued_at: Some(7),
        expires_at: None,
        starts_at: None,
        updated_at: None,
        extra: None,
        reference: None,
        reference_hash: Some("aGFzaA==".to_string()),
    }
}

fn fresh() -> Contract {
    Contract::new_default_meta("owner.near".to_string(), "royalty.near".to_string()).unwrap()
}

fn mint(c: &mut Contract, id: &str, owner: &str) -> Result<EventLog, NftError> {
    c.nft_mint_owner(SELF_ID, SELF_ID, owner.to_string(), id.to_string(), meta(id))
}

fn transfer(c: &mut Contract, caller: &str, to: &str, id: &str) -> Result<EventLog, NftError> {
    c.nft_transfer(caller, 1, to.to_string(), id, None, None, None)
}

fn owner_of(c: &Contract, id: &str) -> String {
    c.nft_token(id).unwrap().owner_id
}

fn ids_of(c: &Contract, owner: &str, from: Option<u64>, limit: Option<u64>) -> Vec<String> {
    c.nft_tokens_for_owner(owner, from, limit).into_iter().map(|t| t.token_id).collect()
}

#[test]
fn default_meta_contract_is_empty() {
    let c = fresh();
    assert_eq!(c.nft_total_supply(), 0);
    assert_eq!(c.nft_supply_for_owner("alice.near"), 0);
    assert!(c.nft_token("x").is_none());
    let m = c.nft_metadata();
    assert_eq!(m.spec, "nft-1.0.0");
    assert_eq!(m.name, "Near Hub - OMMM NFT Comics");
    assert_eq!(m.symbol, "OMMM");
    assert!(m.icon.unwrap().starts_with("data:image/svg+xml"));
    assert!(m.base_uri.is_none());
}

#[test]
fn default_meta_rejects_invalid_accounts() {
    let bad = ["A", "a", "Alice.near", "alice..near", "-alice", "alice_", "al ice", "\u{e9}t\u{e9}"];
    for b in bad.iter() {
        assert_eq!(
            Contract::new_default_meta(b.to_string(), "royalty.near".to_string()).err(),
            Some(NftError::InvalidAccount)
        );
        assert_eq!(
            Contract::new_default_meta("owner.near".to_string(), b.to_string()).err(),
            Some(NftError::InvalidAccount)
        );
    }
    let long = "a".repeat(65);
    assert!(Contract::new_default_meta(long, "royalty.near".to_string()).is_err());
    let longest = "a".repeat(64);
    assert!(Contract::new_default_meta(longest, "royalty.near".to_string()).is_ok());
    assert!(Contract::new_default_meta("a-b_c.d0".to_string(), "aa".to_string()).is_ok());
}

#[test]
fn mint_then_token_round_trip() {
    let mut c = fresh();
    let ev = mint(&mut c, "t1", "alice.near").unwrap();
    assert_eq!(ev.standard, NFT_STANDARD_NAME);
    assert_eq!(ev.version, NFT_METADATA_SPEC);
    match &ev.event {
        EventLogVariant::NftMint(v) => {
            assert_eq!(v.len(), 1);
            assert_eq!(v[0].owner_id, "alice.near");
            assert_eq!(v[0].token_ids, vec!["t1".to_string()]);
            assert!(v[0].memo.is_none());
        }
        _ => panic!("not a mint event"),
    }
    let t = c.nft_token("t1").unwrap();
    assert_eq!(t.token_id, "t1");
    assert_eq!(t.owner_id, "alice.near");
    assert_eq!(t.metadata.title.as_deref(), Some("t1"));
    assert_eq!(t.metadata.reference_hash.as_deref(), Some("aGFzaA=="));
    assert_eq!(t.metadata.issued_at, Some(7));
    assert_eq!(t.approved_account_ids.len(), 0);
    assert_eq!(t.royalty.len(), 1);
    assert_eq!(t.royalty.get("royalty.near").copied(), Some(RECEIVER_ROYALTY));
    assert_eq!(c.nft_total_supply(), 1);
}

#[test]
fn transfer_then_token_round_trip() {
    let mut c = fresh();
    mint(&mut c, "t1", "alice.near").unwrap();
    c.nft_approve("alice.near", "t1", "market.near".to_string()).unwrap();
    let ev = c
        .nft_transfer("alice.near", 1, "bob.near".to_string(), "t1", None, None, Some("gift".to_string()))
        .unwrap();
    match &ev.event {
        EventLogVariant::NftTransfer(v) => {
            assert_eq!(v.len(), 1);
            assert!(v[0].authorized_id.is_none());
            assert_eq!(v[0].old_owner_id, "alice.near");
            assert_eq!(v[0].new_owner_id, "bob.near");
            assert_eq!(v[0].token_ids, vec!["t1".to_string()]);
            assert_eq!(v[0].memo.as_deref(), Some("gift"));
        }
        _ => panic!("not a transfer event"),
    }
    let t = c.nft_token("t1").unwrap();
    assert_eq!(t.owner_id, "bob.near");
    assert_eq!(t.approved_account_ids.len(), 0);
    assert_eq!(t.metadata.title.as_deref(), Some("t1"));
    assert_eq!(c.nft_supply_for_owner("alice.near"), 0);
    assert_eq!(c.nft_supply_for_owner("bob.near"), 1);
}

#[test]
fn ownership_index_matches_registry() {
    let mut c = fresh();
    let owners = ["alice.near", "bob.near", "carol.near"];
    for i in 0..12 {
        mint(&mut c, &format!("id{}", i), owners[i % 3]).unwrap();
    }
    let moves = [(0, "alice.near", "bob.near"), (3, "alice.near", "carol.near"), (1, "bob.near", "alice.near"),
        (0, "bob.near", "carol.near"), (6, "alice.near", "alice.near")];
    for (i, from, to) in moves.iter() {
        transfer(&mut c, from, to, &format!("id{}", i)).unwrap();
        for o in owners.iter() {
            let listed = ids_of(&c, o, None, Some(100));
            assert_eq!(listed.len() as u64, c.nft_supply_for_owner(o));
            for id in listed.iter() {
                assert_eq!(owner_of(&c, id), *o);
            }
            for j in 0..12 {
                let id = format!("id{}", j);
                assert_eq!(owner_of(&c, &id) == *o, listed.contains(&id));
            }
        }
    }
    assert_eq!(c.nft_supply_for_owner("carol.near"), 6);
    assert_eq!(c.nft_supply_for_owner("alice.near"), 3);
    assert_eq!(c.nft_supply_for_owner("bob.near"), 3);
}

#[test]
fn reapproval_issues_a_new_id() {
    let mut c = fresh();
    mint(&mut c, "t1", "alice.near").unwrap();
    let ev = c.nft_approve("alice.near", "t1", "market.near".to_string()).unwrap();
    match &ev.event {
        EventLogVariant::NftApprove(v) => {
            assert_eq!(v[0].owner_id, "alice.near");
            assert_eq!(v[0].token_id, "t1");
            assert_eq!(v[0].account_id, "market.near");
            assert_eq!(v[0].approval_id, 0);
        }
        _ => panic!("not an approve event"),
    }
    assert!(c.nft_is_approved("t1", "market.near", Some(0)));
    assert!(c.nft_is_approved("t1", "market.near", None));
    c.nft_approve("alice.near", "t1", "market.near".to_string()).unwrap();
    assert!(!c.nft_is_approved("t1", "market.near", Some(0)));
    assert!(c.nft_is_approved("t1", "market.near", Some(1)));
    c.nft_approve("alice.near", "t1", "other.near".to_string()).unwrap();
    assert!(c.nft_is_approved("t1", "other.near", Some(2)));
    let t = c.nft_token("t1").unwrap();
    assert_eq!(t.approved_account_ids.get("market.near").copied(), Some(1));
    assert_eq!(t.approved_account_ids.get("other.near").copied(), Some(2));
    assert!(!c.nft_is_approved("t2", "market.near", None));
}

#[test]
fn transfer_clears_approvals() {
    let mut c = fresh();
    mint(&mut c, "t1", "alice.near").unwrap();
    c.nft_approve("alice.near", "t1", "market.near".to_string()).unwrap();
    c.nft_approve("alice.near", "t1", "other.near".to_string()).unwrap();
    let ev = c.nft_transfer("market.near", 1, "bob.near".to_string(), "t1", None, Some(0), None).unwrap();
    match &ev.event {
        EventLogVariant::NftTransfer(v) => assert_eq!(v[0].authorized_id.as_deref(), Some("market.near")),
        _ => panic!("not a transfer event"),
    }
    assert!(!c.nft_is_approved("t1", "market.near", None));
    assert!(!c.nft_is_approved("t1", "other.near", None));
    assert!(!c.nft_is_approved("t1", "other.near", Some(1)));
    c.nft_approve("bob.near", "t1", "market.near".to_string()).unwrap();
    assert!(c.nft_is_approved("t1", "market.near", Some(2)));
}

#[test]
fn revoke_of_unapproved_delegate_changes_nothing() {
    let mut c = fresh();
    mint(&mut c, "t1", "alice.near").unwrap();
    c.nft_approve("alice.near", "t1", "market.near".to_string()).unwrap();
    let ev = c.nft_revoke("alice.near", "t1", "stranger.near").unwrap();
    match &ev.event {
        EventLogVariant::NftRevoke(v) => assert_eq!(v[0].account_id.as_deref(), Some("stranger.near")),
        _ => panic!("not a revoke event"),
    }
    let t = c.nft_token("t1").unwrap();
    assert_eq!(t.owner_id, "alice.near");
    assert_eq!(t.approved_account_ids.len(), 1);
    assert!(c.nft_is_approved("t1", "market.near", Some(0)));
    c.nft_revoke("alice.near", "t1", "market.near").unwrap();
    assert!(!c.nft_is_approved("t1", "market.near", None));
    assert!(c.nft_revoke("alice.near", "t1", "market.near").is_ok());
    c.nft_approve("alice.near", "t1", "market.near".to_string()).unwrap();
    assert!(c.nft_is_approved("t1", "market.near", Some(1)));
}

#[test]
fn revoke_all_drops_every_approval() {
    let mut c = fresh();
    mint(&mut c, "t1", "alice.near").unwrap();
    c.nft_approve("alice.near", "t1", "a.near".to_string()).unwrap();
    c.nft_approve("alice.near", "t1", "b.near".to_string()).unwrap();
    assert_eq!(c.nft_revoke_all("bob.near", "t1").err(), Some(NftError::NotOwner));
    let ev = c.nft_revoke_all("alice.near", "t1").unwrap();
    match &ev.event {
        EventLogVariant::NftRevoke(v) => assert!(v[0].account_id.is_none()),
        _ => panic!("not a revoke event"),
    }
    assert_eq!(c.nft_token("t1").unwrap().approved_account_ids.len(), 0);
    assert_eq!(c.nft_revoke_all("alice.near", "nope").err(), Some(NftError::UnknownAsset));
}

#[test]
fn mint_cap_is_enforced() {
    let mut c = fresh();
    for i in 0..MAX_NFT_MINT {
        mint(&mut c, &format!("id{}", i), "alice.near").unwrap();
    }
    assert_eq!(c.nft_total_supply(), MAX_NFT_MINT as u64);
    assert_eq!(mint(&mut c, "extra", "alice.near").err(), Some(NftError::CapExceeded));
    assert!(c.nft_token("extra").is_none());
    assert_eq!(c.nft_total_supply(), MAX_NFT_MINT as u64);
    assert_eq!(c.nft_supply_for_owner("alice.near"), MAX_NFT_MINT as u64);
    assert_eq!(
        c.nft_mint(MINT_PRICE, "bob.near".to_string(), "i.png".to_string(), "a.glb".to_string()).err(),
        Some(NftError::CapExceeded)
    );
}

#[test]
fn pages_reassemble_to_the_owner_listing() {
    let mut c = fresh();
    for i in 0..23 {
        let owner = if i % 4 == 0 { "bob.near" } else { "alice.near" };
        mint(&mut c, &format!("id{}", i), owner).unwrap();
    }
    let all = ids_of(&c, "alice.near", None, Some(1000));
    assert_eq!(all.len(), 17);
    for size in 1..20u64 {
        let mut joined: Vec<String> = Vec::new();
        let mut from = 0u64;
        loop {
            let page = ids_of(&c, "alice.near", Some(from), Some(size));
            if page.is_empty() {
                break;
            }
            assert!(page.len() as u64 <= size);
            joined.extend(page);
            from += size;
        }
        assert_eq!(joined, all);
    }
    let mut sorted = all.clone();
    sorted.sort();
    sorted.dedup();
    assert_eq!(sorted.len(), 17);
    for id in all.iter() {
        assert_eq!(owner_of(&c, id), "alice.near");
    }
    assert!(ids_of(&c, "alice.near", Some(17), None).is_empty());
    assert!(ids_of(&c, "alice.near", Some(u64::MAX), Some(u64::MAX)).is_empty());
    assert!(ids_of(&c, "nobody.near", None, None).is_empty());
    assert_eq!(ids_of(&c, "alice.near", Some(15), Some(u64::MAX)).len(), 2);
}

#[test]
fn default_page_limit_applies() {
    let mut c = fresh();
    for i in 0..60 {
        mint(&mut c, &format!("id{}", i), "alice.near").unwrap();
    }
    assert_eq!(ids_of(&c, "alice.near", None, None).len() as u64, DEFAULT_PAGE_LIMIT);
    let all = c.nft_tokens(None, None);
    assert_eq!(all.len() as u64, DEFAULT_PAGE_LIMIT);
    assert_eq!(all[0].token_id, "id0");
    assert_eq!(all[49].token_id, "id49");
    let tail = c.nft_tokens(Some(55), Some(10));
    let tail_ids: Vec<String> = tail.into_iter().map(|t| t.token_id).collect();
    assert_eq!(tail_ids, vec!["id55", "id56", "id57", "id58", "id59"]);
}

#[test]
fn mint_errors() {
    let mut c = fresh();
    assert_eq!(
        c.nft_mint_owner("bob.near", SELF_ID, "alice.near".to_string(), "t".to_string(), meta("t")).err(),
        Some(NftError::Unauthorized)
    );
    assert_eq!(
        c.nft_mint_owner(SELF_ID, SELF_ID, "Alice".to_string(), "t".to_string(), meta("t")).err(),
        Some(NftError::InvalidAccount)
    );
    mint(&mut c, "t", "alice.near").unwrap();
    assert_eq!(mint(&mut c, "t", "bob.near").err(), Some(NftError::DuplicateId));
    assert_eq!(owner_of(&c, "t"), "alice.near");
    assert_eq!(c.nft_total_supply(), 1);
    assert_eq!(c.nft_supply_for_owner("bob.near"), 0);
}

#[test]
fn paid_mint_request() {
    let c = fresh();
    assert_eq!(
        c.nft_mint(MINT_PRICE - 1, "bob.near".to_string(), "i.png".to_string(), "a.glb".to_string()).err(),
        Some(NftError::InsufficientPayment)
    );
    let call = c.nft_mint(MINT_PRICE, "bob.near".to_string(), "i.png".to_string(), "a.glb".to_string()).unwrap();
    assert_eq!(call.receiver_id, "bob.near");
    assert_eq!(call.image, "i.png");
    assert_eq!(call.asset, "a.glb");
    assert_eq!(call.deposit, MINT_CALL_DEPOSIT);
}

#[test]
fn transfer_errors() {
    let mut c = fresh();
    mint(&mut c, "t1", "alice.near").unwrap();
    c.nft_approve("alice.near", "t1", "market.near".to_string()).unwrap();
    assert_eq!(
        c.nft_transfer("alice.near", 0, "bob.near".to_string(), "t1", None, None, None).err(),
        Some(NftError::InsufficientPayment)
    );
    assert_eq!(
        c.nft_transfer("alice.near", 2, "bob.near".to_string(), "t1", None, None, None).err(),
        Some(NftError::InsufficientPayment)
    );
    assert_eq!(transfer(&mut c, "alice.near", "Bob!", "t1").err(), Some(NftError::InvalidAccount));
    assert_eq!(transfer(&mut c, "alice.near", "bob.near", "t9").err(), Some(NftError::UnknownAsset));
    assert_eq!(transfer(&mut c, "eve.near", "bob.near", "t1").err(), Some(NftError::Unauthorized));
    assert_eq!(
        c.nft_transfer("market.near", 1, "bob.near".to_string(), "t1", None, Some(5), None).err(),
        Some(NftError::Unauthorized)
    );
    assert_eq!(
        c.nft_transfer("alice.near", 1, "bob.near".to_string(), "t1", Some("carol.near".to_string()), None, None)
            .err(),
        Some(NftError::OwnerMismatch)
    );
    assert_eq!(owner_of(&c, "t1"), "alice.near");
    assert!(c.nft_is_approved("t1", "market.near", Some(0)));
    assert!(c
        .nft_transfer("alice.near", 1, "bob.near".to_string(), "t1", Some("alice.near".to_string()), None, None)
        .is_ok());
    assert_eq!(owner_of(&c, "t1"), "bob.near");
}

#[test]
fn approve_errors() {
    let mut c = fresh();
    mint(&mut c, "t1", "alice.near").unwrap();
    assert_eq!(
        c.nft_approve("alice.near", "t2", "market.near".to_string()).err(),
        Some(NftError::UnknownAsset)
    );
    assert_eq!(
        c.nft_approve("bob.near", "t1", "market.near".to_string()).err(),
        Some(NftError::NotOwner)
    );
    assert_eq!(
        c.nft_approve("alice.near", "t1", "Market".to_string()).err(),
        Some(NftError::InvalidAccount)
    );
    assert_eq!(c.nft_revoke("bob.near", "t1", "market.near").err(), Some(NftError::NotOwner));
    assert_eq!(c.nft_revoke("alice.near", "t2", "market.near").err(), Some(NftError::UnknownAsset));
    assert_eq!(c.nft_token("t1").unwrap().approved_account_ids.len(), 0);
}

#[test]
fn new_sets_the_receiver_royalty() {
    let m = Contract::default_metadata();
    let mut c = Contract::new("owner.near".to_string(), m, "r.near".to_string());
    c.nft_mint_owner(SELF_ID, SELF_ID, "alice.near".to_string(), "t".to_string(), meta("t")).unwrap();
    let t = c.nft_token("t").unwrap();
    assert_eq!(t.royalty.get("r.near").copied(), Some(2000));
    assert_eq!(t.royalty.len(), 1);
}
