use nft::contract::Contract;
use nft::template::{decimal_string, mint_metadata, NFT_IMAGES, TOKEN_COPIES, TOKEN_DESCRIPTION};

#[test]
fn decimal_numerals() {
    assert_eq!(decimal_string(0), "0");
    assert_eq!(decimal_string(7), "7");
    assert_eq!(decimal_string(10), "10");
    assert_eq!(decimal_string(1680), "1680");
    assert_eq!(decimal_string(u64::MAX), "18446744073709551615");
}

#[test]
fn template_metadata_fields() {
    let m = mint_metadata(12, "img.png", "model.glb", 99);
    assert_eq!(m.title.as_deref(), Some("NEAR Avatar #12"));
    assert_eq!(m.description.as_deref(), Some(TOKEN_DESCRIPTION));
    assert!(TOKEN_DESCRIPTION.starts_with("NEAR World Order limited edition"));
    assert_eq!(m.media, Some(format!("{}img.png", NFT_IMAGES)));
    assert_eq!(m.copies, Some(TOKEN_COPIES));
    assert_eq!(m.copies, Some(999));
    assert_eq!(m.issued_at, Some(99));
    assert_eq!(m.extra, Some(format!("{{\"asset\":\"{}model.glb\"}}", NFT_IMAGES)));
    assert!(m.media_hash.is_none() && m.reference.is_none() && m.reference_hash.is_none());
    assert!(m.expires_at.is_none() && m.starts_at.is_none() && m.updated_at.is_none());
}

#[test]
fn template_escapes_the_asset_as_json() {
    let m = mint_metadata(0, "i", "a\"b\\c\nd\u{1}", 0);
    assert_eq!(m.extra, Some(format!("{{\"asset\":\"{}a\\\"b\\\\c\\nd\\u0001\"}}", NFT_IMAGES)));
    assert_eq!(m.title.as_deref(), Some("NEAR Avatar #0"));
}

#[test]
fn next_token_metadata_is_numbered_by_the_counter() {
    let mut c = Contract::new_default_meta("owner.near".to_string(), "royalty.near".to_string()).unwrap();
    let m0 = c.next_token_metadata("i.png", "a.glb", 5);
    assert_eq!(m0.title.as_deref(), Some("NEAR Avatar #0"));
    c.nft_mint_owner("nft.near", "nft.near", "alice.near".to_string(), "a.glb".to_string(), m0).unwrap();
    let m1 = c.next_token_metadata("j.png", "b.glb", 6);
    assert_eq!(m1.title.as_deref(), Some("NEAR Avatar #1"));
    let t = c.nft_token("a.glb").unwrap();
    assert_eq!(t.metadata.title.as_deref(), Some("NEAR Avatar #0"));
    assert_eq!(t.metadata.issued_at, Some(5));
}
