//! The records that the ledger stores per token and for the whole contract,
//! and the view of a token that queries hand out.
use vstd::prelude::*;
use crate::table::StrMap;

verus! {

/// A copy of an optional string.
pub fn copy_opt_string(o: &Option<String>) -> (r: Option<String>)
    ensures
        r == *o,
{
    match o {
        Some(s) => Some(s.clone()),
        None => None,
    }
}

/// Contract-level descriptor: name, symbol, icon and the version of the
/// metadata standard. `reference_hash` holds base64 text.
pub struct NFTContractMetadata {
    pub spec: String,
    pub name: String,
    pub symbol: String,
    pub icon: Option<String>,
    pub base_uri: Option<String>,
    pub reference: Option<String>,
    pub reference_hash: Option<String>,
}

impl NFTContractMetadata {
    /// A field-by-field copy.
    pub fn duplicate(&self) -> (r: Self)
        ensures
            r == *self,
    {
        NFTContractMetadata {
            spec: self.spec.clone(),
            name: self.name.clone(),
            symbol: self.symbol.clone(),
            icon: copy_opt_string(&self.icon),
            base_uri: copy_opt_string(&self.base_uri),
            reference: copy_opt_string(&self.reference),
            reference_hash: copy_opt_string(&self.reference_hash),
        }
    }
}

/// Per-token descriptive data, set at mint and never changed afterwards.
/// `media_hash` and `reference_hash` hold base64 text.
pub struct TokenMetadata {
    pub title: Option<String>,
    pub description: Option<String>,
    pub media: Option<String>,
    pub media_hash: Option<String>,
    pub copies: Option<u64>,
    pub issued_at: Option<u64>,
    pub expires_at: Option<u64>,
    pub starts_at: Option<u64>,
    pub updated_at: Option<u64>,
    pub extra: Option<String>,
    pub reference: Option<String>,
    pub reference_hash: Option<String>,
}

impl TokenMetadata {
    /// A field-by-field copy.
    pub fn duplicate(&self) -> (r: Self)
        ensures
            r == *self,
    {
        TokenMetadata {
            title: copy_opt_string(&self.title),
            description: copy_opt_string(&self.description),
            media: copy_opt_string(&self.media),
            media_hash: copy_opt_string(&self.media_hash),
            copies: self.copies,
            issued_at: self.issued_at,
            expires_at: self.expires_at,
            starts_at: self.starts_at,
            updated_at: self.updated_at,
            extra: copy_opt_string(&self.extra),
            reference: copy_opt_string(&self.reference),
            reference_hash: copy_opt_string(&self.reference_hash),
        }
    }
}

/// The ledger's record of one token: its owner, the delegates it has approved
/// with the approval id each was given, the next approval id to hand out, and
/// its royalty shares in basis points.
pub struct Token {
    pub owner_id: String,
    pub approved_account_ids: StrMap<u64>,
    pub next_approval_id: u64,
    pub royalty: StrMap<u32>,
}

impl Token {
    /// Both tables are well formed and every approval id was handed out
    /// before `next_approval_id`.
    pub open spec fn wf(&self) -> bool {
        &&& self.approved_account_ids.wf()
        &&& self.royalty.wf()
        &&& forall|d: Seq<char>|
            #[trigger] self.approved_account_ids@.contains_key(d) ==> self.approved_account_ids@[d]
                < self.next_approval_id
    }
}

/// What a query returns for one token: its id, owner, metadata, approvals
/// and royalty shares, copied out of the ledger.
pub struct JsonToken {
    pub token_id: String,
    pub owner_id: String,
    pub metadata: TokenMetadata,
    pub approved_account_ids: StrMap<u64>,
    pub royalty: StrMap<u32>,
}

impl JsonToken {
    /// `self` shows the token `t` stored under `id` with metadata `m`.
    pub open spec fn shows(&self, id: Seq<char>, t: Token, m: TokenMetadata) -> bool {
        &&& self.token_id@ == id
        &&& self.owner_id@ == t.owner_id@
        &&& self.metadata == m
        &&& self.approved_account_ids.wf()
        &&& self.approved_account_ids@ == t.approved_account_ids@
        &&& self.royalty.wf()
        &&& self.royalty@ == t.royalty@
    }
}

} // verus!
