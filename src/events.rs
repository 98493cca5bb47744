//! Event records: one per successful mutation, in the shape of the NEP-171
//! event standard.
use vstd::prelude::*;

verus! {

/// The version of the event standard.
pub const NFT_METADATA_SPEC: &'static str = "1.0.0";

/// The name of the event standard.
pub const NFT_STANDARD_NAME: &'static str = "nep171";

/// Tokens minted to one owner.
pub struct NftMintLog {
    pub owner_id: String,
    pub token_ids: Vec<String>,
    pub memo: Option<String>,
}

/// Tokens moved from one owner to another, by the owner or by a delegate
/// (`authorized_id`).
pub struct NftTransferLog {
    pub authorized_id: Option<String>,
    pub old_owner_id: String,
    pub new_owner_id: String,
    pub token_ids: Vec<String>,
    pub memo: Option<String>,
}

/// A delegate approved for one token, with the approval id it was given.
pub struct NftApproveLog {
    pub owner_id: String,
    pub token_id: String,
    pub account_id: String,
    pub approval_id: u64,
}

/// A delegate's approval withdrawn from one token; `None` stands for all of
/// them.
pub struct NftRevokeLog {
    pub owner_id: String,
    pub token_id: String,
    pub account_id: Option<String>,
}

/// The kind of an event and its entries.
pub enum EventLogVariant {
    NftMint(Vec<NftMintLog>),
    NftTransfer(Vec<NftTransferLog>),
    NftApprove(Vec<NftApproveLog>),
    NftRevoke(Vec<NftRevokeLog>),
}

/// One event: the standard's name and version and the event itself.
pub struct EventLog {
    pub standard: String,
    pub version: String,
    pub event: EventLogVariant,
}

/// The content of a single-entry event, over plain values.
pub enum EventData {
    Mint { owner_id: Seq<char>, token_id: Seq<char> },
    Transfer {
        authorized_id: Option<Seq<char>>,
        old_owner_id: Seq<char>,
        new_owner_id: Seq<char>,
        token_id: Seq<char>,
        memo: Option<Seq<char>>,
    },
    Approve { owner_id: Seq<char>, token_id: Seq<char>, account_id: Seq<char>, approval_id: u64 },
    Revoke { owner_id: Seq<char>, token_id: Seq<char>, revoked_id: Option<Seq<char>> },
}

/// The characters of an optional string.
pub open spec fn opt_chars(o: Option<String>) -> Option<Seq<char>> {
    match o {
        Some(s) => Some(s@),
        None => None,
    }
}

/// A fresh copy of a string constant.
fn owned(s: &str) -> (r: String)
    ensures
        r@ == s@,
{
    s.to_owned()
}

impl EventLog {
    /// `self` carries the standard's name and version and exactly one entry,
    /// whose content is `d`.
    pub open spec fn records(&self, d: EventData) -> bool {
        &&& self.standard@ == NFT_STANDARD_NAME@
        &&& self.version@ == NFT_METADATA_SPEC@
        &&& match (self.event, d) {
            (EventLogVariant::NftMint(v), EventData::Mint { owner_id, token_id }) => {
                &&& v@.len() == 1
                &&& v@[0].owner_id@ == owner_id
                &&& v@[0].token_ids@.len() == 1
                &&& v@[0].token_ids@[0]@ == token_id
                &&& v@[0].memo.is_none()
            },
            (
                EventLogVariant::NftTransfer(v),
                EventData::Transfer { authorized_id, old_owner_id, new_owner_id, token_id, memo },
            ) => {
                &&& v@.len() == 1
                &&& opt_chars(v@[0].authorized_id) == authorized_id
                &&& v@[0].old_owner_id@ == old_owner_id
                &&& v@[0].new_owner_id@ == new_owner_id
                &&& v@[0].token_ids@.len() == 1
                &&& v@[0].token_ids@[0]@ == token_id
                &&& opt_chars(v@[0].memo) == memo
            },
            (
                EventLogVariant::NftApprove(v),
                EventData::Approve { owner_id, token_id, account_id, approval_id },
            ) => {
                &&& v@.len() == 1
                &&& v@[0].owner_id@ == owner_id
                &&& v@[0].token_id@ == token_id
                &&& v@[0].account_id@ == account_id
                &&& v@[0].approval_id == approval_id
            },
            (EventLogVariant::NftRevoke(v), EventData::Revoke { owner_id, token_id, revoked_id }) => {
                &&& v@.len() == 1
                &&& v@[0].owner_id@ == owner_id
                &&& v@[0].token_id@ == token_id
                &&& opt_chars(v@[0].account_id) == revoked_id
            },
            _ => false,
        }
    }

    /// The event of a mint of `token_id` to `owner_id`.
    pub fn mint(owner_id: String, token_id: String) -> (r: Self)
        ensures
            r.records(EventData::Mint { owner_id: owner_id@, token_id: token_id@ }),
    {
        let mut token_ids: Vec<String> = Vec::new();
        token_ids.push(token_id);
        let mut v: Vec<NftMintLog> = Vec::new();
        v.push(NftMintLog { owner_id, token_ids, memo: None });
        EventLog {
            standard: owned(NFT_STANDARD_NAME),
            version: owned(NFT_METADATA_SPEC),
            event: EventLogVariant::NftMint(v),
        }
    }

    /// The event of a transfer of `token_id` from `old_owner_id` to
    /// `new_owner_id`.
    pub fn transfer(
        authorized_id: Option<String>,
        old_owner_id: String,
        new_owner_id: String,
        token_id: String,
        memo: Option<String>,
    ) -> (r: Self)
        ensures
            r.records(
                EventData::Transfer {
                    authorized_id: opt_chars(authorized_id),
                    old_owner_id: old_owner_id@,
                    new_owner_id: new_owner_id@,
                    token_id: token_id@,
                    memo: opt_chars(memo),
                },
            ),
    {
        let mut token_ids: Vec<String> = Vec::new();
        token_ids.push(token_id);
        let mut v: Vec<NftTransferLog> = Vec::new();
        v.push(NftTransferLog { authorized_id, old_owner_id, new_owner_id, token_ids, memo });
        EventLog {
            standard: owned(NFT_STANDARD_NAME),
            version: owned(NFT_METADATA_SPEC),
            event: EventLogVariant::NftTransfer(v),
        }
    }

    /// The event of `account_id` approved for `token_id` under `approval_id`.
    pub fn approve(owner_id: String, token_id: String, account_id: String, approval_id: u64) -> (r: Self)
        ensures
            r.records(
                EventData::Approve {
                    owner_id: owner_id@,
                    token_id: token_id@,
                    account_id: account_id@,
                    approval_id,
                },
            ),
    {
        let mut v: Vec<NftApproveLog> = Vec::new();
        v.push(NftApproveLog { owner_id, token_id, account_id, approval_id });
        EventLog {
            standard: owned(NFT_STANDARD_NAME),
            version: owned(NFT_METADATA_SPEC),
            event: EventLogVariant::NftApprove(v),
        }
    }

    /// The event of the approval of `account_id` (of every delegate, for
    /// `None`) withdrawn from `token_id`.
    pub fn revoke(owner_id: String, token_id: String, account_id: Option<String>) -> (r: Self)
        ensures
            r.records(
                EventData::Revoke {
                    owner_id: owner_id@,
                    token_id: token_id@,
                    revoked_id: opt_chars(account_id),
                },
            ),
    {
        let mut v: Vec<NftRevokeLog> = Vec::new();
        v.push(NftRevokeLog { owner_id, token_id, account_id });
        EventLog {
            standard: owned(NFT_STANDARD_NAME),
            version: owned(NFT_METADATA_SPEC),
            event: EventLogVariant::NftRevoke(v),
        }
    }
}

} // verus!
