//! The ledger: the identifier registry, the metadata table, the ownership
//! index and the mint counter, kept consistent by every operation.
use vstd::prelude::*;
use crate::account::{is_valid_account_id, valid_account_id};
use crate::events::{opt_chars, EventData, EventLog};
use crate::index::{
    add_token_to_owner, index_has, index_ids, index_wf, lemma_index_ids, remove_token_from_owner,
    OwnerIndex,
};
use crate::metadata::{copy_opt_string, JsonToken, NFTContractMetadata, Token, TokenMetadata};
use crate::table::{str_eq, StrMap};
use crate::template::{is_mint_metadata, mint_metadata};

verus! {

/// The most tokens that can ever be minted.
pub const MAX_NFT_MINT: u16 = 1680;

/// The least deposit that a mint request must carry, in yoctoNEAR.
pub const MINT_PRICE: u128 = 420_000_000_000_000_000_000_000;

/// The deposit that a mint request forwards to the privileged mint call.
pub const MINT_CALL_DEPOSIT: u128 = 75_000_000_000_000_000_000_000;

/// The most perpetual royalty shares a token can be minted with.
pub const MAX_ROYALTY_SHARES: usize = 6;

/// The share, in basis points, that the royalty receiver gets at creation.
pub const RECEIVER_ROYALTY: u32 = 2000;

/// The page size of an enumeration that names no limit.
pub const DEFAULT_PAGE_LIMIT: u64 = 50;

/// The exact deposit that a transfer must carry, in yoctoNEAR.
pub const TRANSFER_DEPOSIT: u128 = 1;

/// The icon of the default contract metadata.
pub const DATA_IMAGE_SVG_NEAR_ICON: &'static str = "data:image/svg+xml,%3Csvg id='SVG' xmlns='http://www.w3.org/2000/svg' width='500' height='500'%3E%%3Cpath class='cls-1' fill='%2300b7b2' stroke='%23fff' stroke-width='4.43px' fill-rule='evenodd' d='M8.634,486.008V158.294H282.493l30.012,32.367V158.294H490.076V486.008H197.46L163.7,449.6v36.413H8.634Z'/%3E%3Cpath id='Comics_copy_2' data-name='Comics copy 2' class='cls-2' stroke='%23000' stroke-linejoin='round' stroke-width='1px' fill='%23ff6000' d='M76.724,293.832q-8.535-4.329-21.887-.337-21.015,6.282-35.884,27.189Q4.993,340.24,4.994,359.4q0,17,12.442,26.976,13.275,10.468,32.091,4.843,6.6-1.973,15.552-8.36Q75.4,375.66,75.4,370.531a5.391,5.391,0,0,0-2.579-4.829,7.032,7.032,0,0,0-6.069-.614q-2.884.863-8,4.687t-7.928,4.664q-10.091,3.016-17.373-3.779a20.736,20.736,0,0,1-6.448-15.545q0-11.739,7.511-24.036,8.572-13.695,21.09-17.437,6.6-1.974,6.6,2.479a22.311,22.311,0,0,1-.91,5.062,22.329,22.329,0,0,0-.91,5.062,6.6,6.6,0,0,0,3.262,6.041,9.108,9.108,0,0,0,7.662.678q6.6-1.974,10.621-9.854a28.783,28.783,0,0,0,3.338-13.074Q85.259,298.162,76.724,293.832Zm103.669-4.616q-1.442-13.263-10.773-19.919-10.242-7.326-25.263-2.836-21.621,6.463-37.1,29.981-14.414,21.715-14.414,41.617,0,16.933,12.214,24.885,12.366,8.313,31.181,2.687,22.378-6.691,34.442-28.985a81.56,81.56,0,0,0,10.09-39.852,65.53,65.53,0,0,0-.379-7.578h0Zm-22.684,44.967q-6.6,11.419-17.6,14.707a26.177,26.177,0,0,1-14.377.52,14.757,14.757,0,0,1-9.672-7.093,22.019,22.019,0,0,1-2.352-10.7q0-9.918,5.69-21.232a61.411,61.411,0,0,1,15.021-19.3,26.954,26.954,0,0,0,5.993-2.4,48.78,48.78,0,0,1,6.145-2.714,3.427,3.427,0,0,1,1.745-.05q7.511,1.533,11.608,11.035a41.547,41.547,0,0,1,3.413,17.059,40.223,40.223,0,0,1-5.614,20.164h0ZM272.417,228.444q-7.132,2.133-12.29,11.838-2.049,3.918-6.069,15.644-6.45,18.459-7.663,22.4-4.628,16.834-6.676,25.136-9.711-25.092-14.262-37.833a77.745,77.745,0,0,0-4.7-9.928q-6.6-10.236-16.387-7.311a18.336,18.336,0,0,0-7.928,4.934q-3.526,3.618-3.527,7.531,0,4.318.8,12.715t0.8,12.782q0,8.771-.379,14.888-0.3,4.478-1.973,18.737a164.04,164.04,0,0,0-1.441,18.782q0,11.064,8.724,8.455a11.6,11.6,0,0,0,5.8-3.894,9.337,9.337,0,0,0,2.314-5.954q0-.876-0.114-2.8t-0.114-2.867q0-11.536,5.311-36.8,21.317,40.38,29.359,37.975a9.667,9.667,0,0,0,4.59-3.126,7.231,7.231,0,0,0,2.01-4.649,3.7,3.7,0,0,0-.227-1.147q4.248-9.5,5.917-14.25,7.131-18.12,10.925-27.215,0.606,21,.607,26.2,0,8.433.758,10.972,1.821,5.865,8.573,3.846a12.067,12.067,0,0,0,5.842-3.8,8.914,8.914,0,0,0,2.351-5.864q0-2.293-.189-6.758t-0.19-6.757a130.26,130.26,0,0,1,.986-14.192q1.593-12.687,1.669-14.464,0.91-13.494,1.29-20.288,0.911-9.918.91-11.538,0-15.989-15.4-11.385h0Zm49.16,11.074q-0.226-11.2-1.9-16.164-3.414-8.829-12.594-6.085-9.939,2.971-9.938,13.9,0,2.5,2.807,15.284,2.5,10.99,2.5,31.7,0,5.2-.91,15.822t-0.91,15.823a4.854,4.854,0,0,0,2.2,4.47,6.59,6.59,0,0,0,5.538.368q7.283-2.178,9.331-10.751,0.529-2.385.911-13.293,0.3-6.093,1.669-21.21,1.44-13.72,1.441-21.277,0-2.091-.152-8.59h0Zm80.076-42.83q-8.535-4.331-21.887-.338-21.017,6.283-35.884,27.19-13.961,19.554-13.96,38.714,0,17,12.442,26.977,13.275,10.468,32.091,4.843,6.6-1.974,15.552-8.361,10.317-7.2,10.318-12.327a5.389,5.389,0,0,0-2.58-4.828,7.025,7.025,0,0,0-6.069-.614q-2.883.863-8,4.686t-7.928,4.664q-10.091,3.018-17.222-3.824a20.361,20.361,0,0,1-6.6-15.5q0-11.739,7.511-24.037,8.572-13.693,21.09-17.437,6.6-1.973,6.6,2.48a22.308,22.308,0,0,1-.91,5.062,22.308,22.308,0,0,0-.91,5.062,6.6,6.6,0,0,0,3.262,6.041,9.11,9.11,0,0,0,7.662.677q6.6-1.972,10.621-9.854a28.779,28.779,0,0,0,3.338-13.074Q410.187,201.019,401.653,196.688ZM487.715,169.2q-6.753-3.107-16.311-.25-16.463,4.922-31.18,18.294-16.312,14.862-16.311,28.894,0,10.188,11.531,16.859,6.675,3.942,21.242,8.154,11.455,3.255,11.456,4.873,0,4.251-11.987,7.834a31.085,31.085,0,0,1-15.324.331,7.493,7.493,0,0,0-3.338-.148q-3.264.975-5.842,6.873a32.147,32.147,0,0,0-2.428,8.349q12.517,5.5,27.843.919A54.083,54.083,0,0,0,478,258.123q10.771-9.628,10.773-19.345,0-8.971-10.773-14.522-2.807-1.453-20.18-7.189-10.773-3.593-10.773-7.844,0-4.385,10.09-11.652,8.952-6.453,14.642-8.155a1.175,1.175,0,0,0,.38.021q2.5,9.507,11.91,6.694a14.2,14.2,0,0,0,8.346-6.341A16.2,16.2,0,0,0,495,180.721q0-8.231-7.283-11.518h0Z'/%3E%3Cpath class='cls-1' fill='%2300b7b2' stroke='%23fff' stroke-width='4.43px' fill-rule='evenodd'  d='M8.634,148.854V13.992H490.076V148.854H8.634Z'/%3E%3Cpath id='NEARHUB' class='cls-3' stroke='%23000' stroke-linejoin='round' stroke-width='1px' fill='%23fff' d='M45,128.625v-26.27c0-16.577-.26-30.344-0.912-42h0.391C48.129,70.606,53.34,82.687,57.9,92.24l17.064,36.385H94.241V33.941H77.047V59.508c0,15.312.521,29.08,1.563,40.88H78.35a293.219,293.219,0,0,0-12.9-31.046l-16.8-35.4H27.809v94.685H45ZM145.564,71.308H116.907V50.939h30.22v-17H97.889v94.685h51.062v-17H116.907V88.166h28.657V71.308Zm44.158,33.856,5.862,23.461h19.93L191.285,33.941H166.927l-24.359,94.685h19.278l5.471-23.461h22.405Zm-19.8-15.453,4.56-20.089c1.3-5.479,2.6-13.486,3.777-19.246h0.261c1.3,5.76,2.735,13.627,4.038,19.246l4.689,20.089H169.922Zm43.768,38.914h18.888V91.257H237.4c7.425,0.141,10.942,3.372,13.026,15.172,2.215,11.238,4.3,19.526,5.6,22.2h19.539c-1.694-3.653-4.3-15.734-6.644-26.411-2.084-9.131-5.34-15.312-11.463-17.981V83.811a25.028,25.028,0,0,0,14.98-23.32c0-8.569-2.475-15.172-7.815-19.808-6.123-5.479-14.98-7.445-26.834-7.445a138.445,138.445,0,0,0-24.1,1.967v93.42Zm18.888-79.232A36.249,36.249,0,0,1,240,48.832c8.727,0,13.416,4.917,13.416,13.346,0,8.288-5.34,14.048-14.459,14.048h-6.382V49.393Zm40.511-15.453v94.685h19.018V89.009h28.266v39.616h19.018V33.941H320.373V70.887H292.107V33.941H273.089Zm69.689,0V88.447c0,28.237,11.2,41.582,32.174,41.582,21.233,0,33.347-13.626,33.347-41.441V33.941H389.281V90.554c0,16.015-5.08,22.758-13.808,22.758-8.467,0-13.677-7.164-13.677-22.758V33.941H342.778ZM411.686,128.2a124.742,124.742,0,0,0,19.8,1.405c16.543,0,26.7-3.231,32.826-8.991a26.167,26.167,0,0,0,8.206-19.667c0-11.52-6.773-20.089-16.8-23.039V77.49c9.51-3.933,13.808-11.941,13.808-20.229,0-8.007-3.517-14.47-9.248-18.263-6.253-4.5-13.938-5.76-24.88-5.76-9.118,0-18.5.843-23.707,1.967v93Zm18.887-79.231a26.628,26.628,0,0,1,7.165-.7c8.467,0,12.895,4.355,12.895,11.379,0,7.305-5.21,12.222-14.459,12.222h-5.6v-22.9Zm0,37.789h5.862c8.858,0,16.282,4.074,16.282,13.627,0,9.834-7.294,13.767-15.761,13.767a40.259,40.259,0,0,1-6.383-.281V86.761Z'/%3E%3C/svg%3E";

/// Why an operation was refused. A refused operation changes nothing.
#[derive(PartialEq, Eq, Structural, Debug, Clone, Copy)]
pub enum NftError {
    UnknownAsset,
    DuplicateId,
    NotOwner,
    Unauthorized,
    OwnerMismatch,
    CapExceeded,
    InsufficientPayment,
    InvalidAccount,
    TooManyRoyaltyShares,
    ApprovalIdsExhausted,
}

/// What a paid mint request schedules: a privileged mint of `asset` to
/// `receiver_id`, carrying `deposit`.
pub struct MintCall {
    pub receiver_id: String,
    pub image: String,
    pub asset: String,
    pub deposit: u128,
}

/// The ids of `ids` from position `from` on, at most `limit` of them.
pub open spec fn page(ids: Seq<Seq<char>>, from: int, limit: int) -> Seq<Seq<char>> {
    let start = if from < ids.len() { from } else { ids.len() as int };
    let end = if start + limit < ids.len() { start + limit } else { ids.len() as int };
    ids.subrange(start, end)
}

/// The window of `ids` that a paginated query returns: from `from_index`
/// (zero if absent) on, at most `limit` ids (the default page size if absent).
pub open spec fn page_of(ids: Seq<Seq<char>>, from_index: Option<u64>, limit: Option<u64>) -> Seq<Seq<char>> {
    page(
        ids,
        match from_index {
            Some(f) => f as int,
            None => 0,
        },
        match limit {
            Some(l) => l as int,
            None => DEFAULT_PAGE_LIMIT as int,
        },
    )
}

/// The bounds of the window of `page_of` over `n` ids.
fn page_bounds(n: usize, from_index: Option<u64>, limit: Option<u64>) -> (r: (usize, usize))
    ensures
        r.0 <= r.1 <= n,
        forall|ids: Seq<Seq<char>>|
            #![trigger page_of(ids, from_index, limit)]
            ids.len() == n ==> page_of(ids, from_index, limit) == ids.subrange(r.0 as int, r.1 as int),
{
    let f: u64 = match from_index {
        Some(x) => x,
        None => 0,
    };
    let l: u64 = match limit {
        Some(x) => x,
        None => DEFAULT_PAGE_LIMIT,
    };
    let start: usize = if f < n as u64 {
        f as usize
    } else {
        n
    };
    let end: usize = if l < (n - start) as u64 {
        start + l as usize
    } else {
        n
    };
    (start, end)
}

/// `caller` may move token `t`: it owns it, or it is an approved delegate
/// whose approval id is `approval_id` when one is given.
pub open spec fn may_transfer(t: Token, caller: Seq<char>, approval_id: Option<u64>) -> bool {
    t.owner_id@ == caller || (t.approved_account_ids@.contains_key(caller) && match approval_id {
        Some(a) => t.approved_account_ids@[caller] == a,
        None => true,
    })
}

/// The store of the contract.
pub struct Contract {
    owner_id: String,
    tokens_per_owner: OwnerIndex,
    tokens_by_id: StrMap<Token>,
    token_metadata_by_id: StrMap<TokenMetadata>,
    metadata: NFTContractMetadata,
    token_minted: u16,
    perpetual_royalties: StrMap<u32>,
    receiver_id: String,
}

impl Contract {
    /// The identifier registry: token id to token.
    pub closed spec fn tokens(&self) -> Map<Seq<char>, Token> {
        self.tokens_by_id@
    }

    /// Token id to the metadata it was minted with.
    pub closed spec fn token_metadata(&self) -> Map<Seq<char>, TokenMetadata> {
        self.token_metadata_by_id@
    }

    /// The ids of all tokens, in the order in which they were minted.
    pub closed spec fn token_ids(&self) -> Seq<Seq<char>> {
        self.tokens_by_id.key_seq()
    }

    /// The ids of the tokens of `o`, in the order of the ownership index.
    pub closed spec fn owner_tokens(&self, o: Seq<char>) -> Seq<Seq<char>> {
        index_ids(self.tokens_per_owner, o)
    }

    /// How many tokens have been minted.
    pub closed spec fn minted(&self) -> u16 {
        self.token_minted
    }

    /// The royalty shares that each new token is minted with.
    pub closed spec fn royalties(&self) -> Map<Seq<char>, u32> {
        self.perpetual_royalties@
    }

    /// The account that owns the contract.
    pub closed spec fn owner(&self) -> Seq<char> {
        self.owner_id@
    }

    /// The account that receives the contract's royalty share.
    pub closed spec fn receiver(&self) -> Seq<char> {
        self.receiver_id@
    }

    /// The contract-level metadata.
    pub closed spec fn contract_metadata(&self) -> NFTContractMetadata {
        self.metadata
    }

    /// The parts that no token operation changes.
    pub open spec fn same_settings(&self, other: &Self) -> bool {
        &&& self.owner() == other.owner()
        &&& self.receiver() == other.receiver()
        &&& self.contract_metadata() == other.contract_metadata()
        &&& self.royalties() == other.royalties()
    }

    /// The store is consistent: the registry and the metadata table hold the
    /// same ids in the same order, the mint counter counts them, every token
    /// is well formed, and the ownership index lists exactly the ids of each
    /// owner's tokens.
    pub closed spec fn wf(&self) -> bool {
        &&& self.tokens_by_id.wf()
        &&& self.token_metadata_by_id.wf()
        &&& self.perpetual_royalties.wf()
        &&& index_wf(self.tokens_per_owner)
        &&& self.tokens_by_id.key_seq() == self.token_metadata_by_id.key_seq()
        &&& self.token_minted as int == self.tokens_by_id.key_seq().len()
        &&& self.token_minted <= MAX_NFT_MINT
        &&& forall|id: Seq<char>|
            #[trigger] self.tokens_by_id@.contains_key(id) ==> self.tokens_by_id@[id].wf() && index_has(
                self.tokens_per_owner,
                self.tokens_by_id@[id].owner_id@,
                id,
            )
        &&& forall|o: Seq<char>, id: Seq<char>|
            #[trigger] index_has(self.tokens_per_owner, o, id) ==> self.tokens_by_id@.contains_key(id)
                && self.tokens_by_id@[id].owner_id@ == o
    }

    /// The ids in minting order are the registry's ids, each once, and the
    /// metadata table has an entry for each of them.
    pub proof fn lemma_registry(&self)
        requires
            self.wf(),
        ensures
            self.token_ids().no_duplicates(),
            forall|id: Seq<char>| #[trigger] self.tokens().contains_key(id) <==> self.token_ids().contains(id),
            forall|id: Seq<char>|
                #[trigger] self.token_metadata().contains_key(id) <==> self.tokens().contains_key(id),
            forall|id: Seq<char>| #[trigger] self.tokens().contains_key(id) ==> self.tokens()[id].wf(),
            self.minted() as int == self.token_ids().len(),
            self.minted() <= MAX_NFT_MINT,
    {
        self.tokens_by_id.lemma_keys();
        self.token_metadata_by_id.lemma_keys();
    }

    /// An id is listed under an owner exactly when the registry gives it
    /// that owner, and it is listed once.
    pub proof fn lemma_owner_tokens(&self, o: Seq<char>)
        requires
            self.wf(),
        ensures
            self.owner_tokens(o).no_duplicates(),
            forall|id: Seq<char>|
                #[trigger] self.owner_tokens(o).contains(id) <==> (self.tokens().contains_key(id)
                    && self.tokens()[id].owner_id@ == o),
    {
        lemma_index_ids(self.tokens_per_owner, o);
    }

    /// A contract with no tokens, the given metadata, and the receiver's
    /// royalty share as its only perpetual royalty.
    pub fn new(owner_id: String, metadata: NFTContractMetadata, receiver_id: String) -> (r: Self)
        ensures
            r.wf(),
            r.tokens() == Map::<Seq<char>, Token>::empty(),
            r.token_ids() == Seq::<Seq<char>>::empty(),
            r.minted() == 0,
            r.owner() == owner_id@,
            r.receiver() == receiver_id@,
            r.contract_metadata() == metadata,
            r.royalties() == map![receiver_id@ => RECEIVER_ROYALTY],
    {
        let mut perpetual_royalties: StrMap<u32> = StrMap::new();
        perpetual_royalties.insert(receiver_id.clone(), RECEIVER_ROYALTY);
        assert(perpetual_royalties@ =~= map![receiver_id@ => RECEIVER_ROYALTY]);
        Contract {
            owner_id,
            tokens_per_owner: StrMap::new(),
            tokens_by_id: StrMap::new(),
            token_metadata_by_id: StrMap::new(),
            metadata,
            token_minted: 0,
            perpetual_royalties,
            receiver_id,
        }
    }

    /// The contract metadata used by `new_default_meta`.
    pub fn default_metadata() -> (r: NFTContractMetadata)
        ensures
            r.spec@ == "nft-1.0.0"@,
            r.name@ == "Near Hub - OMMM NFT Comics"@,
            r.symbol@ == "OMMM"@,
            r.icon.is_some(),
            r.icon.unwrap()@ == DATA_IMAGE_SVG_NEAR_ICON@,
            r.base_uri.is_none(),
            r.reference.is_none(),
            r.reference_hash.is_none(),
    {
        NFTContractMetadata {
            spec: "nft-1.0.0".to_owned(),
            name: "Near Hub - OMMM NFT Comics".to_owned(),
            symbol: "OMMM".to_owned(),
            icon: Some(DATA_IMAGE_SVG_NEAR_ICON.to_owned()),
            base_uri: None,
            reference: None,
            reference_hash: None,
        }
    }

    /// `new` with the default metadata, after checking both account ids.
    pub fn new_default_meta(owner_id: String, receiver_id: String) -> (r: Result<Self, NftError>)
        ensures
            !valid_account_id(owner_id@) || !valid_account_id(receiver_id@) ==> r == Err::<Self, NftError>(
                NftError::InvalidAccount,
            ),
            valid_account_id(owner_id@) && valid_account_id(receiver_id@) ==> match r {
                Ok(c) => {
                    &&& c.wf()
                    &&& c.tokens() == Map::<Seq<char>, Token>::empty()
                    &&& c.token_ids() == Seq::<Seq<char>>::empty()
                    &&& c.minted() == 0
                    &&& c.owner() == owner_id@
                    &&& c.receiver() == receiver_id@
                    &&& c.contract_metadata().spec@ == "nft-1.0.0"@
                    &&& c.contract_metadata().name@ == "Near Hub - OMMM NFT Comics"@
                    &&& c.contract_metadata().symbol@ == "OMMM"@
                    &&& c.royalties() == map![receiver_id@ => RECEIVER_ROYALTY]
                },
                Err(_) => false,
            },
    {
        if !is_valid_account_id(owner_id.as_str()) || !is_valid_account_id(receiver_id.as_str()) {
            return Err(NftError::InvalidAccount);
        }
        Ok(Self::new(owner_id, Self::default_metadata(), receiver_id))
    }

    /// The contract-level metadata.
    pub fn nft_metadata(&self) -> (r: NFTContractMetadata)
        ensures
            r == self.contract_metadata(),
    {
        self.metadata.duplicate()
    }

    /// The view of a token in the registry.
    fn json_token(&self, token_id: &String) -> (r: JsonToken)
        requires
            self.wf(),
            self.tokens().contains_key(token_id@),
        ensures
            r.shows(token_id@, self.tokens()[token_id@], self.token_metadata()[token_id@]),
    {
        proof {
            self.lemma_registry();
            assert(self.token_metadata().contains_key(token_id@));
        }
        let t = self.tokens_by_id.get(token_id.as_str()).unwrap();
        let m = self.token_metadata_by_id.get(token_id.as_str()).unwrap();
        JsonToken {
            token_id: token_id.clone(),
            owner_id: t.owner_id.clone(),
            metadata: m.duplicate(),
            approved_account_ids: t.approved_account_ids.duplicate(),
            royalty: t.royalty.duplicate(),
        }
    }

    /// The token stored under `token_id`, with its metadata, or `None`.
    pub fn nft_token(&self, token_id: &str) -> (r: Option<JsonToken>)
        requires
            self.wf(),
        ensures
            r.is_some() == self.tokens().contains_key(token_id@),
            r matches Some(j) ==> j.shows(token_id@, self.tokens()[token_id@], self.token_metadata()[token_id@]),
    {
        if self.tokens_by_id.contains_key(token_id) {
            Some(self.json_token(&token_id.to_owned()))
        } else {
            None
        }
    }

    /// Whether `approved_account_id` is an approved delegate of the token,
    /// under `approval_id` when one is given. False for an unknown token.
    pub open spec fn approved(&self, token_id: Seq<char>, account: Seq<char>, approval_id: Option<u64>) -> bool {
        &&& self.tokens().contains_key(token_id)
        &&& self.tokens()[token_id].approved_account_ids@.contains_key(account)
        &&& match approval_id {
            Some(a) => self.tokens()[token_id].approved_account_ids@[account] == a,
            None => true,
        }
    }

    /// Whether `approved_account_id` may move the token as a delegate, under
    /// `approval_id` when one is given.
    pub fn nft_is_approved(&self, token_id: &str, approved_account_id: &str, approval_id: Option<u64>) -> (r:
        bool)
        requires
            self.wf(),
        ensures
            r == self.approved(token_id@, approved_account_id@, approval_id),
    {
        match self.tokens_by_id.get(token_id) {
            None => false,
            Some(t) => {
                proof {
                    self.lemma_registry();
                }
                match t.approved_account_ids.get(approved_account_id) {
                    None => false,
                    Some(a) => match approval_id {
                        Some(x) => *a == x,
                        None => true,
                    },
                }
            },
        }
    }

    /// How many tokens `account_id` holds.
    pub fn nft_supply_for_owner(&self, account_id: &str) -> (r: u64)
        requires
            self.wf(),
        ensures
            r == self.owner_tokens(account_id@).len(),
    {
        match self.tokens_per_owner.get(account_id) {
            None => 0,
            Some(set) => set.len() as u64,
        }
    }

    /// How many tokens exist.
    pub fn nft_total_supply(&self) -> (r: u64)
        requires
            self.wf(),
        ensures
            r == self.token_ids().len(),
    {
        self.tokens_by_id.len() as u64
    }
    /// The first check that a paid mint request fails, if any: the deposit
    /// must cover the price, and the cap must not be reached.
    pub open spec fn mint_request_error(&self, attached_deposit: u128) -> Option<NftError> {
        if attached_deposit < MINT_PRICE {
            Some(NftError::InsufficientPayment)
        } else if self.minted() >= MAX_NFT_MINT {
            Some(NftError::CapExceeded)
        } else {
            None
        }
    }

    /// Checks a paid mint request from \`signer_id\` and returns the
    /// privileged mint call that it schedules. The privileged call checks the
    /// cap again, since other calls may run in between.
    pub fn nft_mint(&self, attached_deposit: u128, signer_id: String, image: String, asset: String) -> (r:
        Result<MintCall, NftError>)
        requires
            self.wf(),
        ensures
            match self.mint_request_error(attached_deposit) {
                Some(e) => r == Err::<MintCall, NftError>(e),
                None => r matches Ok(c) && c.receiver_id == signer_id && c.image == image && c.asset == asset
                    && c.deposit == MINT_CALL_DEPOSIT,
            },
    {
        if attached_deposit < MINT_PRICE {
            return Err(NftError::InsufficientPayment);
        }
        if self.token_minted >= MAX_NFT_MINT {
            return Err(NftError::CapExceeded);
        }
        Ok(MintCall { receiver_id: signer_id, image, asset, deposit: MINT_CALL_DEPOSIT })
    }

    /// The first check that a privileged mint fails, if any: the receiver
    /// must be a valid account, the call must come from the contract itself,
    /// the cap must not be reached, there must be at most six perpetual
    /// royalty shares, and the id must be new.
    pub open spec fn mint_error(
        &self,
        predecessor_id: Seq<char>,
        current_account_id: Seq<char>,
        receiver_id: Seq<char>,
        token_id: Seq<char>,
    ) -> Option<NftError> {
        if !valid_account_id(receiver_id) {
            Some(NftError::InvalidAccount)
        } else if predecessor_id != current_account_id {
            Some(NftError::Unauthorized)
        } else if self.minted() >= MAX_NFT_MINT {
            Some(NftError::CapExceeded)
        } else if self.royalties().len() > MAX_ROYALTY_SHARES {
            Some(NftError::TooManyRoyaltyShares)
        } else if self.tokens().contains_key(token_id) {
            Some(NftError::DuplicateId)
        } else {
            None
        }
    }

    /// \`new\` is \`self\` with token \`token_id\` minted to \`receiver_id\`: a
    /// new registry entry with no approvals, approval ids starting at zero
    /// and the perpetual royalty shares; the metadata stored; the id appended
    /// to the minting order; the counter advanced; nothing else changed.
    pub open spec fn minted_to(
        &self,
        new: &Self,
        token_id: Seq<char>,
        receiver_id: Seq<char>,
        metadata: TokenMetadata,
    ) -> bool {
        &&& new.tokens().contains_key(token_id)
        &&& new.tokens().remove(token_id) == self.tokens()
        &&& new.tokens()[token_id].owner_id@ == receiver_id
        &&& new.tokens()[token_id].approved_account_ids@ == Map::<Seq<char>, u64>::empty()
        &&& new.tokens()[token_id].next_approval_id == 0
        &&& new.tokens()[token_id].royalty@ == self.royalties()
        &&& new.token_metadata() == self.token_metadata().insert(token_id, metadata)
        &&& new.token_ids() == self.token_ids().push(token_id)
        &&& new.minted() == self.minted() + 1
        &&& new.same_settings(self)
    }

    /// Mints \`token_id\` to \`receiver_id\` with \`metadata\`. Only the
    /// contract itself may call it: \`predecessor_id\` is the immediate
    /// caller and \`current_account_id\` the contract's own account.
    pub fn nft_mint_owner(
        &mut self,
        predecessor_id: &str,
        current_account_id: &str,
        receiver_id: String,
        token_id: String,
        metadata: TokenMetadata,
    ) -> (r: Result<EventLog, NftError>)
        requires
            old(self).wf(),
        ensures
            final(self).wf(),
            match old(self).mint_error(predecessor_id@, current_account_id@, receiver_id@, token_id@) {
                Some(e) => r == Err::<EventLog, NftError>(e) && *final(self) == *old(self),
                None => r matches Ok(ev) && ev.records(EventData::Mint { owner_id: receiver_id@, token_id: token_id@ })
                    && old(self).minted_to(&*final(self), token_id@, receiver_id@, metadata),
            },
    {
        if !is_valid_account_id(receiver_id.as_str()) {
            return Err(NftError::InvalidAccount);
        }
        if !str_eq(predecessor_id, current_account_id) {
            return Err(NftError::Unauthorized);
        }
        if self.token_minted >= MAX_NFT_MINT {
            return Err(NftError::CapExceeded);
        }
        proof {
            self.perpetual_royalties.lemma_keys();
        }
        if self.perpetual_royalties.len() > MAX_ROYALTY_SHARES {
            return Err(NftError::TooManyRoyaltyShares);
        }
        if self.tokens_by_id.contains_key(token_id.as_str()) {
            return Err(NftError::DuplicateId);
        }
        proof {
            self.lemma_registry();
            assert(!self.token_metadata().contains_key(token_id@));
        }
        let token = Token {
            owner_id: receiver_id.clone(),
            approved_account_ids: StrMap::new(),
            next_approval_id: 0,
            royalty: self.perpetual_royalties.duplicate(),
        };
        self.tokens_by_id.insert(token_id.clone(), token);
        self.token_metadata_by_id.insert(token_id.clone(), metadata);
        add_token_to_owner(&mut self.tokens_per_owner, &receiver_id, &token_id);
        self.token_minted = self.token_minted + 1;
        assert(self.tokens().remove(token_id@) =~= old(self).tokens());
        Ok(EventLog::mint(receiver_id, token_id))
    }
    /// \`new\` is \`self\` with the entry of \`token_id\` given owner
    /// \`owner_id\`, approvals \`approvals\` and next approval id \`next\`; its
    /// royalty shares and everything else unchanged.
    pub open spec fn token_replaced(
        &self,
        new: &Self,
        token_id: Seq<char>,
        owner_id: Seq<char>,
        approvals: Map<Seq<char>, u64>,
        next: u64,
    ) -> bool {
        &&& new.tokens().contains_key(token_id)
        &&& new.tokens().remove(token_id) == self.tokens().remove(token_id)
        &&& new.tokens()[token_id].owner_id@ == owner_id
        &&& new.tokens()[token_id].approved_account_ids@ == approvals
        &&& new.tokens()[token_id].next_approval_id == next
        &&& new.tokens()[token_id].royalty@ == self.tokens()[token_id].royalty@
        &&& new.token_metadata() == self.token_metadata()
        &&& new.token_ids() == self.token_ids()
        &&& new.minted() == self.minted()
        &&& new.same_settings(self)
    }

    /// \`new\` is \`self\` after \`token_id\` moved to \`receiver_id\`: the
    /// approvals dropped, the approval counter and royalty shares kept.
    pub open spec fn transfer_step(&self, new: &Self, token_id: Seq<char>, receiver_id: Seq<char>) -> bool {
        self.token_replaced(
            new,
            token_id,
            receiver_id,
            Map::<Seq<char>, u64>::empty(),
            self.tokens()[token_id].next_approval_id,
        )
    }

    /// \`new\` is \`self\` after \`account_id\` was approved for \`token_id\`:
    /// it holds the token's previous next approval id, which advanced by one.
    pub open spec fn approve_step(&self, new: &Self, token_id: Seq<char>, account_id: Seq<char>) -> bool {
        let t = self.tokens()[token_id];
        self.token_replaced(
            new,
            token_id,
            t.owner_id@,
            t.approved_account_ids@.insert(account_id, t.next_approval_id),
            (t.next_approval_id + 1) as u64,
        )
    }

    /// \`new\` is \`self\` after the approval of \`account_id\` was withdrawn
    /// from \`token_id\`.
    pub open spec fn revoke_step(&self, new: &Self, token_id: Seq<char>, account_id: Seq<char>) -> bool {
        let t = self.tokens()[token_id];
        self.token_replaced(
            new,
            token_id,
            t.owner_id@,
            t.approved_account_ids@.remove(account_id),
            t.next_approval_id,
        )
    }

    /// \`new\` is \`self\` after every approval of \`token_id\` was withdrawn.
    pub open spec fn revoke_all_step(&self, new: &Self, token_id: Seq<char>) -> bool {
        let t = self.tokens()[token_id];
        self.token_replaced(new, token_id, t.owner_id@, Map::<Seq<char>, u64>::empty(), t.next_approval_id)
    }

    /// The first check that a transfer fails, if any: the deposit must be
    /// exactly one yoctoNEAR, the receiver a valid account and the token
    /// known; the caller must own it or be a delegate with the matching
    /// approval id; and the owner must be the expected one, if given.
    pub open spec fn transfer_error(
        &self,
        caller_id: Seq<char>,
        attached_deposit: u128,
        receiver_id: Seq<char>,
        token_id: Seq<char>,
        expected_owner: Option<Seq<char>>,
        approval_id: Option<u64>,
    ) -> Option<NftError> {
        if attached_deposit != TRANSFER_DEPOSIT {
            Some(NftError::InsufficientPayment)
        } else if !valid_account_id(receiver_id) {
            Some(NftError::InvalidAccount)
        } else if !self.tokens().contains_key(token_id) {
            Some(NftError::UnknownAsset)
        } else if !may_transfer(self.tokens()[token_id], caller_id, approval_id) {
            Some(NftError::Unauthorized)
        } else if expected_owner is Some && expected_owner.unwrap() != self.tokens()[token_id].owner_id@ {
            Some(NftError::OwnerMismatch)
        } else {
            None
        }
    }

    /// An entry that holds nothing, put in a token's row while the token is
    /// being changed.
    fn vacant_token() -> Token {
        Token {
            owner_id: String::new(),
            approved_account_ids: StrMap::new(),
            next_approval_id: 0,
            royalty: StrMap::new(),
        }
    }

    /// Moves \`token_id\` to \`receiver_id\` on behalf of \`caller_id\`. The
    /// ownership index follows, and all approvals of the token are dropped;
    /// its approval ids go on from where they were.
    pub fn nft_transfer(
        &mut self,
        caller_id: &str,
        attached_deposit: u128,
        receiver_id: String,
        token_id: &str,
        expected_owner: Option<String>,
        approval_id: Option<u64>,
        memo: Option<String>,
    ) -> (r: Result<EventLog, NftError>)
        requires
            old(self).wf(),
        ensures
            final(self).wf(),
            match old(self).transfer_error(
                caller_id@,
                attached_deposit,
                receiver_id@,
                token_id@,
                opt_chars(expected_owner),
                approval_id,
            ) {
                Some(e) => r == Err::<EventLog, NftError>(e) && *final(self) == *old(self),
                None => r matches Ok(ev) && ev.records(
                    EventData::Transfer {
                        authorized_id: if old(self).tokens()[token_id@].owner_id@ == caller_id@ {
                            None
                        } else {
                            Some(caller_id@)
                        },
                        old_owner_id: old(self).tokens()[token_id@].owner_id@,
                        new_owner_id: receiver_id@,
                        token_id: token_id@,
                        memo: opt_chars(memo),
                    },
                ) && old(self).transfer_step(&*final(self), token_id@, receiver_id@),
            },
    {
        if attached_deposit != TRANSFER_DEPOSIT {
            return Err(NftError::InsufficientPayment);
        }
        if !is_valid_account_id(receiver_id.as_str()) {
            return Err(NftError::InvalidAccount);
        }
        let t = match self.tokens_by_id.get(token_id) {
            Some(t) => t,
            None => return Err(NftError::UnknownAsset),
        };
        let is_owner = str_eq(t.owner_id.as_str(), caller_id);
        if !is_owner {
            proof {
                self.lemma_registry();
            }
            match t.approved_account_ids.get(caller_id) {
                None => return Err(NftError::Unauthorized),
                Some(a) => match approval_id {
                    Some(x) => {
                        if *a != x {
                            return Err(NftError::Unauthorized);
                        }
                    },
                    None => {},
                },
            }
        }
        match &expected_owner {
            Some(e) => {
                if !str_eq(e.as_str(), t.owner_id.as_str()) {
                    return Err(NftError::OwnerMismatch);
                }
            },
            None => {},
        }
        let old_owner = t.owner_id.clone();
        let mut tok = match self.tokens_by_id.update(token_id, Self::vacant_token()) {
            Some(x) => x,
            None => return Err(NftError::UnknownAsset),
        };
        tok.owner_id = receiver_id.clone();
        tok.approved_account_ids.clear();
        self.tokens_by_id.update(token_id, tok);
        remove_token_from_owner(&mut self.tokens_per_owner, old_owner.as_str(), token_id);
        let id = token_id.to_owned();
        add_token_to_owner(&mut self.tokens_per_owner, &receiver_id, &id);
        assert(self.tokens().remove(token_id@) =~= old(self).tokens().remove(token_id@));
        let authorized_id = if is_owner {
            None
        } else {
            Some(caller_id.to_owned())
        };
        Ok(EventLog::transfer(authorized_id, old_owner, receiver_id, id, memo))
    }

    /// The first check that an approval fails, if any: the token must be
    /// known, the caller its owner, the delegate a valid account, and an
    /// approval id must be left to hand out.
    pub open spec fn approve_error(&self, caller_id: Seq<char>, token_id: Seq<char>, account_id: Seq<char>) -> Option<
        NftError,
    > {
        if !self.tokens().contains_key(token_id) {
            Some(NftError::UnknownAsset)
        } else if self.tokens()[token_id].owner_id@ != caller_id {
            Some(NftError::NotOwner)
        } else if !valid_account_id(account_id) {
            Some(NftError::InvalidAccount)
        } else if self.tokens()[token_id].next_approval_id == u64::MAX {
            Some(NftError::ApprovalIdsExhausted)
        } else {
            None
        }
    }

    /// Approves \`account_id\` as a delegate of \`token_id\` under the token's
    /// next approval id, which then advances. Approving a delegate again
    /// gives it a new id, so an id seen before no longer matches.
    pub fn nft_approve(&mut self, caller_id: &str, token_id: &str, account_id: String) -> (r: Result<
        EventLog,
        NftError,
    >)
        requires
            old(self).wf(),
        ensures
            final(self).wf(),
            match old(self).approve_error(caller_id@, token_id@, account_id@) {
                Some(e) => r == Err::<EventLog, NftError>(e) && *final(self) == *old(self),
                None => r matches Ok(ev) && ev.records(
                    EventData::Approve {
                        owner_id: old(self).tokens()[token_id@].owner_id@,
                        token_id: token_id@,
                        account_id: account_id@,
                        approval_id: old(self).tokens()[token_id@].next_approval_id,
                    },
                ) && old(self).approve_step(&*final(self), token_id@, account_id@),
            },
    {
        let t = match self.tokens_by_id.get(token_id) {
            Some(t) => t,
            None => return Err(NftError::UnknownAsset),
        };
        if !str_eq(t.owner_id.as_str(), caller_id) {
            return Err(NftError::NotOwner);
        }
        if !is_valid_account_id(account_id.as_str()) {
            return Err(NftError::InvalidAccount);
        }
        if t.next_approval_id == u64::MAX {
            return Err(NftError::ApprovalIdsExhausted);
        }
        proof {
            self.lemma_registry();
        }
        let owner = t.owner_id.clone();
        let approval_id = t.next_approval_id;
        let mut tok = match self.tokens_by_id.update(token_id, Self::vacant_token()) {
            Some(x) => x,
            None => return Err(NftError::UnknownAsset),
        };
        tok.approved_account_ids.insert(account_id.clone(), approval_id);
        tok.next_approval_id = approval_id + 1;
        self.tokens_by_id.update(token_id, tok);
        assert(self.tokens().remove(token_id@) =~= old(self).tokens().remove(token_id@));
        Ok(EventLog::approve(owner, token_id.to_owned(), account_id, approval_id))
    }

    /// The first check that a revocation fails, if any: the token must be
    /// known and the caller its owner.
    pub open spec fn revoke_error(&self, caller_id: Seq<char>, token_id: Seq<char>) -> Option<NftError> {
        if !self.tokens().contains_key(token_id) {
            Some(NftError::UnknownAsset)
        } else if self.tokens()[token_id].owner_id@ != caller_id {
            Some(NftError::NotOwner)
        } else {
            None
        }
    }

    /// Withdraws the approval of \`account_id\` from \`token_id\`. A delegate
    /// that is not approved is no error, and then nothing changes.
    pub fn nft_revoke(&mut self, caller_id: &str, token_id: &str, account_id: &str) -> (r: Result<
        EventLog,
        NftError,
    >)
        requires
            old(self).wf(),
        ensures
            final(self).wf(),
            match old(self).revoke_error(caller_id@, token_id@) {
                Some(e) => r == Err::<EventLog, NftError>(e) && *final(self) == *old(self),
                None => r matches Ok(ev) && ev.records(
                    EventData::Revoke {
                        owner_id: old(self).tokens()[token_id@].owner_id@,
                        token_id: token_id@,
                        revoked_id: Some(account_id@),
                    },
                ) && old(self).revoke_step(&*final(self), token_id@, account_id@) && (!old(self).tokens()[token_id@].approved_account_ids@.contains_key(account_id@)
                    ==> *final(self) == *old(self)),
            },
    {
        let t = match self.tokens_by_id.get(token_id) {
            Some(t) => t,
            None => return Err(NftError::UnknownAsset),
        };
        if !str_eq(t.owner_id.as_str(), caller_id) {
            return Err(NftError::NotOwner);
        }
        proof {
            self.lemma_registry();
        }
        let owner = t.owner_id.clone();
        if !t.approved_account_ids.contains_key(account_id) {
            assert(t.approved_account_ids@.remove(account_id@) =~= t.approved_account_ids@);
            assert(self.tokens().remove(token_id@).insert(token_id@, *t) =~= self.tokens());
            return Ok(EventLog::revoke(owner, token_id.to_owned(), Some(account_id.to_owned())));
        }
        let mut tok = match self.tokens_by_id.update(token_id, Self::vacant_token()) {
            Some(x) => x,
            None => return Err(NftError::UnknownAsset),
        };
        tok.approved_account_ids.remove(account_id);
        self.tokens_by_id.update(token_id, tok);
        assert(self.tokens().remove(token_id@) =~= old(self).tokens().remove(token_id@));
        Ok(EventLog::revoke(owner, token_id.to_owned(), Some(account_id.to_owned())))
    }

    /// Withdraws every approval of \`token_id\`.
    pub fn nft_revoke_all(&mut self, caller_id: &str, token_id: &str) -> (r: Result<EventLog, NftError>)
        requires
            old(self).wf(),
        ensures
            final(self).wf(),
            match old(self).revoke_error(caller_id@, token_id@) {
                Some(e) => r == Err::<EventLog, NftError>(e) && *final(self) == *old(self),
                None => r matches Ok(ev) && ev.records(
                    EventData::Revoke {
                        owner_id: old(self).tokens()[token_id@].owner_id@,
                        token_id: token_id@,
                        revoked_id: None,
                    },
                ) && old(self).revoke_all_step(&*final(self), token_id@),
            },
    {
        let t = match self.tokens_by_id.get(token_id) {
            Some(t) => t,
            None => return Err(NftError::UnknownAsset),
        };
        if !str_eq(t.owner_id.as_str(), caller_id) {
            return Err(NftError::NotOwner);
        }
        proof {
            self.lemma_registry();
        }
        let owner = t.owner_id.clone();
        let mut tok = match self.tokens_by_id.update(token_id, Self::vacant_token()) {
            Some(x) => x,
            None => return Err(NftError::UnknownAsset),
        };
        tok.approved_account_ids.clear();
        self.tokens_by_id.update(token_id, tok);
        assert(self.tokens().remove(token_id@) =~= old(self).tokens().remove(token_id@));
        Ok(EventLog::revoke(owner, token_id.to_owned(), None))
    }
    /// The views of the tokens whose ids are the keys of rows \`start\` to
    /// \`end\` of \`keys\`.
    fn views_of_keys<V>(&self, keys: &StrMap<V>, start: usize, end: usize) -> (r: Vec<JsonToken>)
        requires
            self.wf(),
            start <= end <= keys.key_seq().len(),
            forall|k: int|
                0 <= k < keys.key_seq().len() ==> self.tokens().contains_key(#[trigger] keys.key_seq()[k]),
        ensures
            r@.len() == end - start,
            forall|j: int|
                0 <= j < r@.len() ==> (#[trigger] r@[j]).shows(
                    keys.key_seq()[start + j],
                    self.tokens()[keys.key_seq()[start + j]],
                    self.token_metadata()[keys.key_seq()[start + j]],
                ),
    {
        let mut out: Vec<JsonToken> = Vec::new();
        let mut i: usize = start;
        while i < end
            invariant
                self.wf(),
                start <= i <= end <= keys.key_seq().len(),
                forall|k: int|
                    0 <= k < keys.key_seq().len() ==> self.tokens().contains_key(#[trigger] keys.key_seq()[k]),
                out@.len() == i - start,
                forall|j: int|
                    0 <= j < out@.len() ==> (#[trigger] out@[j]).shows(
                        keys.key_seq()[start + j],
                        self.tokens()[keys.key_seq()[start + j]],
                        self.token_metadata()[keys.key_seq()[start + j]],
                    ),
            decreases end - i,
        {
            let id = keys.key_at(i);
            assert(self.tokens().contains_key(keys.key_seq()[i as int]));
            let v = self.json_token(id);
            out.push(v);
            i = i + 1;
        }
        out
    }

    /// A page of the tokens of \`account_id\`, in the order of the ownership
    /// index. Reassembled, consecutive pages give each token of the owner
    /// once.
    pub fn nft_tokens_for_owner(&self, account_id: &str, from_index: Option<u64>, limit: Option<u64>) -> (r: Vec<
        JsonToken,
    >)
        requires
            self.wf(),
        ensures
            ({
                let p = page_of(self.owner_tokens(account_id@), from_index, limit);
                &&& r@.len() == p.len()
                &&& forall|j: int|
                    0 <= j < p.len() ==> (#[trigger] r@[j]).shows(p[j], self.tokens()[p[j]], self.token_metadata()[p[j]])
            }),
    {
        match self.tokens_per_owner.get(account_id) {
            None => {
                let r: Vec<JsonToken> = Vec::new();
                assert(page_of(self.owner_tokens(account_id@), from_index, limit) =~= Seq::<Seq<char>>::empty());
                r
            },
            Some(set) => {
                proof {
                    self.lemma_owner_tokens(account_id@);
                    assert forall|k: int| 0 <= k < set.key_seq().len() implies self.tokens().contains_key(
                        #[trigger] set.key_seq()[k],
                    ) by {
                        assert(self.owner_tokens(account_id@).contains(set.key_seq()[k]));
                    }
                }
                let (start, end) = page_bounds(set.len(), from_index, limit);
                let r = self.views_of_keys(set, start, end);
                assert(page_of(self.owner_tokens(account_id@), from_index, limit) == set.key_seq().subrange(
                    start as int,
                    end as int,
                ));
                r
            },
        }
    }

    /// A page of all tokens, in the order in which they were minted.
    pub fn nft_tokens(&self, from_index: Option<u64>, limit: Option<u64>) -> (r: Vec<JsonToken>)
        requires
            self.wf(),
        ensures
            ({
                let p = page_of(self.token_ids(), from_index, limit);
                &&& r@.len() == p.len()
                &&& forall|j: int|
                    0 <= j < p.len() ==> (#[trigger] r@[j]).shows(p[j], self.tokens()[p[j]], self.token_metadata()[p[j]])
            }),
    {
        proof {
            self.lemma_registry();
            assert forall|k: int| 0 <= k < self.tokens_by_id.key_seq().len() implies self.tokens().contains_key(
                #[trigger] self.tokens_by_id.key_seq()[k],
            ) by {
                assert(self.token_ids().contains(self.token_ids()[k]));
            }
        }
        let (start, end) = page_bounds(self.tokens_by_id.len(), from_index, limit);
        let r = self.views_of_keys(&self.tokens_by_id, start, end);
        assert(page_of(self.token_ids(), from_index, limit) == self.tokens_by_id.key_seq().subrange(
            start as int,
            end as int,
        ));
        r
    }
    /// The metadata for the next token to be minted, numbered by the mint
    /// counter, with \`image\` and \`asset\` under the gateway.
    pub fn next_token_metadata(&self, image: &str, asset: &str, issued_at: u64) -> (r: TokenMetadata)
        ensures
            is_mint_metadata(r, self.minted(), image@, asset@, issued_at),
    {
        mint_metadata(self.token_minted, image, asset, issued_at)
    }
}

/// The interface of the whitelist contract that mints may consult: how many
/// tokens an account may still mint.
pub trait ExtCrossWhitelist {
    fn on_get_whitelist(&self, quantity: u128) -> u128;
}

} // verus!
