//! The metadata that a privileged mint gives a new token: a numbered title,
//! the image under the IPFS gateway, and the asset's URL as JSON in `extra`.
use vstd::prelude::*;
use crate::events::opt_chars;
use crate::metadata::TokenMetadata;

verus! {

/// The IPFS gateway directory that images and assets are served from.
pub const NFT_IMAGES: &'static str = "https://cloudflare-ipfs.com/ipfs/QmcsNiFBkXMkabtmQKurMimDxSi5JumuAsRgodpBZSMjJd/";

/// The title of a token, before its number.
pub const TITLE_PREFIX: &'static str = "NEAR Avatar #";

/// The description that every minted token carries.
pub const TOKEN_DESCRIPTION: &'static str = "NEAR World Order limited edition NFTs created for NEARCon attendees. This NFT represents the beginning of The NEAR World Order. The NEAR World Order of blockchain is here; mass adoption is NEAR!\n            *10 Lucky holders who get the Hollywood Logan NFT, can claim a Tshirt from the NEAR Hub booth at NEAR Con 2022. *";

/// The edition size that every minted token states.
pub const TOKEN_COPIES: u64 = 999;

/// The ten decimal digits, in order.
pub open spec fn digit_chars() -> Seq<char> {
    seq!['0', '1', '2', '3', '4', '5', '6', '7', '8', '9']
}

/// The sixteen lower-case hexadecimal digits, in order.
pub open spec fn hex_chars() -> Seq<char> {
    seq!['0', '1', '2', '3', '4', '5', '6', '7', '8', '9', 'a', 'b', 'c', 'd', 'e', 'f']
}

/// The decimal numeral of `n`, without leading zeros.
pub open spec fn decimal(n: nat) -> Seq<char>
    decreases n,
{
    if n < 10 {
        seq![digit_chars()[n as int]]
    } else {
        decimal(n / 10).push(digit_chars()[(n % 10) as int])
    }
}

/// How one character is written inside a JSON string: quote and backslash
/// escaped, control characters by their short escape or as `\u00XX`.
pub open spec fn json_escape(c: char) -> Seq<char> {
    if c == '"' {
        seq!['\\', '"']
    } else if c == '\\' {
        seq!['\\', '\\']
    } else if c == '\x08' {
        seq!['\\', 'b']
    } else if c == '\x0c' {
        seq!['\\', 'f']
    } else if c == '\n' {
        seq!['\\', 'n']
    } else if c == '\r' {
        seq!['\\', 'r']
    } else if c == '\t' {
        seq!['\\', 't']
    } else if (c as u32) < 0x20 {
        seq!['\\', 'u', '0', '0', hex_chars()[(c as u32 / 16) as int], hex_chars()[(c as u32 % 16) as int]]
    } else {
        seq![c]
    }
}

/// The characters of `s`, each written as inside a JSON string.
pub open spec fn json_escaped(s: Seq<char>) -> Seq<char>
    decreases s.len(),
{
    if s.len() == 0 {
        Seq::empty()
    } else {
        json_escaped(s.drop_last()) + json_escape(s.last())
    }
}

/// `s` as a JSON string literal.
pub open spec fn json_string(s: Seq<char>) -> Seq<char> {
    seq!['"'] + json_escaped(s) + seq!['"']
}

/// The JSON object that names the asset at `url`.
pub open spec fn asset_extra(url: Seq<char>) -> Seq<char> {
    "{\"asset\":"@ + json_string(url) + "}"@
}

/// \`m\` is the metadata of the token minted as number \`number\` (counting
/// from zero), with image \`image\` and asset \`asset\` under the gateway,
/// issued at \`issued_at\`.
pub open spec fn is_mint_metadata(m: TokenMetadata, number: u16, image: Seq<char>, asset: Seq<char>, issued_at: u64) -> bool {
    &&& opt_chars(m.title) == Some(TITLE_PREFIX@ + decimal(number as nat))
    &&& opt_chars(m.description) == Some(TOKEN_DESCRIPTION@)
    &&& opt_chars(m.media) == Some(NFT_IMAGES@ + image)
    &&& m.media_hash.is_none()
    &&& m.copies == Some(TOKEN_COPIES)
    &&& m.issued_at == Some(issued_at)
    &&& m.expires_at.is_none()
    &&& m.starts_at.is_none()
    &&& m.updated_at.is_none()
    &&& opt_chars(m.extra) == Some(asset_extra(NFT_IMAGES@ + asset))
    &&& m.reference.is_none()
    &&& m.reference_hash.is_none()
}

/// Relies on `serde_json::to_string` of a string slice, which writes a
/// quote, each character escaped as `json_escape` gives (the escape table
/// in serde_json's serializer, compact formatter), and a quote. Serialising a
/// `str` into memory cannot fail, so the error arm is never taken.
#[verifier::external_body]
fn to_json_string(s: &str) -> (r: String)
    ensures
        r@ == json_string(s@),
{
    near_sdk::serde_json::to_string(s).unwrap_or_default()
}

/// The one-character string of digit `d`.
fn digit_str(d: u64) -> (r: &'static str)
    requires
        d < 10,
    ensures
        r@ == seq![digit_chars()[d as int]],
{
    proof {
        reveal_strlit("0");
        reveal_strlit("1");
        reveal_strlit("2");
        reveal_strlit("3");
        reveal_strlit("4");
        reveal_strlit("5");
        reveal_strlit("6");
        reveal_strlit("7");
        reveal_strlit("8");
        reveal_strlit("9");
    }
    match d {
        0 => "0",
        1 => "1",
        2 => "2",
        3 => "3",
        4 => "4",
        5 => "5",
        6 => "6",
        7 => "7",
        8 => "8",
        _ => "9",
    }
}

/// The decimal numeral of `n`.
pub fn decimal_string(n: u64) -> (r: String)
    ensures
        r@ == decimal(n as nat),
    decreases n,
{
    if n < 10 {
        String::from_str(digit_str(n))
    } else {
        let mut s = decimal_string(n / 10);
        s.append(digit_str(n % 10));
        s
    }
}

/// The metadata of the token minted as number `number` (counting from
/// zero), with image `image` and asset `asset` under the gateway, issued at
/// `issued_at`.
pub fn mint_metadata(number: u16, image: &str, asset: &str, issued_at: u64) -> (r: TokenMetadata)
    ensures
        is_mint_metadata(r, number, image@, asset@, issued_at),
{
    let mut title = String::from_str(TITLE_PREFIX);
    let digits = decimal_string(number as u64);
    title.append(digits.as_str());
    let mut media = String::from_str(NFT_IMAGES);
    media.append(image);
    let mut asset_url = String::from_str(NFT_IMAGES);
    asset_url.append(asset);
    let mut extra = String::from_str("{\"asset\":");
    let quoted = to_json_string(asset_url.as_str());
    extra.append(quoted.as_str());
    extra.append("}");
    TokenMetadata {
        title: Some(title),
        description: Some(String::from_str(TOKEN_DESCRIPTION)),
        media: Some(media),
        media_hash: None,
        copies: Some(TOKEN_COPIES),
        issued_at: Some(issued_at),
        expires_at: None,
        starts_at: None,
        updated_at: None,
        extra: Some(extra),
        reference: None,
        reference_hash: None,
    }
}

} // verus!
