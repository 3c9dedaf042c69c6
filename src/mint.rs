//! The parameters of a demonstration mint.

use vstd::prelude::*;
use crate::contract::{MintArgs, TokenId};
use crate::encoding::{decimal_of, decimal_text, encode_hex, hex_of};

verus! {

/// The content hash text of some bytes: `0x` and their lowercase hexadecimal digits.
pub fn content_hash_text(bytes: &[u8]) -> (r: String)
    ensures
        r@ == "0x"@ + hex_of(bytes@),
{
    let mut text = "0x".to_string();
    let digits = encode_hex(bytes);
    text.append(digits.as_str());
    text
}

/// The mint of a new passport with token `token_id` at `timestamp_secs`, whose content hash
/// is made of `hash_bytes`.
pub fn mint_args_for(token_id: Vec<u8>, timestamp_secs: u64, hash_bytes: &[u8]) -> (r: MintArgs)
    ensures
        r.token_id.id == token_id,
        r.metadata_uri@ == "ipfs://QmPassportMetadata"@ + decimal_of(timestamp_secs as nat),
        r.image_uri@ == "ipfs://QmPassportImage"@ + decimal_of(timestamp_secs as nat),
        r.content_hash@ == "0x"@ + hex_of(hash_bytes@),
{
    let stamp = decimal_text(timestamp_secs);
    let mut metadata_uri = "ipfs://QmPassportMetadata".to_string();
    metadata_uri.append(stamp.as_str());
    let mut image_uri = "ipfs://QmPassportImage".to_string();
    image_uri.append(stamp.as_str());
    MintArgs {
        token_id: TokenId { id: token_id },
        metadata_uri,
        image_uri,
        content_hash: content_hash_text(hash_bytes),
    }
}

} // verus!
