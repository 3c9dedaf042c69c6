//! Passport records as the indexer reports them, and the decoding of their token ids.

use vstd::prelude::*;
use crate::encoding::{decode_hex, encode_hex, hex_of, is_hex_text, unhex};
use crate::ids::{
    canonical_chain, canonical_owner, is_chain_text, is_owner_text, parse_account_owner,
    parse_chain_id,
};
use crate::json::{Json, JsonNumber};

verus! {

/// Why a token id could not be read as bytes.
#[derive(Clone, Copy, Debug, PartialEq, Eq)]
pub enum TokenIdError {
    /// An array element is not an integer from 0 to 255.
    InvalidByte,
    /// A text id is not hexadecimal.
    InvalidHex,
    /// The id is neither null, an array nor text.
    UnexpectedForm,
}

/// A token id in whichever form the indexer reported it: null, an array of byte values,
/// or hexadecimal text with an optional `0x` prefix.
#[derive(Debug)]
pub struct PassportToken {
    pub id: Json,
}

/// A passport record as reported by the indexer.
#[derive(Debug)]
pub struct PassportInfo {
    pub token_id: PassportToken,
    pub owner: String,
    pub owner_chain: String,
    pub achievements: Option<Vec<String>>,
    pub score: Option<u64>,
}

/// The byte that an array element stands for.
pub open spec fn byte_of(v: Json) -> Option<u8> {
    match v.u64_value() {
        Some(n) => if n <= 255 {
            Some(n as u8)
        } else {
            None
        },
        None => None,
    }
}

/// Text without a leading `0x`.
pub open spec fn without_0x(s: Seq<char>) -> Seq<char> {
    if s.len() >= 2 && s[0] == '0' && s[1] == 'x' {
        s.subrange(2, s.len() as int)
    } else {
        s
    }
}

/// The bytes of a token id; `None` for null or empty text.
pub open spec fn token_bytes(id: Json) -> Result<Option<Seq<u8>>, TokenIdError> {
    match id {
        Json::Null => Ok(None),
        Json::Array(values) => if forall|i: int|
            0 <= i < values@.len() ==> #[trigger] byte_of(values@[i]) is Some {
            Ok(Some(Seq::new(values@.len(), |i: int| byte_of(values@[i])->Some_0)))
        } else {
            Err(TokenIdError::InvalidByte)
        },
        Json::Text(s) => if s@.len() == 0 {
            Ok(None)
        } else if is_hex_text(without_0x(s@)) {
            Ok(Some(unhex(without_0x(s@))))
        } else {
            Err(TokenIdError::InvalidHex)
        },
        _ => Err(TokenIdError::UnexpectedForm),
    }
}

/// The mathematical content of a decoding result.
pub open spec fn bytes_view(r: Result<Option<Vec<u8>>, TokenIdError>) -> Result<
    Option<Seq<u8>>,
    TokenIdError,
> {
    match r {
        Ok(Some(b)) => Ok(Some(b@)),
        Ok(None) => Ok(None),
        Err(e) => Err(e),
    }
}

/// The record identifier of a passport: its token bytes in hexadecimal, or `unknown`.
pub open spec fn passport_id_of(p: PassportInfo) -> Seq<char> {
    match token_bytes(p.token_id.id) {
        Ok(Some(b)) => hex_of(b),
        _ => "unknown"@,
    }
}

/// The text without a leading `0x`.
fn strip_0x(s: &str) -> (r: &str)
    ensures
        r@ == without_0x(s@),
{
    let n = s.unicode_len();
    if n >= 2 && s.get_char(0) == '0' && s.get_char(1) == 'x' {
        s.substring_char(2, n)
    } else {
        s
    }
}

/// The bytes of an array of byte values.
fn bytes_of_array(values: &Vec<Json>) -> (r: Option<Vec<u8>>)
    ensures
        r is Some <==> (forall|i: int| 0 <= i < values@.len() ==> #[trigger] byte_of(values@[i]) is Some),
        r is Some ==> r->Some_0@ == Seq::new(values@.len(), |i: int| byte_of(values@[i])->Some_0),
{
    let mut bytes: Vec<u8> = Vec::new();
    let mut i: usize = 0;
    while i < values.len()
        invariant
            0 <= i <= values.len(),
            bytes@.len() == i,
            forall|j: int| 0 <= j < i ==> #[trigger] byte_of(values@[j]) is Some,
            forall|j: int| 0 <= j < i ==> bytes@[j] == byte_of(values@[j])->Some_0,
        decreases values.len() - i,
    {
        match values[i].as_u64() {
            Some(n) => {
                if n > 255 {
                    assert(byte_of(values@[i as int]) is None);
                    return None;
                }
                bytes.push(n as u8);
            },
            None => {
                assert(byte_of(values@[i as int]) is None);
                return None;
            },
        }
        i += 1;
    }
    proof {
        assert(bytes@ =~= Seq::new(values@.len(), |i: int| byte_of(values@[i])->Some_0));
    }
    Some(bytes)
}

impl PassportToken {
    /// The bytes of the token id; `None` for a null id or empty text.
    pub fn as_bytes(&self) -> (r: Result<Option<Vec<u8>>, TokenIdError>)
        ensures
            bytes_view(r) == token_bytes(self.id),
    {
        match &self.id {
            Json::Null => Ok(None),
            Json::Array(values) => match bytes_of_array(values) {
                Some(b) => Ok(Some(b)),
                None => Err(TokenIdError::InvalidByte),
            },
            Json::Text(s) => {
                if s.as_str().unicode_len() == 0 {
                    return Ok(None);
                }
                match decode_hex(strip_0x(s.as_str())) {
                    Some(b) => Ok(Some(b)),
                    None => Err(TokenIdError::InvalidHex),
                }
            },
            _ => Err(TokenIdError::UnexpectedForm),
        }
    }
}

impl PassportInfo {
    /// The bytes of the passport's token id.
    pub fn token_id_bytes(&self) -> (r: Result<Option<Vec<u8>>, TokenIdError>)
        ensures
            bytes_view(r) == token_bytes(self.token_id.id),
    {
        self.token_id.as_bytes()
    }

    /// The owner in canonical text form, when it is an account owner.
    pub fn owner_account(&self) -> (r: Option<String>)
        ensures
            r is Some <==> is_owner_text(self.owner@),
            r is Some ==> r->Some_0@ == canonical_owner(self.owner@),
    {
        parse_account_owner(self.owner.as_str())
    }

    /// The owner chain in canonical text form, when it is a chain id.
    pub fn owner_chain_id(&self) -> (r: Option<String>)
        ensures
            r is Some <==> is_chain_text(self.owner_chain@),
            r is Some ==> r->Some_0@ == canonical_chain(self.owner_chain@),
    {
        parse_chain_id(self.owner_chain.as_str())
    }

    /// The record identifier: the token bytes in hexadecimal, or `unknown`.
    pub fn passport_id(&self) -> (r: String)
        ensures
            r@ == passport_id_of(*self),
    {
        match self.token_id_bytes() {
            Ok(Some(b)) => encode_hex(b.as_slice()),
            _ => "unknown".to_string(),
        }
    }
}

} // verus!
