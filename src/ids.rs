//! Ledger identifiers in their canonical text form, read through the ledger library.

use vstd::prelude::*;
use crate::encoding::{hex_of, is_hex_text, unhex};

verus! {

/// Whether text starts with `0x`.
pub open spec fn has_0x(s: Seq<char>) -> bool {
    s.len() >= 2 && s[0] == '0' && s[1] == 'x'
}

/// Account owner text: `0x` followed by 64, 40 or 2 hexadecimal digits.
pub open spec fn is_owner_text(s: Seq<char>) -> bool {
    let rest = s.subrange(2, s.len() as int);
    &&& has_0x(s)
    &&& is_hex_text(rest)
    &&& (rest.len() == 64 || rest.len() == 40 || rest.len() == 2)
}

/// The canonical text of an account owner: `0x` and lowercase digits.
pub open spec fn canonical_owner(s: Seq<char>) -> Seq<char> {
    "0x"@ + hex_of(unhex(s.subrange(2, s.len() as int)))
}

/// Chain id text: 64 hexadecimal digits.
pub open spec fn is_chain_text(s: Seq<char>) -> bool {
    is_hex_text(s) && s.len() == 64
}

/// The canonical text of a chain id: lowercase digits.
pub open spec fn canonical_chain(s: Seq<char>) -> Seq<char> {
    hex_of(unhex(s))
}

/// Relies on `FromStr` and `Display` for `linera_base::identifiers::AccountOwner`: an owner is
/// `0x` and 64, 40 or 2 hexadecimal digits of either case, and displays as `0x` and the same
/// bytes in lowercase digits.
#[verifier::external_body]
pub(crate) fn parse_account_owner(s: &str) -> (r: Option<String>)
    ensures
        r is Some <==> is_owner_text(s@),
        r is Some ==> r->Some_0@ == canonical_owner(s@),
{
    match s.parse::<linera_base::identifiers::AccountOwner>() {
        Ok(owner) => Some(owner.to_string()),
        Err(_) => None,
    }
}

/// Relies on `FromStr` and `Display` for `linera_base::identifiers::ChainId`: a chain id is
/// 64 hexadecimal digits of either case, and displays as the same bytes in lowercase digits.
#[verifier::external_body]
pub(crate) fn parse_chain_id(s: &str) -> (r: Option<String>)
    ensures
        r is Some <==> is_chain_text(s@),
        r is Some ==> r->Some_0@ == canonical_chain(s@),
{
    match s.parse::<linera_base::identifiers::ChainId>() {
        Ok(chain) => Some(chain.to_string()),
        Err(_) => None,
    }
}

} // verus!
