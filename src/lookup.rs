//! Finding passports among those the indexer reports, and the stand-in record used when an
//! owner has none.

use vstd::prelude::*;
use crate::ids::{canonical_chain, is_chain_text, parse_chain_id};
use crate::json::{Json, JsonNumber};
use crate::passport::{PassportInfo, PassportToken, TokenIdError, token_bytes};

verus! {

/// The text in lowercase, as the standard library folds case.
pub uninterp spec fn lower_of(s: Seq<char>) -> Seq<char>;

/// Relies on `str::to_lowercase`: the lowercase text depends on the text alone.
#[verifier::external_body]
fn lowercase(s: &str) -> (r: String)
    ensures
        r@ == lower_of(s@),
{
    s.to_lowercase()
}

/// Whether two owner texts are equal ignoring case.
pub open spec fn same_owner(a: Seq<char>, b: Seq<char>) -> bool {
    lower_of(a) == lower_of(b)
}

/// The position of the first passport whose owner equals `owner` ignoring case.
pub fn find_passport_by_owner(passports: &Vec<PassportInfo>, owner: &str) -> (r: Option<usize>)
    ensures
        r matches Some(i) ==> i < passports.len() && same_owner(passports@[i as int].owner@, owner@)
            && forall|j: int| 0 <= j < i ==> !same_owner(#[trigger] passports@[j].owner@, owner@),
        r is None ==> forall|j: int|
            0 <= j < passports.len() ==> !same_owner(#[trigger] passports@[j].owner@, owner@),
{
    let wanted = lowercase(owner);
    let mut i: usize = 0;
    while i < passports.len()
        invariant
            0 <= i <= passports.len(),
            wanted@ == lower_of(owner@),
            forall|j: int| 0 <= j < i ==> !same_owner(#[trigger] passports@[j].owner@, owner@),
        decreases passports.len() - i,
    {
        let candidate = lowercase(passports[i].owner.as_str());
        if candidate == wanted {
            return Some(i);
        }
        i += 1;
    }
    None
}

/// Whether two byte strings are equal.
fn same_bytes(a: &[u8], b: &[u8]) -> (r: bool)
    ensures
        r == (a@ == b@),
{
    if a.len() != b.len() {
        return false;
    }
    let mut i: usize = 0;
    while i < a.len()
        invariant
            0 <= i <= a.len(),
            a@.len() == b@.len(),
            forall|j: int| 0 <= j < i ==> a@[j] == b@[j],
        decreases a.len() - i,
    {
        if a[i] != b[i] {
            return false;
        }
        i += 1;
    }
    assert(a@ =~= b@);
    true
}

/// Whether a passport's token id is exactly `token_id`.
pub open spec fn has_token(p: PassportInfo, token_id: Seq<u8>) -> bool {
    token_bytes(p.token_id.id) == Ok::<Option<Seq<u8>>, TokenIdError>(Some(token_id))
}

/// The position of the first passport whose token id reads as exactly `token_id`.
pub fn find_passport_by_token(passports: &Vec<PassportInfo>, token_id: &[u8]) -> (r: Option<usize>)
    ensures
        r matches Some(i) ==> i < passports.len() && has_token(passports@[i as int], token_id@)
            && forall|j: int| 0 <= j < i ==> !has_token(#[trigger] passports@[j], token_id@),
        r is None ==> forall|j: int|
            0 <= j < passports.len() ==> !has_token(#[trigger] passports@[j], token_id@),
{
    let mut i: usize = 0;
    while i < passports.len()
        invariant
            0 <= i <= passports.len(),
            forall|j: int| 0 <= j < i ==> !has_token(#[trigger] passports@[j], token_id@),
        decreases passports.len() - i,
    {
        match passports[i].token_id_bytes() {
            Ok(Some(bytes)) => {
                if same_bytes(bytes.as_slice(), token_id) {
                    return Some(i);
                }
            },
            _ => {},
        }
        i += 1;
    }
    None
}

/// The chain whose activity a quick score reads: the passport's owner chain, or the
/// operation chain when the owner has no passport; `None` when that id is not a chain id.
pub fn quick_score_chain(passport: Option<&PassportInfo>, operation_chain_id: &String) -> (r: Option<
    String,
>)
    ensures
        ({
            let chosen = match passport {
                Some(p) => p.owner_chain@,
                None => operation_chain_id@,
            };
            &&& r is Some <==> is_chain_text(chosen)
            &&& r matches Some(c) ==> c@ == canonical_chain(chosen)
        }),
{
    match passport {
        Some(p) => parse_chain_id(p.owner_chain.as_str()),
        None => parse_chain_id(operation_chain_id.as_str()),
    }
}

/// The stand-in record of an owner without a passport: a token id of sixteen zero bytes,
/// no achievements and a zero score.
pub fn placeholder_passport(owner: String, owner_chain: String) -> (r: PassportInfo)
    ensures
        r.owner == owner,
        r.owner_chain == owner_chain,
        r.score == Some(0u64),
        r.achievements matches Some(v) && v@.len() == 0,
        token_bytes(r.token_id.id) == Ok::<Option<Seq<u8>>, TokenIdError>(
            Some(Seq::new(16, |i: int| 0u8)),
        ),
{
    let mut id: Vec<Json> = Vec::new();
    let mut i: usize = 0;
    while i < 16
        invariant
            0 <= i <= 16,
            id@.len() == i,
            forall|j: int| 0 <= j < i ==> id@[j] == Json::Number(JsonNumber::Unsigned(0)),
        decreases 16 - i,
    {
        id.push(Json::Number(JsonNumber::Unsigned(0)));
        i += 1;
    }
    let r = PassportInfo {
        token_id: PassportToken { id: Json::Array(id) },
        owner,
        owner_chain,
        achievements: Some(Vec::new()),
        score: Some(0),
    };
    proof {
        let values = id@;
        assert(Seq::new(values.len(), |i: int| crate::passport::byte_of(values[i])->Some_0)
            =~= Seq::new(16, |i: int| 0u8));
    }
    r
}

} // verus!
