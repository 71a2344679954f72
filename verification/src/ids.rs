//! Identifiers: UUIDs and the token numbers and token lists of Polymarket.
use crate::text::concat3;
use alloy_primitives::U256;
use std::str::FromStr;
use uuid::Uuid;
use vstd::prelude::*;

verus! {

/// The text of the version 5 UUID of `seed` in the OID namespace, as
/// `Uuid::new_v5` computes it.
pub uninterp spec fn uuid_v5(seed: Seq<char>) -> Seq<char>;

/// Whether `Uuid::try_parse` accepts the text.
pub uninterp spec fn is_uuid(text: Seq<char>) -> bool;

/// The four 64-bit limbs, lowest first, of the number that `U256::from_str`
/// reads.
pub uninterp spec fn u256_limbs(text: Seq<char>) -> Option<Seq<u64>>;

/// The list of strings that `serde_json::from_str` reads from a JSON array.
pub uninterp spec fn json_strings(text: Seq<char>) -> Option<Seq<Seq<char>>>;

/// The character sequences of a list of strings.
pub open spec fn views(list: Seq<String>) -> Seq<Seq<char>> {
    list.map_values(|s: String| s@)
}

/// Calls `Uuid::new_v5` with the OID namespace and renders the UUID. The text is
/// named [`uuid_v5`], and `Uuid::try_parse` accepts it.
#[verifier::external_body]
pub(crate) fn new_v5(seed: &str) -> (r: String)
    ensures
        r@ == uuid_v5(seed@),
        is_uuid(r@),
{
    Uuid::new_v5(&Uuid::NAMESPACE_OID, seed.as_bytes()).to_string()
}

/// Calls `Uuid::try_parse` and keeps whether it succeeded, which is named
/// [`is_uuid`].
#[verifier::external_body]
pub(crate) fn try_parse(text: &str) -> (r: bool)
    ensures
        r == is_uuid(text@),
{
    Uuid::try_parse(text).is_ok()
}

/// Calls `Uuid::new_v4` and renders the UUID. The UUID is random; all that is
/// claimed is that `Uuid::try_parse` accepts its text.
#[verifier::external_body]
pub(crate) fn new_v4() -> (r: String)
    ensures
        is_uuid(r@),
{
    Uuid::new_v4().to_string()
}

/// Calls `U256::from_str` and hands out the limbs, which are named
/// [`u256_limbs`].
#[verifier::external_body]
pub(crate) fn parse_u256(text: &str) -> (r: Option<[u64; 4]>)
    ensures
        r matches Some(limbs) ==> u256_limbs(text@) == Some(limbs@),
        r is None ==> u256_limbs(text@) is None,
{
    U256::from_str(text).ok().map(|n| n.into_limbs())
}

/// Calls `serde_json::from_str` for a list of strings, which is named
/// [`json_strings`].
#[verifier::external_body]
pub(crate) fn parse_json_strings(text: &str) -> (r: Option<Vec<String>>)
    ensures
        r matches Some(list) ==> json_strings(text@) == Some(views(list@)),
        r is None ==> json_strings(text@) is None,
{
    serde_json::from_str(text).ok()
}

/// The version 5 UUID of `seed` in the OID namespace.
pub fn generate_uuid_v5(seed: &str) -> (r: String)
    ensures
        r@ == uuid_v5(seed@),
        is_uuid(r@),
{
    new_v5(seed)
}

/// A random UUID.
pub fn random_id() -> (r: String)
    ensures
        is_uuid(r@),
{
    new_v4()
}

/// The UUID of the two texts joined by a colon.
pub fn joined_id(left: &str, right: &str) -> (r: String)
    ensures
        r@ == uuid_v5(left@ + ":"@ + right@),
        is_uuid(r@),
{
    let seed = concat3(left, ":", right);
    new_v5(seed.as_str())
}

} // verus!
