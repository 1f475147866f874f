//! The JSON boundary. The provider's documents and the token's decoded
//! segments are dynamic JSON; serde_json reads them behind the trusted
//! accessors below. Each accessor's result is a function of the bytes
//! alone, so it carries a name, and the verified parsers above them owe
//! success, and the exact field values, whenever the named extraction
//! succeeds.

use vstd::prelude::*;
use crate::cause::RejectionCause;
use crate::keyset::KeyEntry;
use crate::keyset::KeySet;
use crate::keyset::entries_match;
use crate::token::Claims;
use crate::token::TokenHeader;
use crate::token::claims_of_fields;
use crate::token::header_of_fields;

verus! {

/// The value of the string field `key` at the top level of the JSON
/// document `bytes`; `None` where the bytes are not a JSON object, the
/// key is absent, or the value is not a string.
pub uninterp spec fn json_str_field_of(bytes: Seq<u8>, key: Seq<char>) -> Option<Seq<char>>;

/// The value of the unsigned-integer field `key` at the top level of
/// the JSON document `bytes`; `None` where the bytes are not a JSON
/// object, the key is absent, or the value is not an integer that fits
/// an unsigned 64-bit number.
pub uninterp spec fn json_u64_field_of(bytes: Seq<u8>, key: Seq<char>) -> Option<u64>;

/// The key entries of a key-set document: one `(kid, x5c)` pair per
/// element of the top-level `keys` array, an absent `x5c` read as an
/// empty chain; `None` where the bytes are not a JSON object with a
/// `keys` array, an entry lacks a string `kid`, or a present `x5c` is
/// not an array of strings.
pub uninterp spec fn key_entries_of(bytes: Seq<u8>) -> Option<Seq<(Seq<char>, Seq<Seq<char>>)>>;

/// Relies on serde_json::from_slice::<Value>, Value::get and
/// Value::as_str: reads one top-level string field of a document.
#[verifier::external_body]
fn json_str_field(bytes: &Vec<u8>, key: &str) -> (r: Option<String>)
    ensures
        r matches Some(v) ==> json_str_field_of(bytes@, key@) == Some(v@),
        r is None ==> json_str_field_of(bytes@, key@) is None,
{
    let v: serde_json::Value = serde_json::from_slice(bytes.as_slice()).ok()?;
    Some(v.get(key)?.as_str()?.to_owned())
}

/// Relies on serde_json::from_slice::<Value>, Value::get and
/// Value::as_u64: reads one top-level unsigned-integer field of a
/// document.
#[verifier::external_body]
fn json_u64_field(bytes: &Vec<u8>, key: &str) -> (r: Option<u64>)
    ensures
        r matches Some(v) ==> json_u64_field_of(bytes@, key@) == Some(v),
        r is None ==> json_u64_field_of(bytes@, key@) is None,
{
    let v: serde_json::Value = serde_json::from_slice(bytes.as_slice()).ok()?;
    v.get(key)?.as_u64()
}

/// Relies on serde_json::from_slice::<Value>, Value::get, Value::as_array
/// and Value::as_str: reads the `keys` array of a key-set document into
/// `(kid, x5c)` entries, exactly as `key_entries_of` names them.
#[verifier::external_body]
fn key_entries(bytes: &Vec<u8>) -> (r: Option<Vec<KeyEntry>>)
    ensures
        r matches Some(es) ==> (key_entries_of(bytes@) matches Some(m) && entries_match(es@, m)),
        r is None ==> key_entries_of(bytes@) is None,
{
    let v: serde_json::Value = serde_json::from_slice(bytes.as_slice()).ok()?;
    v.get("keys")?.as_array()?.iter().map(|e| {
        let kid = e.get("kid")?.as_str()?.to_owned();
        let x5c = match e.get("x5c") {
            None => Vec::new(),
            Some(xs) => xs.as_array()?.iter().map(|c| Some(c.as_str()?.to_owned())).collect::<
                Option<Vec<String>>,
            >()?,
        };
        Some(KeyEntry { kid, x5c })
    }).collect()
}

/// An optional claim equals its named extraction: both absent, or both
/// present with the same characters.
pub open spec fn opt_str_matches(v: Option<String>, m: Option<Seq<char>>) -> bool {
    match (v, m) {
        (Option::None, Option::None) => true,
        (Option::Some(s), Option::Some(t)) => s@ == t,
        _ => false,
    }
}

/// Reads the token's decoded header segment. Succeeds exactly where the
/// named `alg` and `kid` string fields are present, and carries exactly
/// their values; a document without a readable `alg` is a malformed
/// token, one with `alg` but no `kid` is `MissingKeyIdentifier`.
pub fn parse_header(bytes: &Vec<u8>) -> (r: Result<TokenHeader, RejectionCause>)
    ensures
        r is Ok <==> (json_str_field_of(bytes@, "alg"@) is Some && json_str_field_of(
            bytes@,
            "kid"@,
        ) is Some),
        r matches Ok(h) ==> (json_str_field_of(bytes@, "alg"@) == Some(h.alg@)
            && json_str_field_of(bytes@, "kid"@) == Some(h.kid@)),
        json_str_field_of(bytes@, "alg"@) is None ==> r == Err::<TokenHeader, RejectionCause>(
            RejectionCause::MalformedToken,
        ),
        json_str_field_of(bytes@, "alg"@) is Some && json_str_field_of(bytes@, "kid"@) is None
            ==> r == Err::<TokenHeader, RejectionCause>(RejectionCause::MissingKeyIdentifier),
{
    header_of_fields(json_str_field(bytes, "alg"), json_str_field(bytes, "kid"))
}

/// Reads the token's decoded payload segment into the (not yet trusted)
/// claims record. Succeeds exactly where the named `aud` and `iss`
/// strings and `exp` integer are present; every claim, the optional
/// ones included, equals its named extraction.
pub fn parse_payload(bytes: &Vec<u8>) -> (r: Result<Claims, RejectionCause>)
    ensures
        r is Ok <==> (json_str_field_of(bytes@, "aud"@) is Some && json_str_field_of(
            bytes@,
            "iss"@,
        ) is Some && json_u64_field_of(bytes@, "exp"@) is Some),
        r matches Err(c) ==> c == RejectionCause::MalformedToken,
        r matches Ok(c) ==> (json_str_field_of(bytes@, "aud"@) == Some(c.aud@)
            && json_str_field_of(bytes@, "iss"@) == Some(c.iss@) && json_u64_field_of(
            bytes@,
            "exp"@,
        ) == Some(c.exp) && opt_str_matches(c.scp, json_str_field_of(bytes@, "scp"@))
            && opt_str_matches(c.tid, json_str_field_of(bytes@, "tid"@)) && opt_str_matches(
            c.oid,
            json_str_field_of(bytes@, "oid"@),
        ) && opt_str_matches(c.email, json_str_field_of(bytes@, "email"@)) && opt_str_matches(
            c.name,
            json_str_field_of(bytes@, "name"@),
        )),
{
    claims_of_fields(
        json_str_field(bytes, "aud"),
        json_str_field(bytes, "iss"),
        json_u64_field(bytes, "exp"),
        json_str_field(bytes, "scp"),
        json_str_field(bytes, "tid"),
        json_str_field(bytes, "oid"),
        json_str_field(bytes, "email"),
        json_str_field(bytes, "name"),
    )
}

/// Reads the discovery document down to its one field of interest.
/// Succeeds exactly where the named `jwks_uri` string field is present
/// and returns exactly it; everything else is `DiscoveryUnavailable`,
/// the same classification the caller gives a failed fetch.
pub fn parse_discovery(bytes: &Vec<u8>) -> (r: Result<String, RejectionCause>)
    ensures
        r is Ok <==> json_str_field_of(bytes@, "jwks_uri"@) is Some,
        r matches Ok(u) ==> json_str_field_of(bytes@, "jwks_uri"@) == Some(u@),
        r matches Err(c) ==> c == RejectionCause::DiscoveryUnavailable,
{
    match json_str_field(bytes, "jwks_uri") {
        Option::None => Err(RejectionCause::DiscoveryUnavailable),
        Option::Some(u) => Ok(u),
    }
}

/// Reads the key-set document. Succeeds exactly where the named entry
/// extraction does, and the returned set lists exactly the named
/// entries, in order; any other shape rejects the whole document as
/// `KeySetUnavailable` rather than trusting it partially.
pub fn parse_key_set(bytes: &Vec<u8>) -> (r: Result<KeySet, RejectionCause>)
    ensures
        r is Ok <==> key_entries_of(bytes@) is Some,
        r matches Ok(ks) ==> (key_entries_of(bytes@) matches Some(m) && entries_match(
            ks.keys@,
            m,
        )),
        r matches Err(c) ==> c == RejectionCause::KeySetUnavailable,
{
    match key_entries(bytes) {
        Option::None => Err(RejectionCause::KeySetUnavailable),
        Option::Some(keys) => Ok(KeySet { keys }),
    }
}

} // verus!
