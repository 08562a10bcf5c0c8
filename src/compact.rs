//! The calls into the token codec (biscuit), the JSON parser (serde_json) and the system
//! clock. Each item here is trusted: its contract states what the called function does,
//! as its source shows.

use crate::jwt::MAX_TIMESTAMP;
use vstd::prelude::*;

verus! {

#[verifier::external_type_specification]
#[verifier::external_body]
pub struct ExJwtError(biscuit::errors::Error);

#[verifier::external_type_specification]
#[verifier::external_body]
pub struct ExJsonError(serde_json::Error);

/// A claim's JSON value, as far as this crate reads it.
#[derive(Debug)]
pub enum ClaimValue {
    Text(String),
    /// A number; `None` when it is not an integer that fits in an `i64`.
    Number(Option<i64>),
    /// An array; `None` for each element that is not a string.
    Texts(Vec<Option<String>>),
    Null,
    Other,
}

/// The mathematical form of a claim value.
pub enum JsonMember {
    Text(Seq<char>),
    Number(Option<i64>),
    Texts(Seq<Option<Seq<char>>>),
    Null,
    Other,
}

pub open spec fn opt_string_view(o: Option<String>) -> Option<Seq<char>> {
    match o {
        Some(s) => Some(s@),
        None => None,
    }
}

impl View for ClaimValue {
    type V = JsonMember;

    open spec fn view(&self) -> JsonMember {
        match self {
            ClaimValue::Text(s) => JsonMember::Text(s@),
            ClaimValue::Number(n) => JsonMember::Number(*n),
            ClaimValue::Texts(v) => JsonMember::Texts(v@.map_values(|o: Option<String>| opt_string_view(o))),
            ClaimValue::Null => JsonMember::Null,
            ClaimValue::Other => JsonMember::Other,
        }
    }
}

/// The members of a JSON object, each name with the form of its value.
pub open spec fn members_view(entries: Seq<(String, ClaimValue)>) -> Seq<(Seq<char>, JsonMember)> {
    entries.map_values(|e: (String, ClaimValue)| (e.0@, e.1@))
}

/// The `kid` field of a compact token's header, read without checking the signature; `None`
/// when the header does not decode or has no `kid`.
pub uninterp spec fn header_key_id(token: Seq<char>) -> Option<Seq<char>>;

/// The base64url-decoded claims part of a compact token; `None` when it has none or it
/// does not decode.
pub uninterp spec fn payload_of(token: Seq<char>) -> Option<Seq<u8>>;

/// Whether biscuit's RS256 decoding of the token succeeds under the DER-encoded RSA public
/// key: the signature verifies, the header decodes and names RS256, the claims part decodes.
pub uninterp spec fn rs256_verifies(token: Seq<char>, public_key: Seq<u8>) -> bool;

/// The members of the JSON object in `bytes`; `None` when they are not a JSON object.
pub uninterp spec fn json_members_of(bytes: Seq<u8>) -> Option<Seq<(Seq<char>, JsonMember)>>;

/// Relies on std's `SystemTime::now` and `SystemTime::duration_since`: whole seconds since
/// the Unix epoch, or `None` when the clock reads before it.
#[verifier::external_body]
fn unix_seconds_now() -> (r: Option<u64>) {
    std::time::SystemTime::now().duration_since(std::time::UNIX_EPOCH).ok().map(|d| d.as_secs())
}

/// The current Unix time in whole seconds, or `None` when the clock reads before 1970 or
/// beyond the times a token can carry.
pub fn now_timestamp() -> (r: Option<i64>)
    ensures
        r matches Some(t) ==> 0 <= t <= MAX_TIMESTAMP,
{
    match unix_seconds_now() {
        Some(s) => if s <= MAX_TIMESTAMP as u64 {
            Some(s as i64)
        } else {
            None
        },
        None => None,
    }
}

/// Relies on biscuit's `Compact::unverified_header`: decodes the header part of the token,
/// without checking the signature, and yields its `kid`.
#[verifier::external_body]
pub fn unverified_key_id(token: &str) -> (r: Result<Option<String>, biscuit::errors::Error>)
    ensures
        r matches Ok(k) ==> header_key_id(token@) == opt_string_view(k),
        r is Err ==> header_key_id(token@) is None,
{
    let jws: biscuit::jws::Compact<Vec<u8>, biscuit::Empty> = biscuit::jws::Compact::new_encoded(token);
    jws.unverified_header().map(|h| h.registered.key_id)
}

/// Relies on biscuit's `Compact::unverified_payload` with a raw-bytes payload: the
/// base64url-decoded claims part of the token, without checking the signature.
#[verifier::external_body]
pub fn unverified_payload(token: &str) -> (r: Result<Vec<u8>, biscuit::errors::Error>)
    ensures
        r is Ok <==> payload_of(token@) is Some,
        r matches Ok(p) ==> payload_of(token@) == Some(p@),
{
    let jws: biscuit::jws::Compact<Vec<u8>, biscuit::Empty> = biscuit::jws::Compact::new_encoded(token);
    jws.unverified_payload()
}

/// Relies on biscuit's `Compact::into_decoded` with a raw-bytes payload and an RSA public
/// key (`Secret::PublicKey`) and RS256, the one algorithm the name `rs256_verifies` speaks
/// of: succeeds exactly when decoding succeeds, then yields the base64url-decoded claims part.
#[verifier::external_body]
pub fn verified_payload(token: &str, public_key: &Vec<u8>) -> (r: Result<
    Vec<u8>,
    biscuit::errors::Error,
>)
    ensures
        r is Ok <==> rs256_verifies(token@, public_key@),
        r matches Ok(p) ==> payload_of(token@) == Some(p@),
{
    let jws: biscuit::jws::Compact<Vec<u8>, biscuit::Empty> = biscuit::jws::Compact::new_encoded(token);
    let key = biscuit::jws::Secret::PublicKey(public_key.clone());
    jws.into_decoded(&key, biscuit::jwa::SignatureAlgorithm::RS256)?.payload().cloned()
}

/// Relies on serde_json's `from_slice` into a map of `Value`s: parses a JSON object and
/// lists its members, each value told apart by its JSON kind.
#[verifier::external_body]
pub fn json_object_entries(bytes: &Vec<u8>) -> (r: Result<Vec<(String, ClaimValue)>, serde_json::Error>)
    ensures
        r is Ok <==> json_members_of(bytes@) is Some,
        r matches Ok(e) ==> json_members_of(bytes@) == Some(members_view(e@)),
{
    let map: std::collections::BTreeMap<String, serde_json::Value> = serde_json::from_slice(bytes)?;
    Ok(map.into_iter().map(|(k, v)| (k, match v {
        serde_json::Value::String(s) => ClaimValue::Text(s),
        serde_json::Value::Number(n) => ClaimValue::Number(n.as_i64()),
        serde_json::Value::Array(a) => ClaimValue::Texts(a.iter().map(|x| x.as_str().map(String::from)).collect()),
        serde_json::Value::Null => ClaimValue::Null,
        _ => ClaimValue::Other,
    })).collect())
}

/// The last member named `key`, the one a JSON object keeps.
pub open spec fn member_lookup(m: Seq<(Seq<char>, JsonMember)>, key: Seq<char>) -> Option<JsonMember>
    decreases m.len(),
{
    if m.len() == 0 {
        None
    } else if m.last().0 == key {
        Some(m.last().1)
    } else {
        member_lookup(m.drop_last(), key)
    }
}

/// A value this crate writes: a string, an integer, an array of strings or null.
pub open spec fn writable(v: JsonMember) -> bool {
    match v {
        JsonMember::Text(_) => true,
        JsonMember::Number(n) => n is Some,
        JsonMember::Texts(items) => forall|i: int| 0 <= i < items.len() ==> items[i] is Some,
        JsonMember::Null => true,
        JsonMember::Other => false,
    }
}

/// Relies on serde_json's `to_vec` of a map of `Value`s: writes the members as one JSON
/// object (a later member replacing an earlier one of the same name), which parses back to
/// the same value under each name.
#[verifier::external_body]
pub fn json_object_bytes(entries: Vec<(String, ClaimValue)>) -> (r: Result<Vec<u8>, serde_json::Error>)
    requires
        forall|i: int| 0 <= i < entries@.len() ==> writable(#[trigger] entries@[i].1@),
    ensures
        r matches Ok(b) ==> json_members_of(b@) matches Some(m) && forall|k: Seq<char>|
            member_lookup(m, k) == member_lookup(members_view(entries@), k),
{
    let map: serde_json::Map<String, serde_json::Value> = entries.into_iter().map(|(k, v)| (k, match v {
        ClaimValue::Text(s) => serde_json::Value::from(s),
        ClaimValue::Number(n) => serde_json::Value::from(n),
        ClaimValue::Texts(a) => serde_json::Value::from(a),
        ClaimValue::Null | ClaimValue::Other => serde_json::Value::Null,
    })).collect();
    serde_json::to_vec(&map)
}

/// Relies on biscuit's `Compact::new_decoded`, `Compact::encode` and `Compact::encoded` with
/// a raw-bytes payload: signs header `{alg: RS256, kid}` and `payload` with `key`. The claims part
/// of the result decodes to `payload`, its header to `kid`.
#[verifier::external_body]
pub fn sign_payload(kid: &String, payload: Vec<u8>, key: &biscuit::jws::Secret) -> (r: Result<
    String,
    biscuit::errors::Error,
>)
    ensures
        r matches Ok(t) ==> payload_of(t@) == Some(payload@) && header_key_id(t@) == Some(kid@),
{
    let header = biscuit::jws::Header::from(biscuit::jws::RegisteredHeader {
        algorithm: biscuit::jwa::SignatureAlgorithm::RS256, key_id: Some(kid.clone()), ..Default::default() });
    let jws: biscuit::jws::Compact<Vec<u8>, biscuit::Empty> = biscuit::jws::Compact::new_decoded(header, payload);
    Ok(jws.encode(key)?.encoded()?.encode())
}

} // verus!
