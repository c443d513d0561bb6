//! HMAC-SHA256 (from the `hmac` and `sha2` crates) and lowercase hex
//! encoding (from the `hex` crate), as the request signer uses them.
use vstd::prelude::*;
use hmac::{Hmac, Mac};
use hmac::digest::InvalidLength;
use sha2::Sha256;
use crate::text::hex_lower;

verus! {

/// Declares `digest::InvalidLength`, the error a MAC constructor returns
/// for a key it cannot take.
#[verifier::external_type_specification]
#[verifier::external_body]
pub struct ExInvalidLength(InvalidLength);

/// A running HMAC-SHA256 computation (`hmac::Hmac<sha2::Sha256>`), held
/// opaquely in a private field: the type is an alias of `CoreWrapper`, whose
/// typenum bounds cannot be declared. `mac_key` and `mac_input` name its key
/// and the bytes fed so far.
#[verifier::external_body]
pub struct MacState {
    mac: Hmac<Sha256>,
}

/// The key a MAC computation was started with.
pub uninterp spec fn mac_key(m: MacState) -> Seq<u8>;

/// The bytes fed to a MAC computation so far.
pub uninterp spec fn mac_input(m: MacState) -> Seq<u8>;

/// The HMAC-SHA256 tag of `message` under `key`.
pub uninterp spec fn hmac_sha256(key: Seq<u8>, message: Seq<u8>) -> Seq<u8>;

/// `Mac::new_from_slice` for `Hmac<Sha256>`. Claimed: it always succeeds (HMAC
/// takes keys of any length, hashing long ones, as `HmacCore::new_from_slice`
/// shows) and starts a computation under `key` with nothing fed yet.
#[verifier::external_body]
fn mac_new(key: &[u8]) -> (r: Result<MacState, InvalidLength>)
    ensures
        r is Ok,
        mac_key(r->Ok_0) == key@,
        mac_input(r->Ok_0) == Seq::<u8>::empty(),
{
    match <Hmac<Sha256> as Mac>::new_from_slice(key) {
        Ok(mac) => Ok(MacState { mac }),
        Err(e) => Err(e),
    }
}

/// `Mac::update`. Claimed: `data` is appended to the bytes fed so far; the
/// key is unchanged.
#[verifier::external_body]
fn mac_update(m: &mut MacState, data: &[u8])
    ensures
        mac_key(*final(m)) == mac_key(*old(m)),
        mac_input(*final(m)) == mac_input(*old(m)) + data@,
{
    m.mac.update(data)
}

/// `Mac::finalize` followed by `into_bytes`. Claimed: the result is the
/// HMAC-SHA256 tag of the bytes fed under the key, 32 bytes long (SHA-256's
/// output size).
#[verifier::external_body]
fn mac_finalize(m: MacState) -> (tag: Vec<u8>)
    ensures
        tag@ == hmac_sha256(mac_key(m), mac_input(m)),
        tag@.len() == 32,
{
    m.mac.finalize().into_bytes().to_vec()
}

/// `hex::encode`. Claimed: two lowercase hex digits per byte, high nibble
/// first (`HEX_CHARS_LOWER` in the crate's source).
#[verifier::external_body]
fn hex_encode(data: &[u8]) -> (s: String)
    ensures
        s@ == hex_lower(data@),
{
    hex::encode(data)
}

/// Lowercase hex of the HMAC-SHA256 tag of `message` under `key`.
pub fn hmac_sha256_hex(key: &[u8], message: &[u8]) -> (hex: String)
    ensures
        hex@ == hex_lower(hmac_sha256(key@, message@)),
        hmac_sha256(key@, message@).len() == 32,
{
    let mut mac = match mac_new(key) {
        Ok(m) => m,
        Err(_) => vstd::pervasive::unreached(),
    };
    mac_update(&mut mac, message);
    assert(mac_input(mac) == message@);
    let tag = mac_finalize(mac);
    hex_encode(tag.as_slice())
}

} // verus!
