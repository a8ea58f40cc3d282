use vstd::prelude::*;
use base64::Engine;
use crate::text::{split_dot, split_on_dot};
use crate::device::DeviceError;

verus! {

/// What unpadded URL-safe base64 decoding makes of `s`, if it is valid.
pub uninterp spec fn base64url_decoded(s: Seq<char>) -> Option<Seq<u8>>;

/// The `exp` member of the JSON object in `payload`, if the bytes hold a JSON
/// value with such a member that is an integer in `u64`.
pub uninterp spec fn json_exp_claim(payload: Seq<u8>) -> Option<u64>;

/// Relies on base64's `URL_SAFE_NO_PAD.decode`: the decoded bytes, or none
/// where the input is not valid unpadded URL-safe base64.
#[verifier::external_body]
fn decode_base64url(s: &str) -> (r: Option<Vec<u8>>)
    ensures
        match r {
            Some(b) => base64url_decoded(s@) == Some(b@),
            None => base64url_decoded(s@) is None,
        },
{
    base64::engine::general_purpose::URL_SAFE_NO_PAD.decode(s).ok()
}

/// Relies on `serde_json::from_slice` into a `serde_json::Value`, then
/// `Value::get("exp")` and `Value::as_u64` on what it finds.
#[verifier::external_body]
fn read_exp_claim(payload: &[u8]) -> (r: Option<u64>)
    ensures
        r == json_exp_claim(payload@),
{
    match serde_json::from_slice::<serde_json::Value>(payload) {
        Ok(v) => v.get("exp").and_then(|e| e.as_u64()),
        Err(_) => None,
    }
}

/// The expiry claim of a bearer token of the shape `header.payload.signature`:
/// the `exp` member of the base64url-decoded JSON payload.
pub open spec fn token_expiry(token: Seq<char>) -> Option<u64> {
    let parts = split_dot(token);
    if parts.len() != 3 {
        None
    } else {
        match base64url_decoded(parts[1]) {
            Some(payload) => json_exp_claim(payload),
            None => None,
        }
    }
}

/// A token needs refreshing when it expires within `threshold` seconds of `now`.
pub open spec fn needs_refresh(exp: u64, now: u64, threshold: u64) -> bool {
    exp as int <= now as int + threshold as int
}

/// Reads the expiry claim of `token`.
pub fn get_token_expiry(token: &str) -> (r: Result<u64, DeviceError>)
    ensures
        match token_expiry(token@) {
            Some(exp) => r == Ok::<u64, DeviceError>(exp),
            None => r matches Err(DeviceError::TokenParseError(_)),
        },
{
    let parts = split_on_dot(token);
    assert(parts@.map_values(|p: String| p@).len() == parts@.len());
    if parts.len() != 3 {
        return Err(DeviceError::TokenParseError(String::from_str("token is not three dot-separated segments")));
    }
    assert(parts@.map_values(|p: String| p@)[1] == parts@[1]@);
    let payload = match decode_base64url(parts[1].as_str()) {
        Some(p) => p,
        None => {
            return Err(DeviceError::TokenParseError(String::from_str("token payload is not base64url")));
        },
    };
    match read_exp_claim(payload.as_slice()) {
        Some(exp) => Ok(exp),
        None => Err(DeviceError::TokenParseError(String::from_str("token payload has no expiry claim"))),
    }
}

/// Whether `token` should be refreshed at time `now` (Unix seconds), given a
/// refresh window of `threshold_seconds`.
pub fn should_refresh(token: &str, threshold_seconds: u64, now: u64) -> (r: Result<bool, DeviceError>)
    ensures
        match token_expiry(token@) {
            Some(exp) => r == Ok::<bool, DeviceError>(needs_refresh(exp, now, threshold_seconds)),
            None => r matches Err(DeviceError::TokenParseError(_)),
        },
{
    let exp = get_token_expiry(token)?;
    if now > u64::MAX - threshold_seconds {
        Ok(true)
    } else {
        Ok(exp <= now + threshold_seconds)
    }
}

} // verus!
