//! The request handlers: pure logic mapping the three registry operations of
//! the HTTP surface onto the registry, translating validation outcomes into
//! the service's error taxonomy.

use vstd::prelude::*;
use vstd::string::StringSliceAdditionalSpecFns;

use crate::identity::ADDRESS_LEN;
use crate::identity::BLSPubkey;
use crate::identity::Eth1Address;
use crate::identity::KEY_LEN;
use crate::identity::lower_seq;
use crate::identity::well_formed;
use crate::registry::Config;

verus! {

/// Largest accepted request body, in bytes; a larger body is rejected
/// before any validation is attempted.
pub const MAX_BODY_BYTES: usize = 5_120_000;

/// Why a request failed, mapped to an HTTP status code.
#[derive(Clone, Copy, Debug, PartialEq, Eq)]
pub enum ApiError {
    /// A path or body value failed validation.
    BadRequest,
    /// The requested key has no mapping.
    NotFound,
    /// The request body exceeded `MAX_BODY_BYTES`.
    PayloadTooLarge,
}

impl ApiError {
    /// The HTTP status code reported for each failure.
    pub open spec fn status_spec(self) -> u16 {
        match self {
            ApiError::BadRequest => 400,
            ApiError::NotFound => 404,
            ApiError::PayloadTooLarge => 413,
        }
    }

    /// The HTTP status code reported for this failure.
    pub fn status_code(&self) -> (s: u16)
        ensures
            s == self.status_spec(),
    {
        match self {
            ApiError::BadRequest => 400,
            ApiError::NotFound => 404,
            ApiError::PayloadTooLarge => 413,
        }
    }
}

/// Liveness probe: performs no registry access and always returns the fixed
/// confirmation.
pub fn healthcheck() -> (r: &'static str)
    ensures
        r@ == "Application is live"@,
{
    "Application is live"
}

/// Read-one: validates the raw path parameter as a validator key, then
/// looks it up. A malformed key is a bad request; an unknown key is not
/// found; a known key returns exactly the mapped address's normalized form.
pub fn pubkey_get(config: &Config, raw_key: &str) -> (r: Result<String, ApiError>)
    requires
        config.wf(),
    ensures
        !well_formed(raw_key@, KEY_LEN as int) ==> r == Err::<String, ApiError>(
            ApiError::BadRequest,
        ),
        well_formed(raw_key@, KEY_LEN as int) && !config@.contains_key(lower_seq(raw_key@)) ==> r
            == Err::<String, ApiError>(ApiError::NotFound),
        well_formed(raw_key@, KEY_LEN as int) && config@.contains_key(lower_seq(raw_key@)) ==> (
        match r {
            Ok(s) => s@ == config@[lower_seq(raw_key@)],
            Err(_) => false,
        }),
{
    match BLSPubkey::try_from(raw_key) {
        Ok(key) => match config.get(&key) {
            Some(addr) => Ok(String::from_str(addr.as_str())),
            None => Err(ApiError::NotFound),
        },
        Err(_) => Err(ApiError::BadRequest),
    }
}

/// Write-one: rejects an oversized body before any validation, then
/// validates key and body independently; only a fully validated pair is
/// written, so no partial write ever occurs.
pub fn pubkey_set(config: &mut Config, raw_key: &str, body: &str) -> (r: Result<
    String,
    ApiError,
>)
    requires
        old(config).wf(),
    ensures
        final(config).wf(),
        body.spec_bytes().len() as usize > MAX_BODY_BYTES ==> r == Err::<String, ApiError>(
            ApiError::PayloadTooLarge,
        ) && *final(config) == *old(config),
        body.spec_bytes().len() as usize <= MAX_BODY_BYTES && !(well_formed(
            raw_key@,
            KEY_LEN as int,
        ) && well_formed(body@, ADDRESS_LEN as int)) ==> r == Err::<String, ApiError>(
            ApiError::BadRequest,
        ) && *final(config) == *old(config),
        body.spec_bytes().len() as usize <= MAX_BODY_BYTES && well_formed(raw_key@, KEY_LEN as int)
            && well_formed(body@, ADDRESS_LEN as int) ==> (match r {
            Ok(s) => s@ == "Inserted"@,
            Err(_) => false,
        }) && final(config)@ == old(config)@.insert(lower_seq(raw_key@), lower_seq(body@)),
{
    if body.len() > MAX_BODY_BYTES {
        return Err(ApiError::PayloadTooLarge);
    }
    let key = match BLSPubkey::try_from(raw_key) {
        Ok(k) => k,
        Err(_) => {
            return Err(ApiError::BadRequest);
        },
    };
    let addr = match Eth1Address::try_from(body) {
        Ok(a) => a,
        Err(_) => {
            return Err(ApiError::BadRequest);
        },
    };
    config.set(key, addr);
    Ok(String::from_str("Inserted"))
}

/// Read-all: a point-in-time copy of the whole registry as normalized
/// `(key, address)` string pairs, in insertion order, ready to serialize.
pub fn list_mev(config: &Config) -> (r: Vec<(String, String)>)
    requires
        config.wf(),
    ensures
        r@.len() == config.entries().len(),
        forall|i: int|
            0 <= i < r@.len() ==> (#[trigger] r@[i]).0@ == config.key_at(i) && r@[i].1@
                == config.value_at(i),
{
    config.snapshot()
}

} // verus!
