//! The crate's trusted boundary: declarations and wrappers for the
//! outside functions the core's logic needs. Everything else in the
//! library is verified against the contracts stated here.

use vstd::prelude::*;

use crate::error::Error;
use crate::error::ErrorKind;

verus! {

#[verifier::external_type_specification]
#[verifier::external_body]
pub struct ExReqwestClient(reqwest::Client);

/// Whether chrono places the Unix timestamp inside its representable
/// calendar range.
pub uninterp spec fn spec_timestamp_in_calendar(secs: i64) -> bool;

/// Relies on chrono::DateTime::from_timestamp: it answers `Some`
/// exactly when the timestamp lies in chrono's calendar range, a fixed
/// function of the value alone.
#[verifier::external_body]
pub fn timestamp_in_calendar(secs: i64) -> (r: bool)
    ensures
        r == spec_timestamp_in_calendar(secs),
{
    chrono::DateTime::<chrono::Utc>::from_timestamp(secs, 0).is_some()
}

/// Relies on std::time::SystemTime::now and duration_since: the wall
/// clock as Unix seconds, negative before the epoch, about which
/// nothing can be promised. Unlike a direct chrono now-call this body
/// cannot panic on a clock set before the epoch.
#[verifier::external_body]
pub fn now_unix() -> i64 {
    match std::time::SystemTime::now().duration_since(std::time::UNIX_EPOCH) {
        Ok(since) => i64::try_from(since.as_secs()).unwrap_or(i64::MAX),
        Err(before) => match i64::try_from(before.duration().as_secs()) {
            Ok(secs) => secs.saturating_neg(),
            Err(_) => i64::MIN,
        },
    }
}

/// Relies on reqwest::Proxy::http, reqwest::ClientBuilder::proxy and
/// reqwest::ClientBuilder::build to assemble the proxied client that
/// the authorization flow needs; a builder failure is surfaced as a
/// `ConfigInvalid` error.
#[verifier::external_body]
pub fn build_auth_client(proxy_url: &str) -> (r: Result<reqwest::Client, Error>)
    ensures
        r matches Err(e) ==> e.kind == ErrorKind::ConfigInvalid && e.operation@
            == Seq::<char>::empty() && e.context@ == Seq::<char>::empty(),
{
    let proxy = match reqwest::Proxy::http(proxy_url) {
        Ok(proxy) => proxy,
        Err(err) => {
            return Err(Error::new(ErrorKind::ConfigInvalid, format!("{err}")));
        },
    };
    match reqwest::Client::builder().proxy(proxy).build() {
        Ok(client) => Ok(client),
        Err(err) => Err(Error::new(ErrorKind::ConfigInvalid, format!("{err}"))),
    }
}

} // verus!
