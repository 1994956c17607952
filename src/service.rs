//! The cache-aside decisions of a factorial request. The caller performs the
//! cache operations; these functions decide, from what the cache answered,
//! what is served, what is written back, and what is reported.

use vstd::prelude::*;

use crate::decimal::{decimal, u32_to_decimal};
use crate::factorial::{factorial_decimal, factorial_text};
use crate::request::Seconds;

verus! {

/// Whether a value was served from the cache or computed fresh.
#[derive(PartialEq, Eq, Structural, Clone, Copy, Debug)]
pub enum CacheStatus {
    Hit,
    Miss,
}

/// The text of a cache status, as sent in the response header.
pub open spec fn status_text(s: CacheStatus) -> Seq<char> {
    match s {
        CacheStatus::Hit => "hit"@,
        CacheStatus::Miss => "miss"@,
    }
}

impl CacheStatus {
    /// The header value of this status: `hit` or `miss`.
    pub fn header_value(&self) -> (r: String)
        ensures
            r@ == status_text(*self),
    {
        match self {
            CacheStatus::Hit => String::from_str("hit"),
            CacheStatus::Miss => String::from_str("miss"),
        }
    }
}

/// What a cache read answered.
pub enum CacheRead {
    /// A value is stored under the key.
    Found(String),
    /// No entry, or an entry of another type: an expected miss.
    Absent,
    /// The store could not be reached or answered in error.
    TransportError(String),
}

/// The value that a cache read supplies, if any.
pub open spec fn cached_value(read: CacheRead) -> Option<Seq<char>> {
    match read {
        CacheRead::Found(v) => Some(v@),
        _ => None,
    }
}

/// The value served for `n` when the cache supplied `cached`.
pub open spec fn served_value(n: nat, cached: Option<Seq<char>>) -> Seq<char> {
    match cached {
        Some(v) => v,
        None => factorial_text(n),
    }
}

/// The status reported when the cache supplied `cached`.
pub open spec fn served_status(cached: Option<Seq<char>>) -> CacheStatus {
    if cached is Some {
        CacheStatus::Hit
    } else {
        CacheStatus::Miss
    }
}

/// A value with the status it was served under.
pub struct ComputationResult {
    pub value: String,
    pub status: CacheStatus,
}

/// A write of `value` under `key`, to expire after `ttl_seconds`.
pub struct CacheWrite {
    pub key: String,
    pub value: String,
    pub ttl_seconds: usize,
}

/// The decisions taken once the cache read has answered.
pub struct LookupOutcome {
    /// What the request is answered with.
    pub result: ComputationResult,
    /// The write to attempt, if the value was computed. A failed write
    /// changes nothing in the answer.
    pub write: Option<CacheWrite>,
    /// The error to report to operators, if the read failed in transport.
    pub log_error: Option<String>,
}

/// The cache key of `n`: its canonical decimal text.
pub fn cache_key(n: u32) -> (r: String)
    ensures
        r@ == decimal(n as nat),
{
    u32_to_decimal(n)
}

/// Decides the answer to an accepted request for `n!` from what the cache
/// read returned. A found value is served as a hit. An absent entry or a
/// transport failure leads to computing `n!`, which is served as a miss and
/// written back with the configured time-to-live; only the transport failure
/// is reported.
pub fn after_lookup(n: u32, read: CacheRead, ttl: &Seconds) -> (r: LookupOutcome)
    ensures
        r.result.value@ == served_value(n as nat, cached_value(read)),
        r.result.status == served_status(cached_value(read)),
        (r.write is None) == (cached_value(read) is Some),
        r.write matches Some(w) ==> w.key@ == decimal(n as nat) && w.value@ == factorial_text(
            n as nat,
        ) && w.ttl_seconds == ttl.seconds,
        (r.log_error is Some) == (read is TransportError),
        read matches CacheRead::TransportError(e) ==> (r.log_error matches Some(l) && l@ == e@),
{
    match read {
        CacheRead::Found(v) => LookupOutcome {
            result: ComputationResult { value: v, status: CacheStatus::Hit },
            write: None,
            log_error: None,
        },
        CacheRead::Absent => compute_and_store(n, ttl, None),
        CacheRead::TransportError(e) => compute_and_store(n, ttl, Some(e)),
    }
}

/// Computes `n!`, to be served as a miss and written back under `n`'s key.
fn compute_and_store(n: u32, ttl: &Seconds, log_error: Option<String>) -> (r: LookupOutcome)
    ensures
        r.result.value@ == factorial_text(n as nat),
        r.result.status == CacheStatus::Miss,
        r.write matches Some(w) && w.key@ == decimal(n as nat) && w.value@ == factorial_text(
            n as nat,
        ) && w.ttl_seconds == ttl.seconds,
        r.log_error == log_error,
{
    let value = factorial_decimal(n);
    let stored = value.clone();
    LookupOutcome {
        result: ComputationResult { value, status: CacheStatus::Miss },
        write: Some(CacheWrite { key: cache_key(n), value: stored, ttl_seconds: ttl.seconds }),
        log_error,
    }
}

} // verus!
