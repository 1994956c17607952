//! An abstract model of the key-value store with expiry, and what follows for
//! sequences of requests served by the decisions of `service`.

use vstd::prelude::*;

use crate::decimal::decimal;
use crate::factorial::factorial_text;
use crate::service::{served_status, served_value, CacheStatus};

verus! {

/// The store's contents: each key maps to its value and the instant, in
/// seconds, from which the entry has expired.
pub type StoreContents = Map<Seq<char>, (Seq<char>, int)>;

/// What a read of `key` at instant `now` finds.
pub open spec fn store_get(s: StoreContents, key: Seq<char>, now: int) -> Option<Seq<char>> {
    if s.contains_key(key) && now < s[key].1 {
        Some(s[key].0)
    } else {
        None
    }
}

/// The store after `value` is set under `key` at `now`, to live `ttl` seconds.
pub open spec fn store_set(
    s: StoreContents,
    key: Seq<char>,
    value: Seq<char>,
    ttl: nat,
    now: int,
) -> StoreContents {
    s.insert(key, (value, now + ttl))
}

/// The store after a request for `n`, whose read found `cached`, has carried
/// out its write at `now`: a computed value is set under `n`'s key, a found
/// one writes nothing.
pub open spec fn store_after(
    s: StoreContents,
    n: nat,
    cached: Option<Seq<char>>,
    ttl: nat,
    now: int,
) -> StoreContents {
    if cached is None {
        store_set(s, decimal(n), factorial_text(n), ttl, now)
    } else {
        s
    }
}

/// Two requests for an uncached `n` in sequence, the second within the
/// time-to-live of the first one's write: the first is a miss and the second a
/// hit, and both serve the same value, `n!`.
pub proof fn lemma_repeat_request_hits(s: StoreContents, n: nat, ttl: nat, t1: int, t2: int)
    requires
        store_get(s, decimal(n), t1) is None,
        t1 <= t2 < t1 + ttl,
    ensures
        ({
            let first = store_get(s, decimal(n), t1);
            let second = store_get(store_after(s, n, first, ttl, t1), decimal(n), t2);
            &&& served_status(first) == CacheStatus::Miss
            &&& served_status(second) == CacheStatus::Hit
            &&& served_value(n, first) == factorial_text(n)
            &&& served_value(n, second) == factorial_text(n)
        }),
{
}

/// Once the time-to-live of a written entry has elapsed, a request for the same
/// `n` is a miss again and computes the same value, `n!`.
pub proof fn lemma_expired_entry_recomputed(s: StoreContents, n: nat, ttl: nat, t1: int, t2: int)
    requires
        store_get(s, decimal(n), t1) is None,
        t1 + ttl <= t2,
    ensures
        ({
            let first = store_get(s, decimal(n), t1);
            let second = store_get(store_after(s, n, first, ttl, t1), decimal(n), t2);
            &&& served_status(second) == CacheStatus::Miss
            &&& served_value(n, second) == served_value(n, first)
            &&& served_value(n, second) == factorial_text(n)
        }),
{
}

/// Two requests for an uncached `n` that both read before either writes: both
/// serve `n!`, and after both writes, in either order, the store holds `n!`
/// under `n`'s key.
pub proof fn lemma_concurrent_first_requests(
    s: StoreContents,
    n: nat,
    ttl: nat,
    read_a: int,
    read_b: int,
    write_first: int,
    write_second: int,
)
    requires
        store_get(s, decimal(n), read_a) is None,
        store_get(s, decimal(n), read_b) is None,
    ensures
        ({
            let a = store_get(s, decimal(n), read_a);
            let b = store_get(s, decimal(n), read_b);
            let end = store_after(
                store_after(s, n, a, ttl, write_first),
                n,
                b,
                ttl,
                write_second,
            );
            &&& served_value(n, a) == factorial_text(n)
            &&& served_value(n, b) == factorial_text(n)
            &&& end.contains_key(decimal(n))
            &&& end[decimal(n)].0 == factorial_text(n)
        }),
{
}

} // verus!
