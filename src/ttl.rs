use vstd::prelude::*;

verus! {

/// A value that is served only until its expiration time.
///
/// Times are milliseconds read from one monotonic clock (see `Clock`); the
/// entry never reads the clock itself, so every method takes the current
/// time as an argument.
pub struct Ttl<V> {
    inner: V,
    expiration_time: u64,
}

impl<V> Ttl<V> {
    /// The value held by the entry.
    pub closed spec fn value(&self) -> V {
        self.inner
    }

    /// The first instant at which the entry is stale.
    pub closed spec fn expires_at(&self) -> int {
        self.expiration_time as int
    }

    /// An entry is fresh strictly before its expiration time.
    pub open spec fn fresh_at(&self, now: int) -> bool {
        now < self.expires_at()
    }

    /// Wraps `inner` so that it stays fresh for `duration` from `now`.
    pub fn new(inner: V, now: u64, duration: u64) -> (r: Self)
        requires
            now + duration <= u64::MAX,
        ensures
            r.value() == inner,
            r.expires_at() == now + duration,
    {
        Ttl { inner, expiration_time: now + duration }
    }

    pub fn is_fresh(&self, now: u64) -> (r: bool)
        ensures
            r == self.fresh_at(now as int),
    {
        self.expiration_time > now
    }

    /// The value while the entry is fresh, and nothing once it is stale.
    pub fn get(&self, now: u64) -> (r: Option<&V>)
        ensures
            match r {
                Some(v) => self.fresh_at(now as int) && *v == self.value(),
                None => !self.fresh_at(now as int),
            },
    {
        if self.is_fresh(now) {
            Some(&self.inner)
        } else {
            None
        }
    }
}

/// A fresh entry made with a positive lifetime is fresh, and served, at the
/// moment it is made; from the end of that lifetime on it is neither.
pub proof fn lemma_fresh_until_expiry<V>(entry: Ttl<V>, now: int, duration: int, later: int)
    requires
        entry.expires_at() == now + duration,
        duration > 0,
        later >= now + duration,
    ensures
        entry.fresh_at(now),
        !entry.fresh_at(later),
{
}

} // verus!
