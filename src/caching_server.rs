use vstd::prelude::*;

use crate::packet::GoldSrcPacket;
use crate::ttl::Ttl;

verus! {

/// The decisions of the caching pipeline: one entry per kind of query, each
/// kept for the configured time to live.
///
/// A request is answered from the cache while its entry is fresh. Otherwise
/// (`request` returns `None`) the caller fetches the response upstream and
/// hands it to `store`, which keeps it for the time to live from then on.
/// Times are milliseconds from one clock (see `Clock`).
pub struct CachingServer {
    /// The entry for `GoldSrcPacket::A2sInfoRequest`.
    info: Ttl<Vec<u8>>,
    cache_duration: u64,
}

impl CachingServer {
    /// The entry held for `kind`.
    spec fn entry(&self, kind: GoldSrcPacket) -> Ttl<Vec<u8>> {
        match kind {
            GoldSrcPacket::A2sInfoRequest => self.info,
        }
    }

    /// The time to live of a stored response.
    pub closed spec fn ttl(&self) -> int {
        self.cache_duration as int
    }

    /// The bytes held for `kind`.
    pub closed spec fn payload(&self, kind: GoldSrcPacket) -> Seq<u8> {
        self.entry(kind).value()@
    }

    /// The first instant at which the bytes held for `kind` are stale.
    pub closed spec fn expires_at(&self, kind: GoldSrcPacket) -> int {
        self.entry(kind).expires_at()
    }

    /// What a request for `kind` at `now` is answered with from the cache:
    /// the held bytes while they are fresh, else nothing.
    pub open spec fn lookup(&self, kind: GoldSrcPacket, now: int) -> Option<Seq<u8>> {
        if now < self.expires_at(kind) {
            Some(self.payload(kind))
        } else {
            None
        }
    }

    /// Every kind holds an empty placeholder that is stale at every time.
    pub open spec fn is_cold(&self) -> bool {
        &&& forall|k: GoldSrcPacket| #[trigger] self.expires_at(k) <= 0
        &&& forall|k: GoldSrcPacket| #[trigger] self.payload(k).len() == 0
    }

    /// `self` is `before` with `response` stored for `kind` at `now`.
    pub open spec fn refilled_from(
        &self,
        before: CachingServer,
        kind: GoldSrcPacket,
        response: Seq<u8>,
        now: int,
    ) -> bool {
        &&& self.ttl() == before.ttl()
        &&& self.payload(kind) == response
        &&& self.expires_at(kind) == now + before.ttl()
        &&& forall|k: GoldSrcPacket|
            k != kind ==> #[trigger] self.payload(k) == before.payload(k) && self.expires_at(k)
                == before.expires_at(k)
    }

    /// A cache whose entries are all stale, so that the first request for
    /// each kind goes upstream.
    pub fn new(cache_duration: u64) -> (r: CachingServer)
        ensures
            r.ttl() == cache_duration,
            r.is_cold(),
    {
        let r = CachingServer { info: Ttl::new(Vec::new(), 0, 0), cache_duration };
        assert forall|k: GoldSrcPacket| #[trigger] r.expires_at(k) <= 0 by {
            match k {
                GoldSrcPacket::A2sInfoRequest => {},
            }
        }
        assert forall|k: GoldSrcPacket| #[trigger] r.payload(k).len() == 0 by {
            match k {
                GoldSrcPacket::A2sInfoRequest => {},
            }
        }
        r
    }

    /// The configured time to live, in milliseconds.
    pub fn cache_duration(&self) -> (r: u64)
        ensures
            r == self.ttl(),
    {
        self.cache_duration
    }

    /// The cached response for `item` if it is fresh at `now`; `None` means
    /// that the response must be fetched upstream and given to `store`.
    pub fn request(&self, item: &GoldSrcPacket, now: u64) -> (r: Option<Vec<u8>>)
        ensures
            match self.lookup(*item, now as int) {
                Some(bytes) => (r matches Some(v) && v@ == bytes),
                None => r is None,
            },
    {
        let entry = match item {
            GoldSrcPacket::A2sInfoRequest => &self.info,
        };
        match entry.get(now) {
            Some(v) => {
                let bytes = v.clone();
                assert(bytes@ =~= v@);
                Some(bytes)
            },
            None => None,
        }
    }

    /// Keeps `response` as the answer for `item` for the time to live from
    /// `now` on.
    pub fn store(&mut self, item: &GoldSrcPacket, response: Vec<u8>, now: u64)
        requires
            now + old(self).ttl() <= u64::MAX,
        ensures
            final(self).refilled_from(*old(self), *item, response@, now as int),
    {
        let entry = Ttl::new(response, now, self.cache_duration);
        match item {
            GoldSrcPacket::A2sInfoRequest => self.info = entry,
        }
    }
}

/// The first request for a kind misses; once the fetched response is stored
/// at `t1`, a request before the time to live has passed is answered with
/// exactly those bytes, and one after it misses again.
pub proof fn lemma_one_fetch_per_expiry(
    cold: CachingServer,
    warm: CachingServer,
    kind: GoldSrcPacket,
    response: Seq<u8>,
    t1: int,
    t2: int,
    t3: int,
)
    requires
        cold.is_cold(),
        warm.refilled_from(cold, kind, response, t1),
        0 <= t1 <= t2 < t1 + cold.ttl(),
        t3 >= t1 + cold.ttl(),
    ensures
        cold.lookup(kind, t1) is None,
        warm.lookup(kind, t2) == Some(response),
        warm.lookup(kind, t3) is None,
{
    assert(cold.expires_at(kind) <= 0);
}

} // verus!
