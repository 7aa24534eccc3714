use hlwall::{CachingServer, GoldSrcPacket};

/// Stands for the upstream server: counts the calls and answers each with
/// its number.
struct StubUpstream {
    calls: u32,
}

impl StubUpstream {
    fn request(&mut self, _item: &GoldSrcPacket) -> Vec<u8> {
        self.calls += 1;
        vec![b'I', self.calls as u8]
    }
}

fn request(cache: &mut CachingServer, upstream: &mut StubUpstream, now: u64) -> Vec<u8> {
    let item = GoldSrcPacket::A2sInfoRequest;
    match cache.request(&item, now) {
        Some(bytes) => bytes,
        None => {
            let response = upstream.request(&item);
            cache.store(&item, response.clone(), now);
            response
        }
    }
}

#[test]
fn ttl_of_fifty_fetches_once_per_expiry() {
    let mut cache = CachingServer::new(50);
    let mut upstream = StubUpstream { calls: 0 };

    let first = request(&mut cache, &mut upstream, 0);
    let second = request(&mut cache, &mut upstream, 10);
    assert_eq!(upstream.calls, 1);
    assert_eq!(first, second);

    let third = request(&mut cache, &mut upstream, 60);
    assert_eq!(upstream.calls, 2);
    assert_ne!(third, first);
}

#[test]
fn a_new_cache_misses_at_every_time() {
    let cache = CachingServer::new(50);
    assert_eq!(cache.request(&GoldSrcPacket::A2sInfoRequest, 0), None);
    assert_eq!(cache.request(&GoldSrcPacket::A2sInfoRequest, 1_000_000), None);
}

#[test]
fn stored_bytes_are_served_until_the_ttl_has_passed() {
    let mut cache = CachingServer::new(50);
    cache.store(&GoldSrcPacket::A2sInfoRequest, vec![1, 2, 3], 100);
    assert_eq!(cache.request(&GoldSrcPacket::A2sInfoRequest, 100), Some(vec![1, 2, 3]));
    assert_eq!(cache.request(&GoldSrcPacket::A2sInfoRequest, 149), Some(vec![1, 2, 3]));
    assert_eq!(cache.request(&GoldSrcPacket::A2sInfoRequest, 150), None);
}

#[test]
fn a_zero_ttl_never_serves_from_the_cache() {
    let mut cache = CachingServer::new(0);
    cache.store(&GoldSrcPacket::A2sInfoRequest, vec![1], 5);
    assert_eq!(cache.request(&GoldSrcPacket::A2sInfoRequest, 5), None);
}
