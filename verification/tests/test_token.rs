use netdisk_core::token::{AccessToken, Instant};
use netdisk_core::token_store::{
    get_access_token_from_cache, judge_lookup, CacheError, CacheLookup,
};

const NOW: i64 = 1_760_000_000;

fn token(name: &str, secs: i64, nanos: u32) -> AccessToken {
    AccessToken::new(name.to_string(), Instant::new(secs, nanos))
}

#[test]
fn instants_are_ordered_by_seconds_then_nanoseconds() {
    let a = Instant::new(10, 999_999_999);
    let b = Instant::new(11, 0);
    assert!(a.before(&b));
    assert!(!b.before(&a));
    assert!(Instant::new(10, 1).before(&Instant::new(10, 2)));
    assert!(!Instant::new(10, 2).before(&Instant::new(10, 2)));
    assert!(Instant::new(-5, 0).before(&Instant::new(0, 0)));
    assert!(Instant::new(i64::MIN, u32::MAX).before(&Instant::new(i64::MAX, 0)));
}

#[test]
fn token_is_valid_strictly_before_expiry() {
    let t = token("abc", NOW, 500);
    assert!(t.is_valid_at(&Instant::new(NOW, 499)));
    assert!(t.is_valid_at(&Instant::new(NOW - 1, 999_999_999)));
    assert!(!t.is_valid_at(&Instant::new(NOW, 501)));
    assert!(!t.is_valid_at(&Instant::new(NOW + 1, 0)));
}

#[test]
fn token_is_expired_at_the_instant_of_expiry() {
    let t = token("abc", NOW, 500);
    assert!(!t.is_valid_at(&Instant::new(NOW, 500)));
}

#[test]
fn token_keeps_its_fields_and_clones_equal() {
    let t = token("abc", NOW, 7);
    assert_eq!(t.access_token, "abc");
    assert_eq!(t.expired_at, Instant::new(NOW, 7));
    let c = t.clone();
    assert_eq!(c.access_token, "abc");
    assert_eq!(c.expired_at, Instant::new(NOW, 7));
}

#[test]
fn default_token_is_the_placeholder() {
    let t = AccessToken::default();
    assert_eq!(t.access_token, "123");
    // it was made at the present time, which is long after 2020 and before the year 3000
    assert!(Instant::new(1_577_836_800, 0).before(&t.expired_at));
    assert!(t.expired_at.before(&Instant::new(32_503_680_000, 0)));
    // and it is expired by the time anyone looks at it
    let r = get_access_token_from_cache(CacheLookup::Record(t));
    assert_eq!(r.err(), Some(CacheError::Expired));
}

#[test]
fn lookup_failures_map_to_their_errors() {
    let now = Instant::new(NOW, 0);
    assert_eq!(judge_lookup(CacheLookup::Missing, &now).err(), Some(CacheError::Miss));
    assert_eq!(judge_lookup(CacheLookup::Unreachable, &now).err(), Some(CacheError::Io));
    assert_eq!(judge_lookup(CacheLookup::Unreadable, &now).err(), Some(CacheError::Io));
    assert_eq!(judge_lookup(CacheLookup::Malformed, &now).err(), Some(CacheError::Corrupt));
}

#[test]
fn recorded_token_is_used_only_while_valid() {
    let now = Instant::new(NOW, 0);
    let fresh = judge_lookup(CacheLookup::Record(token("abc", NOW + 7200, 0)), &now).unwrap();
    assert_eq!(fresh.access_token, "abc");
    assert_eq!(fresh.expired_at, Instant::new(NOW + 7200, 0));
    let stale = judge_lookup(CacheLookup::Record(token("abc", NOW - 3600, 0)), &now);
    assert_eq!(stale.err(), Some(CacheError::Expired));
    let edge = judge_lookup(CacheLookup::Record(token("abc", NOW, 0)), &now);
    assert_eq!(edge.err(), Some(CacheError::Expired));
}

#[test]
fn cache_is_judged_at_the_present_time() {
    // expires in the year 3000: valid today
    let far = get_access_token_from_cache(CacheLookup::Record(token("far", 32_503_680_000, 0)));
    assert_eq!(far.unwrap().access_token, "far");
    // expired in 2001
    let old = get_access_token_from_cache(CacheLookup::Record(token("old", 1_000_000_000, 0)));
    assert_eq!(old.err(), Some(CacheError::Expired));
    assert_eq!(get_access_token_from_cache(CacheLookup::Missing).err(), Some(CacheError::Miss));
    assert_eq!(get_access_token_from_cache(CacheLookup::Unreachable).err(), Some(CacheError::Io));
    assert_eq!(get_access_token_from_cache(CacheLookup::Malformed).err(), Some(CacheError::Corrupt));
}
