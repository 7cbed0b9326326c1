use subhook_rs::pages::protect_span;
use subhook_rs::near_alloc::{NearSearch, GRANULARITY, MAX_RANGE, ROUNDS};

#[test]
fn near_search_first_candidates() {
    let mut s = NearSearch::new(0x1234_5678);
    assert!(s.next_round());
    assert_eq!(s.above(), Some(0x1235_0000));
    assert_eq!(s.below(), Some(0x1233_0000));
    s.advance();
    assert_eq!(s.above(), Some(0x1236_0000));
    assert_eq!(s.below(), Some(0x1232_0000));
}

#[test]
fn near_search_low_origin_has_nothing_below() {
    let s = NearSearch::new(0x100);
    assert_eq!(s.below(), None);
    assert_eq!(s.above(), Some(GRANULARITY));
}

#[test]
fn near_search_stays_within_range() {
    let origin = 0x7000_0000_0000usize;
    let mut s = NearSearch::new(origin);
    let mut rounds = 0;
    while s.next_round() {
        rounds += 1;
        if let Some(c) = s.above() {
            assert_eq!(c % GRANULARITY, 0);
            assert!(c > origin && c - origin < MAX_RANGE);
        }
        if let Some(c) = s.below() {
            assert_eq!(c % GRANULARITY, 0);
            assert!(c <= origin && origin - c < MAX_RANGE);
        }
        s.advance();
    }
    assert_eq!(rounds, ROUNDS);
    assert_eq!(s.above(), None);
    assert_eq!(s.below(), None);
}

#[test]
fn protect_span_rounds_to_pages() {
    assert_eq!(protect_span(0x1234, 5, 0x1000), (0x1000, 0x239));
    assert_eq!(protect_span(0x2000, 0x10, 0x1000), (0x2000, 0x10));
    assert_eq!(protect_span(0x2FFE, 4, 0x1000), (0x2000, 0x1002));
}

#[test]
fn near_search_proposes_every_region_in_range() {
    let origin = 0x7000_1234_5678usize;
    let mut s = NearSearch::new(origin);
    let mut seen = std::collections::HashSet::new();
    while s.next_round() {
        if let Some(c) = s.above() {
            seen.insert(c);
        }
        if let Some(c) = s.below() {
            seen.insert(c);
        }
        s.advance();
    }
    let own = origin - origin % GRANULARITY;
    let mut q = origin - MAX_RANGE + (GRANULARITY - (origin - MAX_RANGE) % GRANULARITY);
    let mut count = 0usize;
    while q < origin + MAX_RANGE {
        if q != own {
            assert!(seen.contains(&q), "region {:#x} not proposed", q);
            count += 1;
        }
        q += GRANULARITY;
    }
    assert_eq!(seen.len(), count);
}
