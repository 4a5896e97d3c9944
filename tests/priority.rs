use vortex::parser::{calc_priority, PRIORITY_SCALE};
use vortex::settings::CrawlStrategy;

#[test]
fn breadth_first_priority_values() {
    assert_eq!(calc_priority(CrawlStrategy::BFO, 0), 1_000_000_000);
    assert_eq!(calc_priority(CrawlStrategy::BFO, 1), 500_000_000);
    assert_eq!(calc_priority(CrawlStrategy::BFO, 2), 333_333_333);
    assert_eq!(calc_priority(CrawlStrategy::BFO, 5), 166_666_667);
}

#[test]
fn depth_first_priority_values() {
    assert_eq!(calc_priority(CrawlStrategy::DFO, 0), 0);
    assert_eq!(calc_priority(CrawlStrategy::DFO, 1), 500_000_000);
    assert_eq!(calc_priority(CrawlStrategy::DFO, 2), 666_666_667);
    assert_eq!(calc_priority(CrawlStrategy::DFO, 5), 833_333_333);
}

#[test]
fn breadth_first_decreases_and_stays_positive() {
    let mut last = calc_priority(CrawlStrategy::BFO, 0);
    for depth in 1..=1000u32 {
        let p = calc_priority(CrawlStrategy::BFO, depth);
        assert!(p < last);
        assert!(p > 0);
        last = p;
    }
}

#[test]
fn depth_first_increases_and_stays_below_scale() {
    let mut last = calc_priority(CrawlStrategy::DFO, 0);
    for depth in 1..=1000u32 {
        let p = calc_priority(CrawlStrategy::DFO, depth);
        assert!(p > last);
        assert!((p as u64) < PRIORITY_SCALE);
        last = p;
    }
}

#[test]
fn unordered_priority_is_constant() {
    for depth in [0u32, 1, 2, 1000, u32::MAX] {
        assert_eq!(calc_priority(CrawlStrategy::Basic, depth), 1_000_000_000);
    }
}

#[test]
fn priority_at_largest_depth() {
    assert_eq!(calc_priority(CrawlStrategy::BFO, u32::MAX), 0);
    assert_eq!(calc_priority(CrawlStrategy::DFO, u32::MAX), 1_000_000_000);
}
