use restless_drive_monitor::data::AlertLevel;
use std::cmp::Ordering;

const LEVELS: [AlertLevel; 4] =
    [AlertLevel::Info, AlertLevel::Warning, AlertLevel::Critical, AlertLevel::Unknown];

#[test]
fn levels_are_ordered_as_declared() {
    assert!(AlertLevel::Info < AlertLevel::Warning);
    assert!(AlertLevel::Warning < AlertLevel::Critical);
    assert!(AlertLevel::Critical < AlertLevel::Unknown);
    assert!(AlertLevel::Unknown >= AlertLevel::Critical);
    assert!(!(AlertLevel::Critical >= AlertLevel::Unknown));
}

#[test]
fn level_order_is_total_and_agrees_with_severity() {
    for (i, a) in LEVELS.iter().enumerate() {
        assert_eq!(a.severity() as usize, i);
        for (j, b) in LEVELS.iter().enumerate() {
            assert_eq!(a.partial_cmp(b), Some(i.cmp(&j)));
            assert_eq!(a == b, i == j);
            assert_eq!(a >= b, i >= j);
            assert_eq!(a < b, i < j);
        }
    }
    assert_eq!(AlertLevel::Info.partial_cmp(&AlertLevel::Info), Some(Ordering::Equal));
}
