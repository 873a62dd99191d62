use okulekrano::config::{Capture, Glasses};
use okulekrano::pose::{fusion_due, FUSION_PERIOD_US};

#[test]
fn defaults() {
    assert!(Capture::default().output_name.is_none());
    let g = Glasses::default();
    assert!(g.monitor_name.is_none());
    assert!(!g.window_mode);
}

#[test]
fn fusion_pacing() {
    assert_eq!(FUSION_PERIOD_US, 10000);
    assert!(fusion_due(10000, 0));
    assert!(!fusion_due(9999, 0));
    assert!(fusion_due(25000, 15000));
    assert!(!fusion_due(25000, 15001));
    assert!(fusion_due(5, 100));
    assert!(!fusion_due(100, 100));
}
