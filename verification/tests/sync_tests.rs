use autd3_link_soem::dc::{
    decode_dcsysdiff, sync_decision, SyncDecision, SyncMonitor, DIFF_SCALE,
};
use autd3_link_soem::smoothing::Smoothing;

#[test]
fn smoothing_reference_sequence() {
    // The reference sequence 10, 20, 30, 40 with alpha = 1/5, in hundredths:
    // 10.00, 12.00, 15.60, 20.48.
    let mut smoothing = Smoothing::new(1, 5);
    assert_eq!(1000, smoothing.push(1000));
    assert_eq!(1200, smoothing.push(2000));
    assert_eq!(1560, smoothing.push(3000));
    assert_eq!(2048, smoothing.push(4000));
}

#[test]
fn smoothing_first_push_is_identity() {
    let mut smoothing = Smoothing::new(1, 5);
    assert_eq!(-4242, smoothing.push(-4242));
}

#[test]
fn smoothing_settles_on_repeated_value() {
    let mut smoothing = Smoothing::new(1, 5);
    smoothing.push(700);
    assert_eq!(700, smoothing.push(700));
    assert_eq!(700, smoothing.push(700));
}

#[test]
fn dcsysdiff_decode() {
    assert_eq!(decode_dcsysdiff(0x0000_0001), 1);
    assert_eq!(decode_dcsysdiff(0x8000_0001), -1);
    assert_eq!(decode_dcsysdiff(0x7FFF_FFFF), 2_147_483_647);
    assert_eq!(decode_dcsysdiff(0x8000_0000), 0);
}

#[test]
fn single_device_synchronizes_immediately() {
    let mut monitor = SyncMonitor::new(0, 1000);
    let readings: Vec<Option<u32>> = Vec::new();
    let max_diff = monitor.step(&readings);
    assert_eq!(max_diff, 0);
    assert_eq!(
        sync_decision(max_diff, 1000, 0, 10_000_000_000),
        SyncDecision::Synchronized
    );
}

#[test]
fn monitor_reuses_last_raw_on_failed_read() {
    let mut monitor = SyncMonitor::new(1, 1000);
    // The raw value is primed with the tolerance; a failed read keeps it.
    let max_diff = monitor.step(&vec![None]);
    // First sample: 1000 ns, scaled by 100.
    assert_eq!(max_diff, 1000 * DIFF_SCALE);
    // A fresh reading of 500 ns is averaged in: (1 * 50000 + 4 * 100000) / 5.
    let max_diff = monitor.step(&vec![Some(500)]);
    assert_eq!(max_diff, 90_000);
}

#[test]
fn monitor_takes_magnitude_and_maximum() {
    let mut monitor = SyncMonitor::new(2, 1000);
    // -800 ns (sign-magnitude) on the first slave, +300 ns on the second.
    let max_diff = monitor.step(&vec![Some(0x8000_0320), Some(300)]);
    assert_eq!(max_diff, 800 * DIFF_SCALE);
}

#[test]
fn sync_decision_cases() {
    // Below tolerance: synchronized, whatever the clock says.
    assert_eq!(
        sync_decision(99 * DIFF_SCALE, 100, 999, 10),
        SyncDecision::Synchronized
    );
    // At tolerance and timed out.
    assert_eq!(
        sync_decision(100 * DIFF_SCALE, 100, 11, 10),
        SyncDecision::TimedOut
    );
    // At tolerance, still time left.
    assert_eq!(
        sync_decision(100 * DIFF_SCALE, 100, 9, 10),
        SyncDecision::Continue
    );
}
