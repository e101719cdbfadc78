use autd3_link_soem::cycle::{ec_sync, initial_deadline, update_miss_count};

#[test]
fn ec_sync_zero_when_in_phase() {
    let mut timeerror: i64 = 0;
    let mut integral: i64 = 0;
    // reftime sits exactly 500 us past a cycle boundary.
    let toff = ec_sync(500_000 + 7 * 1_000_000, 1_000_000, &mut timeerror, &mut integral);
    assert_eq!(timeerror, 0);
    assert_eq!(integral, 0);
    assert_eq!(toff, 0);
}

#[test]
fn ec_sync_late_reference_pulls_deadline_back() {
    let mut timeerror: i64 = 0;
    let mut integral: i64 = 0;
    // reftime is 100 us past the phase point: delta = 100_000.
    let toff = ec_sync(600_000, 1_000_000, &mut timeerror, &mut integral);
    assert_eq!(timeerror, -100_000);
    assert_eq!(integral, -100_000);
    // (500 * 100000 + 100000) / 50000 = 1002 exactly, negated.
    assert_eq!(toff, -1002);
}

#[test]
fn ec_sync_folds_large_remainder_negative() {
    let mut timeerror: i64 = 0;
    let mut integral: i64 = 0;
    // delta0 = 900_000 > T/2, folded to -100_000.
    let toff = ec_sync(1_400_000, 1_000_000, &mut timeerror, &mut integral);
    assert_eq!(timeerror, 100_000);
    assert_eq!(integral, 100_000);
    assert_eq!(toff, 1002);
}

#[test]
fn ec_sync_integrates_across_calls() {
    let mut timeerror: i64 = 0;
    let mut integral: i64 = 0;
    ec_sync(600_000, 1_000_000, &mut timeerror, &mut integral);
    let toff = ec_sync(600_000, 1_000_000, &mut timeerror, &mut integral);
    assert_eq!(integral, -200_000);
    // round((500 * 100000 + 200000) / 50000) = round(1004.0) = 1004, negative.
    assert_eq!(toff, -1004);
}

#[test]
fn initial_deadline_lands_on_cycle_boundary() {
    assert_eq!(initial_deadline(1_234_567, 1_000_000), 2_000_000);
    // An exact boundary moves one full cycle ahead.
    assert_eq!(initial_deadline(2_000_000, 1_000_000), 3_000_000);
    assert_eq!(initial_deadline(0, 500_000), 500_000);
}

#[test]
fn miss_counter_policy() {
    assert_eq!(update_miss_count(42, false), (0, false));
    assert_eq!(update_miss_count(0, true), (1, false));
    assert_eq!(update_miss_count(998, true), (999, false));
    // The thousandth consecutive miss warns once and starts over.
    assert_eq!(update_miss_count(999, true), (0, true));
}
