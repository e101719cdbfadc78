use autd3_link_soem::context::{Context, SlaveRecord};
use autd3_link_soem::error::SOEMError;
use autd3_link_soem::link::{
    adapter_has_autd, check_all_autd3, check_op_reached, check_safe_op_reached,
    check_slave_count, is_autd3,
};
use autd3_link_soem::option::{SOEMOption, TimerStrategy};
use autd3_link_soem::state::{EC_STATE_OPERATIONAL, EC_STATE_SAFE_OP, State};

fn named_slave(name: &str) -> SlaveRecord {
    SlaveRecord {
        configadr: 0x1001,
        state: State::new(EC_STATE_OPERATIONAL),
        islost: false,
        name: String::from(name),
        obytes: 626,
        ibytes: 2,
        sync0_cycle_ns: None,
    }
}

#[test]
fn zero_sync0_cycle_is_invalid() {
    let option = SOEMOption {
        sync0_cycle: 0,
        ..Default::default()
    };
    assert_eq!(option.validate(), Err(SOEMError::InvalidCycle(0)));
}

#[test]
fn off_grid_sync0_cycle_is_invalid() {
    // 750 us is not a multiple of 500 us.
    let option = SOEMOption {
        sync0_cycle: 750_000,
        ..Default::default()
    };
    assert_eq!(option.validate(), Err(SOEMError::InvalidCycle(750_000)));
}

#[test]
fn off_grid_send_cycle_is_invalid() {
    let option = SOEMOption {
        send_cycle: 123,
        ..Default::default()
    };
    assert_eq!(option.validate(), Err(SOEMError::InvalidCycle(123)));
}

#[test]
fn default_option_is_valid() {
    let option = SOEMOption::default();
    assert_eq!(option.validate(), Ok(()));
    assert_eq!(option.buf_size, 16);
    assert_eq!(option.sync0_cycle, 1_000_000);
    assert_eq!(option.sync_tolerance, 1_000);
    assert_eq!(option.sync_timeout, 10_000_000_000);
}

#[test]
fn geometry_mismatch_fails_with_both_counts() {
    assert_eq!(
        check_slave_count(Some(1), 2),
        Err(SOEMError::SlaveNotFound(1, 2))
    );
    assert_eq!(
        check_slave_count(None, 2),
        Err(SOEMError::SlaveNotFound(0, 2))
    );
    assert_eq!(check_slave_count(Some(3), 3), Ok(3));
    // An empty geometry accepts any discovered count.
    assert_eq!(check_slave_count(Some(5), 0), Ok(5));
}

#[test]
fn vendor_check() {
    assert!(is_autd3(&named_slave("AUTD")));
    assert!(!is_autd3(&named_slave("AUTD3")));
    assert!(!is_autd3(&named_slave("")));

    assert_eq!(
        check_all_autd3(&vec![named_slave("AUTD"), named_slave("AUTD")]),
        Ok(())
    );
    assert_eq!(
        check_all_autd3(&vec![named_slave("AUTD"), named_slave("other")]),
        Err(SOEMError::NoDeviceFound)
    );
    assert!(adapter_has_autd(true, 2, true));
    assert!(!adapter_has_autd(true, 0, true));
    assert!(!adapter_has_autd(false, 2, true));
}

#[test]
fn state_milestones() {
    assert_eq!(check_safe_op_reached(State::new(EC_STATE_SAFE_OP)), Ok(()));
    assert_eq!(
        check_safe_op_reached(State::new(EC_STATE_OPERATIONAL)),
        Err(SOEMError::NotReachedRequiredState(
            State::new(EC_STATE_SAFE_OP),
            State::new(EC_STATE_OPERATIONAL)
        ))
    );
    assert_eq!(check_op_reached(State::new(EC_STATE_OPERATIONAL)), Ok(()));
    assert_eq!(
        check_op_reached(State::new(EC_STATE_SAFE_OP)),
        Err(SOEMError::NotResponding)
    );
}

#[test]
fn ifname_resolution() {
    let auto = SOEMOption::default();
    assert_eq!(auto.ifname(), Ok(None));

    let named = SOEMOption {
        ifname: Some(String::from("eth0")),
        ..Default::default()
    };
    assert_eq!(named.ifname(), Ok(Some(String::from("eth0"))));

    let bad = SOEMOption {
        ifname: Some(String::from("eth\0")),
        ..Default::default()
    };
    assert_eq!(
        bad.ifname(),
        Err(SOEMError::InvalidInterfaceName(String::from("eth\0")))
    );
}

#[test]
fn timer_strategy_variants_are_distinct() {
    assert_ne!(TimerStrategy::SpinSleep, TimerStrategy::StdSleep);
    assert_ne!(TimerStrategy::StdSleep, TimerStrategy::SpinWait);
}

#[test]
fn close_requests_init_and_clears_sync_config() {
    let mut ctx = Context::new();
    ctx.slaves = vec![named_slave("AUTD"), named_slave("AUTD")];
    ctx.configdc(1_000_000);
    ctx.set_po2so_config();
    assert_eq!(ctx.slaves[0].sync0_cycle_ns, Some(1_000_000));
    assert_eq!(ctx.slaves[1].sync0_cycle_ns, Some(1_000_000));

    ctx.close();
    assert_eq!(ctx.sync0_cycle_ns, None);
    assert_eq!(ctx.slaves[0].sync0_cycle_ns, None);
    assert_eq!(ctx.slaves[1].sync0_cycle_ns, None);
    assert_eq!(ctx.fetch_state(0).state(), 0x01);
}
