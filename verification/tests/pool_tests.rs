use autd3_link_soem::error::SOEMError;
use autd3_link_soem::fmt::u64_to_dec;
use autd3_link_soem::pool::TxBufferPool;
use autd3_link_soem::state::State;

#[test]
fn pool_conserves_buffers() {
    let mut pool = TxBufferPool::new(2, 3);
    assert_eq!(pool.free.len(), 2);
    assert_eq!(pool.lent, 0);

    let a = pool.alloc_tx_buffer().unwrap();
    assert_eq!(a.len(), 3);
    assert_eq!(pool.free.len() + pool.lent, 2);

    let b = pool.alloc_tx_buffer().unwrap();
    assert_eq!(pool.free.len(), 0);
    assert_eq!(pool.lent, 2);

    // The pool is drained: nothing to lend.
    assert!(pool.alloc_tx_buffer().is_none());

    pool.return_buffer(a);
    assert_eq!(pool.free.len() + pool.lent, 2);
    pool.return_buffer(b);
    assert_eq!(pool.free.len(), 2);
    assert_eq!(pool.lent, 0);

    let c = pool.alloc_tx_buffer().unwrap();
    assert!(c.iter().all(|m| m.payload.len() == 622));
}

#[test]
fn decimal_rendering() {
    assert_eq!(u64_to_dec(0), "0");
    assert_eq!(u64_to_dec(7), "7");
    assert_eq!(u64_to_dec(1234567890), "1234567890");
    assert_eq!(u64_to_dec(u64::MAX), "18446744073709551615");
}

#[test]
fn error_messages() {
    assert_eq!(
        SOEMError::InvalidCycle(750_000).message(),
        "Cycle(750000ns) must be a multiple of 500us and not 0"
    );
    assert_eq!(SOEMError::NoDeviceFound.message(), "No AUTD device was found");
    assert_eq!(
        SOEMError::NoSocketConnection(String::from("eth0")).message(),
        "No socket connection on eth0"
    );
    assert_eq!(
        SOEMError::SlaveNotFound(1, 2).message(),
        "The number of slaves you specified is 2, but 1 devices are found"
    );
    assert_eq!(
        SOEMError::NotResponding.message(),
        "One or more slaves are not responding"
    );
    assert_eq!(
        SOEMError::NotReachedRequiredState(State::new(0x04), State::new(0x01)).message(),
        "One or more slaves did not reach required state (expected: Safe-op, actual: Init)"
    );
    assert_eq!(
        SOEMError::InvalidInterfaceName(String::from("bad\0name")).message(),
        "Invalid interface name: bad\0name"
    );
    assert_eq!(
        SOEMError::SynchronizeFailed(2500, 1000).message(),
        "Failed to synchronize devices. Maximum system time difference (2500ns) exceeded the tolerance (1000ns)"
    );
    assert_eq!(
        SOEMError::ThreadPriorityError(String::from("no permission")).message(),
        "no permission"
    );
    assert_eq!(
        SOEMError::AffinitySetFailed(3).message(),
        "Failed to set CPU affinity for the EtherCAT thread: 3"
    );
    assert_eq!(SOEMError::Io(String::from("broken pipe")).message(), "broken pipe");
}
