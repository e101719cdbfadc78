//! The errors the link surfaces to its caller.
//!
//! Durations are carried in nanoseconds; names and OS error texts as plain
//! strings, so that every payload is a value this crate can reason about.

use vstd::prelude::*;

use crate::fmt::{append_dec, dec_str};
use crate::state::State;

verus! {

/// Why opening or running the link failed.
#[derive(Debug, Clone, PartialEq)]
pub enum SOEMError {
    /// A cycle duration (in nanoseconds) is zero or not a multiple of
    /// 500 µs.
    InvalidCycle(u64),
    /// No interface with AUTD devices was found.
    NoDeviceFound,
    /// The raw socket on the named interface could not be opened.
    NoSocketConnection(String),
    /// The discovered device count disagrees with the caller's geometry:
    /// found, then expected.
    SlaveNotFound(u16, u16),
    /// One or more slaves are not responding.
    NotResponding,
    /// A slave did not reach the required state: expected, then actual.
    NotReachedRequiredState(State, State),
    /// The interface name cannot be handed to the transport.
    InvalidInterfaceName(String),
    /// Synchronization did not reach the tolerance in time: the maximum
    /// difference and the tolerance, in nanoseconds.
    SynchronizeFailed(u64, u64),
    /// The OS refused the requested thread priority.
    ThreadPriorityError(String),
    /// The OS refused to pin the cycle thread to the given core.
    AffinitySetFailed(usize),
    /// An I/O error from the transport layer.
    Io(String),
}

impl SOEMError {
    /// The description that `message` returns.
    pub open spec fn message_spec(self) -> Seq<char> {
        match self {
            SOEMError::InvalidCycle(d) => "Cycle("@ + dec_str(d as nat)
                + "ns) must be a multiple of 500us and not 0"@,
            SOEMError::NoDeviceFound => "No AUTD device was found"@,
            SOEMError::NoSocketConnection(name) => "No socket connection on "@ + name@,
            SOEMError::SlaveNotFound(found, expected) => "The number of slaves you specified is "@
                + dec_str(expected as nat) + ", but "@ + dec_str(found as nat)
                + " devices are found"@,
            SOEMError::NotResponding => "One or more slaves are not responding"@,
            SOEMError::NotReachedRequiredState(expected, actual) => {
                "One or more slaves did not reach required state (expected: "@
                    + expected.message_spec() + ", actual: "@ + actual.message_spec() + ")"@
            },
            SOEMError::InvalidInterfaceName(name) => "Invalid interface name: "@ + name@,
            SOEMError::SynchronizeFailed(max_diff, tolerance) => {
                "Failed to synchronize devices. Maximum system time difference ("@ + dec_str(
                    max_diff as nat,
                ) + "ns) exceeded the tolerance ("@ + dec_str(tolerance as nat) + "ns)"@
            },
            SOEMError::ThreadPriorityError(e) => e@,
            SOEMError::AffinitySetFailed(core_id) => {
                "Failed to set CPU affinity for the EtherCAT thread: "@ + dec_str(core_id as nat)
            },
            SOEMError::Io(e) => e@,
        }
    }

    /// A human-readable description of the error.
    pub fn message(&self) -> (r: String)
        ensures
            r@ == self.message_spec(),
    {
        match self {
            SOEMError::InvalidCycle(d) => {
                let mut s = String::from_str("Cycle(");
                append_dec(&mut s, *d);
                s.append("ns) must be a multiple of 500us and not 0");
                proof {
                    assert(s@ =~= self.message_spec());
                }
                s
            },
            SOEMError::NoDeviceFound => String::from_str("No AUTD device was found"),
            SOEMError::NoSocketConnection(name) => {
                let mut s = String::from_str("No socket connection on ");
                s.append(name.as_str());
                proof {
                    assert(s@ =~= self.message_spec());
                }
                s
            },
            SOEMError::SlaveNotFound(found, expected) => {
                let mut s = String::from_str("The number of slaves you specified is ");
                append_dec(&mut s, *expected as u64);
                s.append(", but ");
                append_dec(&mut s, *found as u64);
                s.append(" devices are found");
                proof {
                    assert(s@ =~= self.message_spec());
                }
                s
            },
            SOEMError::NotResponding => String::from_str("One or more slaves are not responding"),
            SOEMError::NotReachedRequiredState(expected, actual) => {
                let mut s = String::from_str(
                    "One or more slaves did not reach required state (expected: ",
                );
                let em = expected.message();
                s.append(em.as_str());
                s.append(", actual: ");
                let am = actual.message();
                s.append(am.as_str());
                s.append(")");
                proof {
                    assert(s@ =~= self.message_spec());
                }
                s
            },
            SOEMError::InvalidInterfaceName(name) => {
                let mut s = String::from_str("Invalid interface name: ");
                s.append(name.as_str());
                proof {
                    assert(s@ =~= self.message_spec());
                }
                s
            },
            SOEMError::SynchronizeFailed(max_diff, tolerance) => {
                let mut s = String::from_str(
                    "Failed to synchronize devices. Maximum system time difference (",
                );
                append_dec(&mut s, *max_diff);
                s.append("ns) exceeded the tolerance (");
                append_dec(&mut s, *tolerance);
                s.append("ns)");
                proof {
                    assert(s@ =~= self.message_spec());
                }
                s
            },
            SOEMError::ThreadPriorityError(e) => {
                let mut s = String::new();
                s.append(e.as_str());
                proof {
                    assert(s@ =~= self.message_spec());
                }
                s
            },
            SOEMError::AffinitySetFailed(core_id) => {
                let mut s = String::from_str("Failed to set CPU affinity for the EtherCAT thread: ");
                append_dec(&mut s, *core_id as u64);
                proof {
                    assert(s@ =~= self.message_spec());
                }
                s
            },
            SOEMError::Io(e) => {
                let mut s = String::new();
                s.append(e.as_str());
                proof {
                    assert(s@ =~= self.message_spec());
                }
                s
            },
        }
    }
}

} // verus!
