//! The link's configuration and its validation.

use vstd::prelude::*;

use crate::error::SOEMError;

verus! {

/// The base unit of the EtherCAT cycle: 500 µs in nanoseconds. Every cycle
/// duration must be a non-zero multiple of it.
pub const EC_CYCLE_TIME_BASE_NS: u64 = 500_000;

/// How the cycle thread waits for its next deadline.
#[derive(Clone, Copy, Debug, PartialEq, Eq, Structural)]
pub enum TimerStrategy {
    /// A hybrid spin sleep, accurate below a millisecond.
    SpinSleep,
    /// The plain OS sleep.
    StdSleep,
    /// A busy-wait loop.
    SpinWait,
}

/// The options of the link. All durations are in nanoseconds.
#[derive(Clone, Debug, PartialEq)]
pub struct SOEMOption {
    /// The size of the send queue buffer.
    pub buf_size: usize,
    /// The network interface name; empty to pick the interface with AUTD
    /// devices automatically.
    pub ifname: Option<String>,
    /// The interval between supervisor sweeps.
    pub state_check_interval: u64,
    /// The cycle of the SYNC0 signal; a non-zero multiple of 500 µs.
    pub sync0_cycle: u64,
    /// The process-data send cycle; a non-zero multiple of 500 µs.
    pub send_cycle: u64,
    /// The largest tolerated system-time difference after synchronization.
    pub sync_tolerance: u64,
    /// How long to wait for synchronization before giving up.
    pub sync_timeout: u64,
    /// The core to pin the cycle thread to, if any.
    pub affinity: Option<usize>,
}

/// A cycle duration the bus accepts: non-zero and on the 500 µs grid.
pub open spec fn valid_cycle(ns: u64) -> bool {
    ns != 0 && ns % EC_CYCLE_TIME_BASE_NS == 0
}

/// True when the character sequence holds an interior NUL, which no
/// interface name can carry to the transport.
pub open spec fn has_nul(s: Seq<char>) -> bool {
    exists|i: int| 0 <= i < s.len() && s[i] == '\0'
}

impl SOEMOption {
    /// Checks both cycle durations; the SYNC0 cycle is checked first.
    pub fn validate(&self) -> (r: Result<(), SOEMError>)
        ensures
            r is Ok <==> valid_cycle(self.sync0_cycle) && valid_cycle(self.send_cycle),
            !valid_cycle(self.sync0_cycle) ==> r == Err::<(), SOEMError>(
                SOEMError::InvalidCycle(self.sync0_cycle),
            ),
            valid_cycle(self.sync0_cycle) && !valid_cycle(self.send_cycle) ==> r == Err::<
                (),
                SOEMError,
            >(SOEMError::InvalidCycle(self.send_cycle)),
    {
        if self.sync0_cycle == 0 || self.sync0_cycle % EC_CYCLE_TIME_BASE_NS != 0 {
            Err(SOEMError::InvalidCycle(self.sync0_cycle))
        } else if self.send_cycle == 0 || self.send_cycle % EC_CYCLE_TIME_BASE_NS != 0 {
            Err(SOEMError::InvalidCycle(self.send_cycle))
        } else {
            Ok(())
        }
    }

    /// Resolves the configured interface name: a given name is checked for
    /// interior NULs; no name means the caller must discover one.
    pub fn ifname(&self) -> (r: Result<Option<String>, SOEMError>)
        ensures
            self.ifname is None ==> r == Ok::<Option<String>, SOEMError>(None),
            self.ifname matches Some(name) ==> ((!has_nul(name@) ==> (r matches Ok(o) && o
                matches Some(out) && out@ == name@)) && (has_nul(name@) ==> (r matches Err(e)
                && e matches SOEMError::InvalidInterfaceName(out) && out@ == name@))),
    {
        match &self.ifname {
            Option::None => Ok(None),
            Option::Some(name) => {
                let n = name.as_str().unicode_len();
                let mut i: usize = 0;
                let mut found: bool = false;
                while i < n
                    invariant
                        n == name@.len(),
                        i <= n,
                        found == exists|k: int| 0 <= k < i && name@[k] == '\0',
                    decreases n - i,
                {
                    if name.as_str().get_char(i) == '\0' {
                        found = true;
                    }
                    i = i + 1;
                }
                if found {
                    Err(SOEMError::InvalidInterfaceName(name.clone()))
                } else {
                    Ok(Some(name.clone()))
                }
            },
        }
    }
}

impl Default for SOEMOption {
    /// The defaults: a 16-entry buffer pool, automatic interface discovery,
    /// 100 ms state checks, 1 ms cycles, 1 µs tolerance, 10 s timeout, no
    /// pinning.
    fn default() -> (r: SOEMOption)
        ensures
            r.buf_size == 16,
            r.ifname is None,
            r.state_check_interval == 100_000_000,
            r.sync0_cycle == 1_000_000,
            r.send_cycle == 1_000_000,
            r.sync_tolerance == 1_000,
            r.sync_timeout == 10_000_000_000,
            r.affinity is None,
    {
        SOEMOption {
            buf_size: 16,
            ifname: None,
            state_check_interval: 100_000_000,
            sync0_cycle: 1_000_000,
            send_cycle: 1_000_000,
            sync_tolerance: 1_000,
            sync_timeout: 10_000_000_000,
            affinity: None,
        }
    }
}

} // verus!
