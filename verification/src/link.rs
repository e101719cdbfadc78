//! The open-phase decisions of the link facade: matching the discovered
//! chain against the caller's geometry, checking the vendor of every slave,
//! and judging the state-transition milestones.

use vstd::prelude::*;

use crate::context::SlaveRecord;
use crate::error::SOEMError;
use crate::state::{EC_STATE_OPERATIONAL, EC_STATE_SAFE_OP, State};

verus! {

/// Matches the discovered working counter against the expected device
/// count. No discovery at all, or a count that disagrees with a non-empty
/// geometry, fails with the pair of counts.
pub fn check_slave_count(wc: Option<u16>, expected: u16) -> (r: Result<u16, SOEMError>)
    ensures
        wc is None ==> r == Err::<u16, SOEMError>(SOEMError::SlaveNotFound(0, expected)),
        wc matches Some(n) ==> ((expected > 0 && n != expected) ==> r == Err::<u16, SOEMError>(
            SOEMError::SlaveNotFound(n, expected),
        )) && (!(expected > 0 && n != expected) ==> r == Ok::<u16, SOEMError>(n)),
{
    match wc {
        Option::None => Err(SOEMError::SlaveNotFound(0, expected)),
        Option::Some(n) => {
            if expected > 0 && n != expected {
                Err(SOEMError::SlaveNotFound(n, expected))
            } else {
                Ok(n)
            }
        },
    }
}

/// True when the slave identified itself with the AUTD vendor name.
pub fn is_autd3(slave: &SlaveRecord) -> (r: bool)
    ensures
        r == (slave.name@ == "AUTD"@),
{
    let autd: String = String::from_str("AUTD");
    slave.name == autd
}

/// Checks that every discovered slave is an AUTD device.
pub fn check_all_autd3(slaves: &Vec<SlaveRecord>) -> (r: Result<(), SOEMError>)
    ensures
        r is Ok <==> (forall|k: int|
            0 <= k < slaves@.len() ==> (#[trigger] slaves@[k]).name@ == "AUTD"@),
        r is Err ==> r == Err::<(), SOEMError>(SOEMError::NoDeviceFound),
{
    let n = slaves.len();
    let mut i: usize = 0;
    while i < n
        invariant
            n == slaves@.len(),
            i <= n,
            forall|k: int| 0 <= k < i ==> (#[trigger] slaves@[k]).name@ == "AUTD"@,
        decreases n - i,
    {
        if !is_autd3(&slaves[i]) {
            return Err(SOEMError::NoDeviceFound);
        }
        i = i + 1;
    }
    Ok(())
}

/// Whether a probed interface is the one to use: its socket opened, it
/// found at least one slave, and every slave is an AUTD device.
pub fn adapter_has_autd(init_ok: bool, num_slaves: u16, all_autd: bool) -> (r: bool)
    ensures
        r == (init_ok && num_slaves > 0 && all_autd),
{
    init_ok && num_slaves > 0 && all_autd
}

/// Judges the SAFE_OP milestone of `open`: the chain must report exactly
/// SAFE_OP once asked for it.
pub fn check_safe_op_reached(state: State) -> (r: Result<(), SOEMError>)
    ensures
        state.value == EC_STATE_SAFE_OP ==> r is Ok,
        state.value != EC_STATE_SAFE_OP ==> r == Err::<(), SOEMError>(
            SOEMError::NotReachedRequiredState(State { value: EC_STATE_SAFE_OP }, state),
        ),
{
    if state.state() == EC_STATE_SAFE_OP {
        Ok(())
    } else {
        Err(SOEMError::NotReachedRequiredState(State::new(EC_STATE_SAFE_OP), state))
    }
}

/// Judges the OPERATIONAL milestone of `open`: a chain that did not reach
/// it is not responding.
pub fn check_op_reached(state: State) -> (r: Result<(), SOEMError>)
    ensures
        state.value == EC_STATE_OPERATIONAL ==> r is Ok,
        state.value != EC_STATE_OPERATIONAL ==> r == Err::<(), SOEMError>(
            SOEMError::NotResponding,
        ),
{
    if state.state() == EC_STATE_OPERATIONAL {
        Ok(())
    } else {
        Err(SOEMError::NotResponding)
    }
}

} // verus!
