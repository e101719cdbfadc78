//! Conditions that the slave supervisor reports to the application.

use vstd::prelude::*;

verus! {

/// The status of an EtherCAT slave, as reported by the supervisor callback.
#[derive(Clone, Copy, Debug, PartialEq, Eq, Structural)]
pub enum Status {
    /// The slave is in SAFE_OP + ERROR.
    Error,
    /// The slave is lost.
    Lost,
    /// The slave is in SAFE_OP.
    StateChanged,
    /// The slave recovered.
    Recovered,
    /// All slaves resumed OPERATIONAL.
    Resumed,
}

impl Status {
    /// A human-readable description of the condition.
    pub fn message(self) -> (r: String)
        ensures
            r@ == self.message_spec(),
    {
        match self {
            Status::Error => "slave is in SAFE_OP + ERROR, attempting ack".to_string(),
            Status::Lost => "slave is lost".to_string(),
            Status::StateChanged => "slave is in SAFE_OP, change to OPERATIONAL".to_string(),
            Status::Recovered => "slave is recovered".to_string(),
            Status::Resumed => "all slaves resumed OPERATIONAL".to_string(),
        }
    }

    /// The description that `message` returns.
    pub open spec fn message_spec(self) -> Seq<char> {
        match self {
            Status::Error => "slave is in SAFE_OP + ERROR, attempting ack"@,
            Status::Lost => "slave is lost"@,
            Status::StateChanged => "slave is in SAFE_OP, change to OPERATIONAL"@,
            Status::Recovered => "slave is recovered"@,
            Status::Resumed => "all slaves resumed OPERATIONAL"@,
        }
    }
}

} // verus!
