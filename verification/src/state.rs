//! The EtherCAT application-layer state of a slave.
//!
//! A slave reports its state as a 16-bit word: the low four bits carry the
//! base state (NONE, INIT, PRE_OP, SAFE_OP or OPERATIONAL) and bit 4 is the
//! ERROR indicator. The same bit, written by the master, requests an error
//! acknowledgement (ACK).

use vstd::prelude::*;

verus! {

/// Base state: the slave does not respond.
pub const EC_STATE_NONE: u16 = 0x00;
/// Base state: INIT.
pub const EC_STATE_INIT: u16 = 0x01;
/// Base state: PRE_OP.
pub const EC_STATE_PRE_OP: u16 = 0x02;
/// Base state: BOOT.
pub const EC_STATE_BOOT: u16 = 0x03;
/// Base state: SAFE_OP.
pub const EC_STATE_SAFE_OP: u16 = 0x04;
/// Base state: OPERATIONAL.
pub const EC_STATE_OPERATIONAL: u16 = 0x08;
/// Error-acknowledge request bit (master to slave).
pub const EC_STATE_ACK: u16 = 0x10;
/// Error indicator bit (slave to master); the same bit as ACK.
pub const EC_STATE_ERROR: u16 = 0x10;

/// An application-layer state word as read from or written to a slave.
#[derive(Clone, Copy, Debug, PartialEq, Eq, Structural)]
pub struct State {
    /// The raw state word.
    pub value: u16,
}

impl State {
    /// Wraps a raw state word.
    pub fn new(value: u16) -> (r: State)
        ensures
            r.value == value,
    {
        State { value }
    }

    /// The raw state word.
    pub fn state(self) -> (r: u16)
        ensures
            r == self.value,
    {
        self.value
    }

    /// The state word with the ERROR bit masked out.
    pub open spec fn base(self) -> u16 {
        self.value & !EC_STATE_ERROR
    }

    /// True of the all-zero word: the slave gave no response.
    pub fn is_none(self) -> (r: bool)
        ensures
            r == (self.value == EC_STATE_NONE),
    {
        self.value == EC_STATE_NONE
    }

    /// True of every word other than NONE: the slave responded.
    pub fn is_some(self) -> (r: bool)
        ensures
            r == (self.value != EC_STATE_NONE),
    {
        self.value > EC_STATE_NONE
    }

    /// True when the base state is SAFE_OP, whether or not ERROR is set.
    pub fn is_safe_op(self) -> (r: bool)
        ensures
            r == (self.base() == EC_STATE_SAFE_OP),
    {
        (self.value & !EC_STATE_ERROR) == EC_STATE_SAFE_OP
    }

    /// True when the ERROR bit is set.
    pub fn is_error(self) -> (r: bool)
        ensures
            r == ((self.value & EC_STATE_ERROR) != 0),
    {
        (self.value & EC_STATE_ERROR) != 0
    }

    /// True when the slave is fully operational (and not flagging an error).
    pub fn is_operational(self) -> (r: bool)
        ensures
            r == (self.value == EC_STATE_OPERATIONAL),
    {
        self.value == EC_STATE_OPERATIONAL
    }

    /// The " + Error" tail of the description, when the ERROR bit is set.
    pub open spec fn error_suffix(self) -> Seq<char> {
        if (self.value & EC_STATE_ERROR) != 0 {
            " + Error"@
        } else {
            Seq::empty()
        }
    }

    /// The description that `message` returns: the base state's name, with
    /// " + Error" appended when the ERROR bit is set; an unrecognized base
    /// state shows the raw word.
    pub open spec fn message_spec(self) -> Seq<char> {
        let b = self.base();
        if b == EC_STATE_NONE {
            "None"@ + self.error_suffix()
        } else if b == EC_STATE_INIT {
            "Init"@ + self.error_suffix()
        } else if b == EC_STATE_PRE_OP {
            "Pre-op"@ + self.error_suffix()
        } else if b == EC_STATE_SAFE_OP {
            "Safe-op"@ + self.error_suffix()
        } else if b == EC_STATE_OPERATIONAL {
            "Operational"@ + self.error_suffix()
        } else {
            "Unknown ("@ + crate::fmt::dec_str(self.value as nat) + ")"@
        }
    }

    /// A human-readable description of the state word.
    pub fn message(self) -> (r: String)
        ensures
            r@ == self.message_spec(),
    {
        let b = self.value & !EC_STATE_ERROR;
        if b == EC_STATE_NONE || b == EC_STATE_INIT || b == EC_STATE_PRE_OP || b
            == EC_STATE_SAFE_OP || b == EC_STATE_OPERATIONAL {
            let name: &str = if b == EC_STATE_NONE {
                "None"
            } else if b == EC_STATE_INIT {
                "Init"
            } else if b == EC_STATE_PRE_OP {
                "Pre-op"
            } else if b == EC_STATE_SAFE_OP {
                "Safe-op"
            } else {
                "Operational"
            };
            let mut s = String::from_str(name);
            if (self.value & EC_STATE_ERROR) != 0 {
                s.append(" + Error");
            }
            proof {
                assert(s@ =~= self.message_spec());
            }
            s
        } else {
            let mut s = String::from_str("Unknown (");
            crate::fmt::append_dec(&mut s, self.value as u64);
            s.append(")");
            proof {
                assert(s@ =~= self.message_spec());
            }
            s
        }
    }
}

} // verus!
