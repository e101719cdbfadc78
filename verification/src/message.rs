//! The cyclic process-data messages exchanged with the devices.
//!
//! Each output (TX) frame is a packed 4-byte header — message id, a reserved
//! zero byte, and a little-endian 16-bit slot-2 offset — followed by a fixed
//! payload. Each input (RX) frame is two bytes: data and acknowledgement.

use vstd::prelude::*;

verus! {

/// Size in bytes of one output frame on the bus.
pub const EC_OUTPUT_FRAME_SIZE: usize = 626;
/// Size in bytes of one input frame on the bus.
pub const EC_INPUT_FRAME_SIZE: usize = 2;
/// Size in bytes of a TX header.
pub const TX_HEADER_SIZE: usize = 4;
/// Size in bytes of a TX payload.
pub const TX_PAYLOAD_SIZE: usize = 622;

/// The header of a TX message.
#[derive(Clone, Copy, Debug, PartialEq, Eq, Structural)]
pub struct Header {
    /// The message id, placed in the first byte of the frame.
    pub msg_id: u8,
    /// The slot-2 offset, placed little-endian in bytes 2 and 3 of the frame.
    pub slot_2_offset: u16,
}

/// One output frame: header plus fixed-size payload.
#[derive(Clone, Debug, PartialEq, Eq)]
pub struct TxMessage {
    /// The frame header.
    pub header: Header,
    /// The frame payload; always `TX_PAYLOAD_SIZE` bytes.
    pub payload: Vec<u8>,
}

impl TxMessage {
    /// A TX message is well formed when its payload has the fixed frame size.
    pub open spec fn wf(self) -> bool {
        self.payload@.len() == TX_PAYLOAD_SIZE
    }

    /// The byte at offset `j` of the frame this message denotes on the bus.
    pub open spec fn byte_at(self, j: int) -> u8 {
        if j == 0 {
            self.header.msg_id
        } else if j == 1 {
            0u8
        } else if j == 2 {
            (self.header.slot_2_offset & 0xff) as u8
        } else if j == 3 {
            (self.header.slot_2_offset >> 8) as u8
        } else {
            self.payload@[j - 4]
        }
    }

    /// The full frame this message denotes on the bus.
    pub open spec fn frame_bytes(self) -> Seq<u8> {
        Seq::new(EC_OUTPUT_FRAME_SIZE as nat, |j: int| self.byte_at(j))
    }

    /// Creates a zero-initialized TX message.
    pub fn new() -> (r: TxMessage)
        ensures
            r.wf(),
            r.header.msg_id == 0,
            r.header.slot_2_offset == 0,
            r.payload@ == Seq::new(TX_PAYLOAD_SIZE as nat, |j: int| 0u8),
    {
        TxMessage {
            header: Header { msg_id: 0, slot_2_offset: 0 },
            payload: zero_bytes(TX_PAYLOAD_SIZE),
        }
    }
}

/// One input frame as reported by a device.
#[derive(Clone, Copy, Debug, PartialEq, Eq, Structural)]
pub struct RxMessage {
    /// The received data byte.
    pub data: u8,
    /// The acknowledgement byte.
    pub ack: u8,
}

impl RxMessage {
    /// Creates a new RX message.
    pub fn new(data: u8, ack: u8) -> (r: RxMessage)
        ensures
            r.data == data,
            r.ack == ack,
    {
        RxMessage { data, ack }
    }
}

/// A vector of `n` zero bytes.
pub fn zero_bytes(n: usize) -> (r: Vec<u8>)
    ensures
        r@ == Seq::new(n as nat, |j: int| 0u8),
{
    let mut v: Vec<u8> = Vec::new();
    let mut i: usize = 0;
    while i < n
        invariant
            i <= n,
            v@ == Seq::new(i as nat, |j: int| 0u8),
        decreases n - i,
    {
        v.push(0u8);
        i = i + 1;
        proof {
            assert(v@ =~= Seq::new(i as nat, |j: int| 0u8));
        }
    }
    v
}

} // verus!
